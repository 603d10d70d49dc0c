//! A measurement held as the bit pattern of an IEEE 754 binary64 number.
//!
//! The library never computes with a measurement. It only asks whether one
//! was supplied, carries it from place to place, and hands it to the
//! formulas that its callers pass in.

use vstd::prelude::*;

verus! {

/// The bit pattern of positive zero.
pub const POSITIVE_ZERO: u64 = 0;

/// The bit pattern of negative zero: the sign bit alone.
pub const NEGATIVE_ZERO: u64 = 0x8000_0000_0000_0000;

/// One measurement of a record, carried as the 64 bits of a binary64 number.
///
/// A measurement that compares equal to zero stands for "not supplied".
#[derive(Clone, Copy, Debug, PartialEq, Eq, Structural)]
pub struct Measure {
    pub bits: u64,
}

impl Measure {
    /// Whether the number compares equal to zero. The two signed zeros do,
    /// and no other pattern does: not a subnormal, not an infinity, not a NaN.
    pub open spec fn absent(self) -> bool {
        self.bits == POSITIVE_ZERO || self.bits == NEGATIVE_ZERO
    }

    /// The measurement with the given bit pattern.
    pub fn from_bits(bits: u64) -> (m: Measure)
        ensures
            m.bits == bits,
    {
        Measure { bits }
    }

    /// The bit pattern of the measurement.
    pub fn to_bits(&self) -> (bits: u64)
        ensures
            bits == self.bits,
    {
        self.bits
    }

    /// Whether the measurement was left out, that is, compares equal to zero.
    pub fn is_absent(&self) -> (r: bool)
        ensures
            r == self.absent(),
    {
        self.bits == POSITIVE_ZERO || self.bits == NEGATIVE_ZERO
    }
}

} // verus!
