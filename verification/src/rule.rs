//! The rule that fills a linked pair of measurements.
//!
//! Two measurements are linked when each can be derived from the other:
//! a diameter and a circumference, a distance and an orbital period. Where
//! exactly one of the two was supplied, the rule derives the other with the
//! formula that the caller hands in. Where both or neither were supplied,
//! the rule changes nothing.

use vstd::prelude::*;
use crate::formula::accepts_supplied;
use crate::measure::Measure;

verus! {

/// The member of a linked pair that is to be derived.
#[derive(Clone, Copy, Debug, PartialEq, Eq, Structural)]
pub enum Gap {
    /// Both were supplied, or neither was: nothing is derived.
    Neither,
    /// The first is missing and the second was supplied.
    First,
    /// The second is missing and the first was supplied.
    Second,
}

/// The gap in the pair `(first, second)`.
pub open spec fn gap_of(first: Measure, second: Measure) -> Gap {
    if second.absent() && !first.absent() {
        Gap::Second
    } else if first.absent() && !second.absent() {
        Gap::First
    } else {
        Gap::Neither
    }
}

/// `after` is the pair `before` with its gap filled: the missing member is a
/// result of the formula that derives it from the other, and the other is
/// untouched. A pair without a gap stays as it was.
pub open spec fn pair_filled<S: Fn(Measure) -> Measure, F: Fn(Measure) -> Measure>(
    before: (Measure, Measure),
    after: (Measure, Measure),
    second_of: S,
    first_of: F,
) -> bool {
    match gap_of(before.0, before.1) {
        Gap::Second => after.0 == before.0 && call_ensures(second_of, (before.0,), after.1),
        Gap::First => after.1 == before.1 && call_ensures(first_of, (before.1,), after.0),
        Gap::Neither => after == before,
    }
}

/// Finds the gap in the pair `(first, second)`.
pub fn find_gap(first: Measure, second: Measure) -> (gap: Gap)
    ensures
        gap == gap_of(first, second),
{
    if second.is_absent() && !first.is_absent() {
        Gap::Second
    } else if first.is_absent() && !second.is_absent() {
        Gap::First
    } else {
        Gap::Neither
    }
}

/// Fills the gap in the pair `(first, second)`: `second_of` derives the
/// second from the first, `first_of` the first from the second. At most one
/// of the two is called, and only on a supplied measurement.
pub fn fill_pair<S: Fn(Measure) -> Measure, F: Fn(Measure) -> Measure>(
    first: Measure,
    second: Measure,
    second_of: &S,
    first_of: &F,
) -> (filled: (Measure, Measure))
    requires
        accepts_supplied(*second_of),
        accepts_supplied(*first_of),
    ensures
        pair_filled((first, second), filled, *second_of, *first_of),
{
    match find_gap(first, second) {
        Gap::Second => {
            let derived = second_of(first);
            (first, derived)
        },
        Gap::First => {
            let derived = first_of(second);
            (derived, second)
        },
        Gap::Neither => (first, second),
    }
}

/// Fills in whichever of a diameter and a circumference is missing.
///
/// A missing circumference becomes `circumference_of(diameter)`, a missing
/// diameter `diameter_of(circumference)`. Where both were supplied they are
/// returned as they came, whether or not they agree; where neither was, both
/// stay missing.
pub fn fill_circumference_diameter<C: Fn(Measure) -> Measure, D: Fn(Measure) -> Measure>(
    diameter: Measure,
    circumference: Measure,
    circumference_of: &C,
    diameter_of: &D,
) -> (filled: (Measure, Measure))
    requires
        accepts_supplied(*circumference_of),
        accepts_supplied(*diameter_of),
    ensures
        pair_filled((diameter, circumference), filled, *circumference_of, *diameter_of),
{
    fill_pair(diameter, circumference, circumference_of, diameter_of)
}

/// Fills in whichever of a distance from the primary and an orbital period
/// is missing.
///
/// A missing distance becomes `distance_of(period)`, a missing period
/// `period_of(distance)`. Where both or neither were supplied, both are
/// returned as they came.
pub fn fill_distance_period<Q: Fn(Measure) -> Measure, P: Fn(Measure) -> Measure>(
    distance: Measure,
    period: Measure,
    distance_of: &Q,
    period_of: &P,
) -> (filled: (Measure, Measure))
    requires
        accepts_supplied(*distance_of),
        accepts_supplied(*period_of),
    ensures
        pair_filled((distance, period), filled, *period_of, *distance_of),
{
    fill_pair(distance, period, period_of, distance_of)
}

} // verus!
