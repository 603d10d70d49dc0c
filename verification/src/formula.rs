//! What the library asks of the formulas that its callers hand in.
//!
//! A formula is any function from measurements to a measurement. The library
//! calls it and carries its result; the predicates here say what a caller may
//! further know of one.

use vstd::prelude::*;
use crate::measure::Measure;

verus! {

/// A formula takes every supplied measurement.
pub open spec fn accepts_supplied<F: Fn(Measure) -> Measure>(formula: F) -> bool {
    forall|m: Measure| !m.absent() ==> #[trigger] call_requires(formula, (m,))
}

/// A formula gives one result for one argument.
pub open spec fn single_valued<F: Fn(Measure) -> Measure>(formula: F) -> bool {
    forall|m: Measure, x: Measure, y: Measure|
        #![trigger call_ensures(formula, (m,), x), call_ensures(formula, (m,), y)]
        call_ensures(formula, (m,), x) && call_ensures(formula, (m,), y) ==> x == y
}

/// A formula gives a supplied measurement for a supplied measurement.
pub open spec fn keeps_supplied<F: Fn(Measure) -> Measure>(formula: F) -> bool {
    forall|m: Measure, x: Measure|
        !m.absent() && #[trigger] call_ensures(formula, (m,), x) ==> !x.absent()
}

} // verus!
