//! The planets' volumes, added up and held against the primary's volume.
//!
//! The volume of a body, the sum of two volumes and their comparison are
//! formulas that the caller hands in. What is fixed here is the order: the
//! total starts at positive zero and takes the planets' volumes one by one,
//! from the first planet to the last.

use vstd::prelude::*;
use crate::measure::{Measure, POSITIVE_ZERO};

verus! {

/// `total` is a running total of the volumes of `diameters`: positive zero
/// for no diameters, and else a sum of a running total of all but the last
/// and a volume of the last.
pub open spec fn totals_to<V: Fn(Measure) -> Measure, S: Fn(Measure, Measure) -> Measure>(
    diameters: Seq<Measure>,
    total: Measure,
    volume_of: V,
    sum_of: S,
) -> bool
    decreases diameters.len(),
{
    if diameters.len() == 0 {
        total.bits == POSITIVE_ZERO
    } else {
        exists|so_far: Measure, volume: Measure|
            totals_to(diameters.drop_last(), so_far, volume_of, sum_of) && call_ensures(
                volume_of,
                (diameters.last(),),
                volume,
            ) && #[trigger] call_ensures(sum_of, (so_far, volume), total)
    }
}

/// The running total of the volumes of `diameters` where the volume of a
/// body and the sum of two volumes are the functions `volume` and `sum`.
pub open spec fn total_of(
    diameters: Seq<Measure>,
    volume: spec_fn(Measure) -> Measure,
    sum: spec_fn(Measure, Measure) -> Measure,
) -> Measure
    decreases diameters.len(),
{
    if diameters.len() == 0 {
        Measure { bits: POSITIVE_ZERO }
    } else {
        sum(total_of(diameters.drop_last(), volume, sum), volume(diameters.last()))
    }
}

/// `fits` is an answer to whether a running total of the volumes of
/// `planet_diameters` is less than a volume of `primary_diameter`.
pub open spec fn fits_in_primary<
    V: Fn(Measure) -> Measure,
    S: Fn(Measure, Measure) -> Measure,
    L: Fn(Measure, Measure) -> bool,
>(
    primary_diameter: Measure,
    planet_diameters: Seq<Measure>,
    fits: bool,
    volume_of: V,
    sum_of: S,
    less_than: L,
) -> bool {
    exists|total: Measure, primary_volume: Measure|
        totals_to(planet_diameters, total, volume_of, sum_of) && call_ensures(
            volume_of,
            (primary_diameter,),
            primary_volume,
        ) && #[trigger] call_ensures(less_than, (total, primary_volume), fits)
}

/// Adds up the volumes of the planets, from the first to the last.
pub fn total_planet_volume<V: Fn(Measure) -> Measure, S: Fn(Measure, Measure) -> Measure>(
    planet_diameters: &Vec<Measure>,
    volume_of: &V,
    sum_of: &S,
) -> (total: Measure)
    requires
        forall|d: Measure| call_requires(*volume_of, (d,)),
        forall|a: Measure, b: Measure| call_requires(*sum_of, (a, b)),
    ensures
        totals_to(planet_diameters@, total, *volume_of, *sum_of),
{
    let mut total = Measure::from_bits(POSITIVE_ZERO);
    let count = planet_diameters.len();
    let mut i: usize = 0;
    while i < count
        invariant
            i <= count,
            count == planet_diameters.len(),
            forall|d: Measure| call_requires(*volume_of, (d,)),
            forall|a: Measure, b: Measure| call_requires(*sum_of, (a, b)),
            totals_to(planet_diameters@.take(i as int), total, *volume_of, *sum_of),
        decreases count - i,
    {
        let volume = volume_of(planet_diameters[i]);
        let sum = sum_of(total, volume);
        proof {
            let upto = planet_diameters@.take(i + 1);
            assert(upto.drop_last() == planet_diameters@.take(i as int));
            assert(upto.last() == planet_diameters[i as int]);
        }
        total = sum;
        i += 1;
    }
    proof {
        assert(planet_diameters@.take(count as int) == planet_diameters@);
    }
    total
}

/// Whether the planets' volumes, added up, come to less than the volume of
/// the primary.
///
/// Without planets the total is positive zero, and the answer is that of
/// `less_than` for positive zero and the primary's volume.
pub fn total_planet_volume_fits_in_primary<
    V: Fn(Measure) -> Measure,
    S: Fn(Measure, Measure) -> Measure,
    L: Fn(Measure, Measure) -> bool,
>(
    primary_diameter: Measure,
    planet_diameters: &Vec<Measure>,
    volume_of: &V,
    sum_of: &S,
    less_than: &L,
) -> (fits: bool)
    requires
        forall|d: Measure| call_requires(*volume_of, (d,)),
        forall|a: Measure, b: Measure| call_requires(*sum_of, (a, b)),
        forall|a: Measure, b: Measure| call_requires(*less_than, (a, b)),
    ensures
        fits_in_primary(
            primary_diameter,
            planet_diameters@,
            fits,
            *volume_of,
            *sum_of,
            *less_than,
        ),
{
    let primary_volume = volume_of(primary_diameter);
    let total = total_planet_volume(planet_diameters, volume_of, sum_of);
    less_than(total, primary_volume)
}

} // verus!
