//! What holds of filling, whatever formulas it is given.
//!
//! The library does not compute a circumference or a period itself, so each
//! law names what it asks of the formulas and states what then follows for
//! the filled measurements.

use vstd::prelude::*;
use crate::formula::{keeps_supplied, single_valued};
use crate::measure::{Measure, POSITIVE_ZERO};
use crate::record::{
    moon_filled, planet_filled, system_filled, MoonView, PlanetView, SolarSystemView,
};
use crate::rule::{gap_of, pair_filled, Gap};
use crate::volume::{fits_in_primary, total_of, totals_to};

verus! {

/// Filling a pair that has no gap changes nothing.
pub proof fn filling_without_a_gap_changes_nothing<
    S: Fn(Measure) -> Measure,
    F: Fn(Measure) -> Measure,
>(before: (Measure, Measure), after: (Measure, Measure), second_of: S, first_of: F)
    requires
        before.0.absent() == before.1.absent(),
        pair_filled(before, after, second_of, first_of),
    ensures
        after == before,
{
}

/// Filling never changes a measurement that was supplied.
pub proof fn filling_keeps_what_was_supplied<S: Fn(Measure) -> Measure, F: Fn(Measure) -> Measure>(
    before: (Measure, Measure),
    after: (Measure, Measure),
    second_of: S,
    first_of: F,
)
    requires
        pair_filled(before, after, second_of, first_of),
    ensures
        !before.0.absent() ==> after.0 == before.0,
        !before.1.absent() ==> after.1 == before.1,
{
}

/// Filling is idempotent: a pair that was filled once is not changed by
/// filling it again with the same formulas, provided that each formula gives
/// one result for one argument.
pub proof fn filling_twice_is_filling_once<S: Fn(Measure) -> Measure, F: Fn(Measure) -> Measure>(
    before: (Measure, Measure),
    once: (Measure, Measure),
    twice: (Measure, Measure),
    second_of: S,
    first_of: F,
)
    requires
        single_valued(second_of),
        single_valued(first_of),
        pair_filled(before, once, second_of, first_of),
        pair_filled(once, twice, second_of, first_of),
    ensures
        twice == once,
{
}

/// After filling, the members of a pair are either both missing or both
/// supplied, provided that neither formula turns a supplied measurement into
/// a missing one.
pub proof fn filled_pair_has_no_gap<S: Fn(Measure) -> Measure, F: Fn(Measure) -> Measure>(
    before: (Measure, Measure),
    after: (Measure, Measure),
    second_of: S,
    first_of: F,
)
    requires
        keeps_supplied(second_of),
        keeps_supplied(first_of),
        pair_filled(before, after, second_of, first_of),
    ensures
        after.0.absent() == after.1.absent(),
        gap_of(after.0, after.1) == Gap::Neither,
{
}

/// Consistency: where exactly one member of a pair was supplied, the filled
/// pair stands in every relation `consistent` in which each formula's result
/// stands to its argument.
pub proof fn filled_pair_is_consistent<S: Fn(Measure) -> Measure, F: Fn(Measure) -> Measure>(
    before: (Measure, Measure),
    after: (Measure, Measure),
    second_of: S,
    first_of: F,
    consistent: spec_fn(Measure, Measure) -> bool,
)
    requires
        forall|first: Measure, second: Measure|
            !first.absent() && #[trigger] call_ensures(second_of, (first,), second)
                ==> consistent(first, second),
        forall|first: Measure, second: Measure|
            !second.absent() && #[trigger] call_ensures(first_of, (second,), first)
                ==> consistent(first, second),
        before.0.absent() != before.1.absent(),
        pair_filled(before, after, second_of, first_of),
    ensures
        consistent(after.0, after.1),
{
}

/// Symmetry: deriving the second member from a supplied first, and then the
/// first back from that second alone, gives a first that is `near` the one
/// that was supplied, for every relation `near` that holds between a
/// measurement and its way through both formulas, provided that `second_of`
/// does not turn a supplied measurement into a missing one.
pub proof fn filling_back_is_near<S: Fn(Measure) -> Measure, F: Fn(Measure) -> Measure>(
    first: Measure,
    missing: Measure,
    there: (Measure, Measure),
    back: (Measure, Measure),
    second_of: S,
    first_of: F,
    near: spec_fn(Measure, Measure) -> bool,
)
    requires
        forall|a: Measure, b: Measure, c: Measure|
            !a.absent() && #[trigger] call_ensures(second_of, (a,), b) && #[trigger] call_ensures(
                first_of,
                (b,),
                c,
            ) ==> near(a, c),
        keeps_supplied(second_of),
        !first.absent(),
        missing.absent(),
        pair_filled((first, missing), there, second_of, first_of),
        pair_filled((missing, there.1), back, second_of, first_of),
    ensures
        near(first, back.0),
        back.1 == there.1,
{
}

/// Filling a moon is idempotent.
pub proof fn filling_a_moon_twice_is_filling_it_once<
    C: Fn(Measure) -> Measure,
    D: Fn(Measure) -> Measure,
>(before: MoonView, once: MoonView, twice: MoonView, circumference_of: C, diameter_of: D)
    requires
        single_valued(circumference_of),
        single_valued(diameter_of),
        moon_filled(before, once, circumference_of, diameter_of),
        moon_filled(once, twice, circumference_of, diameter_of),
    ensures
        twice == once,
{
    filling_twice_is_filling_once(
        (before.diameter, before.circumference),
        (once.diameter, once.circumference),
        (twice.diameter, twice.circumference),
        circumference_of,
        diameter_of,
    );
}

/// Filling a planet, moons included, is idempotent.
pub proof fn filling_a_planet_twice_is_filling_it_once<
    C: Fn(Measure) -> Measure,
    D: Fn(Measure) -> Measure,
    Q: Fn(Measure) -> Measure,
    P: Fn(Measure) -> Measure,
>(
    before: PlanetView,
    once: PlanetView,
    twice: PlanetView,
    circumference_of: C,
    diameter_of: D,
    distance_of: Q,
    period_of: P,
)
    requires
        single_valued(circumference_of),
        single_valued(diameter_of),
        single_valued(distance_of),
        single_valued(period_of),
        planet_filled(before, once, circumference_of, diameter_of, distance_of, period_of),
        planet_filled(once, twice, circumference_of, diameter_of, distance_of, period_of),
    ensures
        twice == once,
{
    filling_twice_is_filling_once(
        (before.distance_from_sun, before.orbital_period),
        (once.distance_from_sun, once.orbital_period),
        (twice.distance_from_sun, twice.orbital_period),
        period_of,
        distance_of,
    );
    filling_twice_is_filling_once(
        (before.diameter, before.circumference),
        (once.diameter, once.circumference),
        (twice.diameter, twice.circumference),
        circumference_of,
        diameter_of,
    );
    assert forall|j: int| 0 <= j < once.moons.len() implies twice.moons[j] == once.moons[j] by {
        filling_a_moon_twice_is_filling_it_once(
            before.moons[j],
            once.moons[j],
            twice.moons[j],
            circumference_of,
            diameter_of,
        );
    }
    assert(twice.moons =~= once.moons);
}

/// Filling a system, planets and moons included, is idempotent.
pub proof fn filling_a_system_twice_is_filling_it_once<
    C: Fn(Measure) -> Measure,
    D: Fn(Measure) -> Measure,
    Q: Fn(Measure) -> Measure,
    P: Fn(Measure) -> Measure,
>(
    before: SolarSystemView,
    once: SolarSystemView,
    twice: SolarSystemView,
    circumference_of: C,
    diameter_of: D,
    distance_of: Q,
    period_of: P,
)
    requires
        single_valued(circumference_of),
        single_valued(diameter_of),
        single_valued(distance_of),
        single_valued(period_of),
        system_filled(before, once, circumference_of, diameter_of, distance_of, period_of),
        system_filled(once, twice, circumference_of, diameter_of, distance_of, period_of),
    ensures
        twice == once,
{
    filling_twice_is_filling_once(
        (before.diameter, before.circumference),
        (once.diameter, once.circumference),
        (twice.diameter, twice.circumference),
        circumference_of,
        diameter_of,
    );
    assert forall|i: int| 0 <= i < once.planets.len() implies twice.planets[i]
        == once.planets[i] by {
        filling_a_planet_twice_is_filling_it_once(
            before.planets[i],
            once.planets[i],
            twice.planets[i],
            circumference_of,
            diameter_of,
            distance_of,
            period_of,
        );
    }
    assert(twice.planets =~= once.planets);
}

/// After filling, every pair of every record of a system is wholly supplied
/// or wholly missing, provided that no formula turns a supplied measurement
/// into a missing one.
pub proof fn a_filled_system_is_whole<
    C: Fn(Measure) -> Measure,
    D: Fn(Measure) -> Measure,
    Q: Fn(Measure) -> Measure,
    P: Fn(Measure) -> Measure,
>(
    before: SolarSystemView,
    after: SolarSystemView,
    circumference_of: C,
    diameter_of: D,
    distance_of: Q,
    period_of: P,
)
    requires
        keeps_supplied(circumference_of),
        keeps_supplied(diameter_of),
        keeps_supplied(distance_of),
        keeps_supplied(period_of),
        system_filled(before, after, circumference_of, diameter_of, distance_of, period_of),
    ensures
        after.whole(),
{
}

/// The volumes of no planets at all add up to positive zero.
pub proof fn the_total_of_no_planets_is_positive_zero<
    V: Fn(Measure) -> Measure,
    S: Fn(Measure, Measure) -> Measure,
>(diameters: Seq<Measure>, total: Measure, volume_of: V, sum_of: S)
    requires
        diameters.len() == 0,
    ensures
        totals_to(diameters, total, volume_of, sum_of) <==> total.bits == POSITIVE_ZERO,
{
}

/// Without planets, the answer is that of `less_than` for positive zero and
/// a volume of the primary.
pub proof fn without_planets_the_primary_is_held_against_zero<
    V: Fn(Measure) -> Measure,
    S: Fn(Measure, Measure) -> Measure,
    L: Fn(Measure, Measure) -> bool,
>(
    primary_diameter: Measure,
    planet_diameters: Seq<Measure>,
    fits: bool,
    volume_of: V,
    sum_of: S,
    less_than: L,
)
    requires
        planet_diameters.len() == 0,
        fits_in_primary(primary_diameter, planet_diameters, fits, volume_of, sum_of, less_than),
    ensures
        exists|primary_volume: Measure|
            call_ensures(volume_of, (primary_diameter,), primary_volume) && #[trigger] call_ensures(
                less_than,
                (Measure { bits: POSITIVE_ZERO }, primary_volume),
                fits,
            ),
{
    let (total, primary_volume) = choose|total: Measure, primary_volume: Measure|
        totals_to(planet_diameters, total, volume_of, sum_of) && call_ensures(
            volume_of,
            (primary_diameter,),
            primary_volume,
        ) && #[trigger] call_ensures(less_than, (total, primary_volume), fits);
    assert(total == Measure { bits: POSITIVE_ZERO });
}

/// Where the volume of a body and the sum of two volumes are functions, the
/// running total is the one that starts at positive zero and takes the
/// planets' volumes from the first to the last.
pub proof fn the_total_is_taken_from_first_to_last<
    V: Fn(Measure) -> Measure,
    S: Fn(Measure, Measure) -> Measure,
>(
    diameters: Seq<Measure>,
    total: Measure,
    volume_of: V,
    sum_of: S,
    volume: spec_fn(Measure) -> Measure,
    sum: spec_fn(Measure, Measure) -> Measure,
)
    requires
        forall|d: Measure, v: Measure| #[trigger] call_ensures(volume_of, (d,), v) ==> v == volume(d),
        forall|a: Measure, b: Measure, c: Measure| #[trigger]
            call_ensures(sum_of, (a, b), c) ==> c == sum(a, b),
        totals_to(diameters, total, volume_of, sum_of),
    ensures
        total == total_of(diameters, volume, sum),
    decreases diameters.len(),
{
    if diameters.len() > 0 {
        let (so_far, last) = choose|so_far: Measure, last: Measure|
            totals_to(diameters.drop_last(), so_far, volume_of, sum_of) && call_ensures(
                volume_of,
                (diameters.last(),),
                last,
            ) && #[trigger] call_ensures(sum_of, (so_far, last), total);
        the_total_is_taken_from_first_to_last(
            diameters.drop_last(),
            so_far,
            volume_of,
            sum_of,
            volume,
            sum,
        );
    }
}

/// Where the volume of a body, the sum of two volumes and their comparison
/// are functions, the answer is the comparison of the planets' running total
/// with the volume of the primary.
pub proof fn the_answer_compares_the_total_with_the_primary<
    V: Fn(Measure) -> Measure,
    S: Fn(Measure, Measure) -> Measure,
    L: Fn(Measure, Measure) -> bool,
>(
    primary_diameter: Measure,
    planet_diameters: Seq<Measure>,
    fits: bool,
    volume_of: V,
    sum_of: S,
    less_than: L,
    volume: spec_fn(Measure) -> Measure,
    sum: spec_fn(Measure, Measure) -> Measure,
    less: spec_fn(Measure, Measure) -> bool,
)
    requires
        forall|d: Measure, v: Measure| #[trigger] call_ensures(volume_of, (d,), v) ==> v == volume(d),
        forall|a: Measure, b: Measure, c: Measure| #[trigger]
            call_ensures(sum_of, (a, b), c) ==> c == sum(a, b),
        forall|a: Measure, b: Measure, c: bool| #[trigger]
            call_ensures(less_than, (a, b), c) ==> c == less(a, b),
        fits_in_primary(primary_diameter, planet_diameters, fits, volume_of, sum_of, less_than),
    ensures
        fits == less(total_of(planet_diameters, volume, sum), volume(primary_diameter)),
{
    let (total, primary_volume) = choose|total: Measure, primary_volume: Measure|
        totals_to(planet_diameters, total, volume_of, sum_of) && call_ensures(
            volume_of,
            (primary_diameter,),
            primary_volume,
        ) && #[trigger] call_ensures(less_than, (total, primary_volume), fits);
    the_total_is_taken_from_first_to_last(planet_diameters, total, volume_of, sum_of, volume, sum);
}

} // verus!
