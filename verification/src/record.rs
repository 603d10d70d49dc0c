//! The records of a star system: the system, its planets, their moons.
//!
//! Filling a record fills its own linked pairs and then the records below
//! it, each one once. Names and the number and order of planets and moons
//! never change.

use vstd::prelude::*;
use crate::formula::accepts_supplied;
use crate::measure::Measure;
use crate::rule::{fill_circumference_diameter, fill_distance_period, pair_filled};

verus! {

/// A moon of a planet.
#[derive(Clone, Debug, PartialEq, Eq)]
pub struct Moon {
    pub name: String,
    pub diameter: Measure,
    pub circumference: Measure,
}

/// A planet with its moons, in the order in which they were given.
#[derive(Clone, Debug, PartialEq, Eq)]
pub struct Planet {
    pub name: String,
    pub distance_from_sun: Measure,
    pub orbital_period: Measure,
    pub diameter: Measure,
    pub circumference: Measure,
    pub moons: Vec<Moon>,
}

/// A star with its planets, in the order in which they were given.
#[derive(Clone, Debug, PartialEq, Eq)]
pub struct SolarSystem {
    pub name: String,
    pub diameter: Measure,
    pub circumference: Measure,
    pub planets: Vec<Planet>,
}

/// What a moon is.
pub struct MoonView {
    pub name: Seq<char>,
    pub diameter: Measure,
    pub circumference: Measure,
}

/// What a planet is.
pub struct PlanetView {
    pub name: Seq<char>,
    pub distance_from_sun: Measure,
    pub orbital_period: Measure,
    pub diameter: Measure,
    pub circumference: Measure,
    pub moons: Seq<MoonView>,
}

/// What a system is.
pub struct SolarSystemView {
    pub name: Seq<char>,
    pub diameter: Measure,
    pub circumference: Measure,
    pub planets: Seq<PlanetView>,
}

impl View for Moon {
    type V = MoonView;

    open spec fn view(&self) -> MoonView {
        MoonView {
            name: self.name@,
            diameter: self.diameter,
            circumference: self.circumference,
        }
    }
}

impl View for Planet {
    type V = PlanetView;

    open spec fn view(&self) -> PlanetView {
        PlanetView {
            name: self.name@,
            distance_from_sun: self.distance_from_sun,
            orbital_period: self.orbital_period,
            diameter: self.diameter,
            circumference: self.circumference,
            moons: self.moons@.map_values(|moon: Moon| moon@),
        }
    }
}

impl View for SolarSystem {
    type V = SolarSystemView;

    open spec fn view(&self) -> SolarSystemView {
        SolarSystemView {
            name: self.name@,
            diameter: self.diameter,
            circumference: self.circumference,
            planets: self.planets@.map_values(|planet: Planet| planet@),
        }
    }
}

impl MoonView {
    /// The moon's diameter and circumference are both supplied or both
    /// missing.
    pub open spec fn whole(self) -> bool {
        self.diameter.absent() == self.circumference.absent()
    }
}

impl PlanetView {
    /// Each of the planet's two pairs is wholly supplied or wholly missing,
    /// and each of its moons is whole.
    pub open spec fn whole(self) -> bool {
        &&& self.distance_from_sun.absent() == self.orbital_period.absent()
        &&& self.diameter.absent() == self.circumference.absent()
        &&& forall|j: int| 0 <= j < self.moons.len() ==> (#[trigger] self.moons[j]).whole()
    }
}

impl SolarSystemView {
    /// The star's diameter and circumference are both supplied or both
    /// missing, and each planet is whole.
    pub open spec fn whole(self) -> bool {
        &&& self.diameter.absent() == self.circumference.absent()
        &&& forall|i: int| 0 <= i < self.planets.len() ==> (#[trigger] self.planets[i]).whole()
    }
}

/// `after` is the moon `before` with its diameter and circumference filled.
pub open spec fn moon_filled<C: Fn(Measure) -> Measure, D: Fn(Measure) -> Measure>(
    before: MoonView,
    after: MoonView,
    circumference_of: C,
    diameter_of: D,
) -> bool {
    &&& after.name == before.name
    &&& pair_filled(
        (before.diameter, before.circumference),
        (after.diameter, after.circumference),
        circumference_of,
        diameter_of,
    )
}

/// `after` is the planet `before` with its distance and period filled, its
/// diameter and circumference filled, and each of its moons filled.
pub open spec fn planet_filled<
    C: Fn(Measure) -> Measure,
    D: Fn(Measure) -> Measure,
    Q: Fn(Measure) -> Measure,
    P: Fn(Measure) -> Measure,
>(
    before: PlanetView,
    after: PlanetView,
    circumference_of: C,
    diameter_of: D,
    distance_of: Q,
    period_of: P,
) -> bool {
    &&& after.name == before.name
    &&& pair_filled(
        (before.distance_from_sun, before.orbital_period),
        (after.distance_from_sun, after.orbital_period),
        period_of,
        distance_of,
    )
    &&& pair_filled(
        (before.diameter, before.circumference),
        (after.diameter, after.circumference),
        circumference_of,
        diameter_of,
    )
    &&& after.moons.len() == before.moons.len()
    &&& forall|j: int|
        0 <= j < before.moons.len() ==> moon_filled(
            before.moons[j],
            #[trigger] after.moons[j],
            circumference_of,
            diameter_of,
        )
}

/// `after` is the system `before` with its own diameter and circumference
/// filled and each of its planets filled.
pub open spec fn system_filled<
    C: Fn(Measure) -> Measure,
    D: Fn(Measure) -> Measure,
    Q: Fn(Measure) -> Measure,
    P: Fn(Measure) -> Measure,
>(
    before: SolarSystemView,
    after: SolarSystemView,
    circumference_of: C,
    diameter_of: D,
    distance_of: Q,
    period_of: P,
) -> bool {
    &&& after.name == before.name
    &&& pair_filled(
        (before.diameter, before.circumference),
        (after.diameter, after.circumference),
        circumference_of,
        diameter_of,
    )
    &&& after.planets.len() == before.planets.len()
    &&& forall|i: int|
        0 <= i < before.planets.len() ==> planet_filled(
            before.planets[i],
            #[trigger] after.planets[i],
            circumference_of,
            diameter_of,
            distance_of,
            period_of,
        )
}

impl Moon {
    /// Fills in whichever of the moon's diameter and circumference is
    /// missing.
    pub fn fill<C: Fn(Measure) -> Measure, D: Fn(Measure) -> Measure>(
        &mut self,
        circumference_of: &C,
        diameter_of: &D,
    )
        requires
            accepts_supplied(*circumference_of),
            accepts_supplied(*diameter_of),
        ensures
            moon_filled(old(self)@, final(self)@, *circumference_of, *diameter_of),
    {
        let (diameter, circumference) = fill_circumference_diameter(
            self.diameter,
            self.circumference,
            circumference_of,
            diameter_of,
        );
        self.diameter = diameter;
        self.circumference = circumference;
    }
}

impl Planet {
    /// Fills the planet: first its distance and period, then its diameter
    /// and circumference, then its moons from the first to the last.
    pub fn fill<
        C: Fn(Measure) -> Measure,
        D: Fn(Measure) -> Measure,
        Q: Fn(Measure) -> Measure,
        P: Fn(Measure) -> Measure,
    >(&mut self, circumference_of: &C, diameter_of: &D, distance_of: &Q, period_of: &P)
        requires
            accepts_supplied(*circumference_of),
            accepts_supplied(*diameter_of),
            accepts_supplied(*distance_of),
            accepts_supplied(*period_of),
        ensures
            planet_filled(
                old(self)@,
                final(self)@,
                *circumference_of,
                *diameter_of,
                *distance_of,
                *period_of,
            ),
    {
        let (distance, period) = fill_distance_period(
            self.distance_from_sun,
            self.orbital_period,
            distance_of,
            period_of,
        );
        self.distance_from_sun = distance;
        self.orbital_period = period;
        let (diameter, circumference) = fill_circumference_diameter(
            self.diameter,
            self.circumference,
            circumference_of,
            diameter_of,
        );
        self.diameter = diameter;
        self.circumference = circumference;
        let count = self.moons.len();
        let mut j: usize = 0;
        while j < count
            invariant
                j <= count,
                count == self.moons.len(),
                count == old(self).moons.len(),
                self.name == old(self).name,
                self.distance_from_sun == distance,
                self.orbital_period == period,
                self.diameter == diameter,
                self.circumference == circumference,
                accepts_supplied(*circumference_of),
                accepts_supplied(*diameter_of),
                forall|k: int|
                    0 <= k < j ==> moon_filled(
                        old(self).moons[k]@,
                        #[trigger] self.moons[k]@,
                        *circumference_of,
                        *diameter_of,
                    ),
                forall|k: int| j <= k < count ==> self.moons[k] == old(self).moons[k],
            decreases count - j,
        {
            self.moons[j].fill(circumference_of, diameter_of);
            j += 1;
        }
    }
}

impl SolarSystem {
    /// Fills the whole system: first the star's own diameter and
    /// circumference, then its planets from the first to the last.
    pub fn fill<
        C: Fn(Measure) -> Measure,
        D: Fn(Measure) -> Measure,
        Q: Fn(Measure) -> Measure,
        P: Fn(Measure) -> Measure,
    >(&mut self, circumference_of: &C, diameter_of: &D, distance_of: &Q, period_of: &P)
        requires
            accepts_supplied(*circumference_of),
            accepts_supplied(*diameter_of),
            accepts_supplied(*distance_of),
            accepts_supplied(*period_of),
        ensures
            system_filled(
                old(self)@,
                final(self)@,
                *circumference_of,
                *diameter_of,
                *distance_of,
                *period_of,
            ),
    {
        let (diameter, circumference) = fill_circumference_diameter(
            self.diameter,
            self.circumference,
            circumference_of,
            diameter_of,
        );
        self.diameter = diameter;
        self.circumference = circumference;
        let count = self.planets.len();
        let mut i: usize = 0;
        while i < count
            invariant
                i <= count,
                count == self.planets.len(),
                count == old(self).planets.len(),
                self.name == old(self).name,
                self.diameter == diameter,
                self.circumference == circumference,
                accepts_supplied(*circumference_of),
                accepts_supplied(*diameter_of),
                accepts_supplied(*distance_of),
                accepts_supplied(*period_of),
                forall|k: int|
                    0 <= k < i ==> planet_filled(
                        old(self).planets[k]@,
                        #[trigger] self.planets[k]@,
                        *circumference_of,
                        *diameter_of,
                        *distance_of,
                        *period_of,
                    ),
                forall|k: int| i <= k < count ==> self.planets[k] == old(self).planets[k],
            decreases count - i,
        {
            self.planets[i].fill(circumference_of, diameter_of, distance_of, period_of);
            i += 1;
        }
    }

    /// The diameters of the planets, in the order of the planets.
    pub fn planet_diameters(&self) -> (diameters: Vec<Measure>)
        ensures
            diameters@ == self@.planets.map_values(|planet: PlanetView| planet.diameter),
    {
        let mut diameters: Vec<Measure> = Vec::new();
        let count = self.planets.len();
        let mut i: usize = 0;
        while i < count
            invariant
                i <= count,
                count == self.planets.len(),
                diameters.len() == i,
                forall|k: int| 0 <= k < i ==> diameters[k] == self.planets[k].diameter,
            decreases count - i,
        {
            diameters.push(self.planets[i].diameter);
            i += 1;
        }
        diameters
    }
}

} // verus!
