use orrery::measure::Measure;
use orrery::record::{Moon, Planet, SolarSystem};
use std::f64::consts::PI;

fn measure(x: f64) -> Measure {
    Measure::from_bits(x.to_bits())
}

fn number(m: Measure) -> f64 {
    f64::from_bits(m.to_bits())
}

fn circumference_of(diameter: Measure) -> Measure {
    measure(number(diameter) * PI)
}

fn diameter_of(circumference: Measure) -> Measure {
    measure(number(circumference) / PI)
}

fn period_of(distance: Measure) -> Measure {
    measure(number(distance).powf(3.0).sqrt())
}

fn distance_of(period: Measure) -> Measure {
    measure(number(period).powf(2.0).powf(1.0 / 3.0))
}

fn moon(name: &str, diameter: f64, circumference: f64) -> Moon {
    Moon {
        name: String::from(name),
        diameter: measure(diameter),
        circumference: measure(circumference),
    }
}

fn planet(
    name: &str,
    distance: f64,
    period: f64,
    diameter: f64,
    circumference: f64,
    moons: Vec<Moon>,
) -> Planet {
    Planet {
        name: String::from(name),
        distance_from_sun: measure(distance),
        orbital_period: measure(period),
        diameter: measure(diameter),
        circumference: measure(circumference),
        moons,
    }
}

fn sample() -> SolarSystem {
    SolarSystem {
        name: String::from("Sol"),
        diameter: measure(1392000.0),
        circumference: measure(0.0),
        planets: vec![
            planet("Mercury", 0.39, 0.0, 4879.0, 0.0, vec![]),
            planet(
                "Earth",
                1.0,
                0.0,
                0.0,
                40075.0,
                vec![moon("Moon", 3474.8, 0.0)],
            ),
            planet(
                "Mars",
                0.0,
                1.88,
                6779.0,
                21297.0,
                vec![moon("Phobos", 0.0, 70.0), moon("Deimos", 0.0, 0.0)],
            ),
            planet("Nameless", 0.0, 0.0, 0.0, 0.0, vec![moon("Rock", 1.0, 2.0)]),
        ],
    }
}

fn fill(system: &mut SolarSystem) {
    system.fill(&circumference_of, &diameter_of, &distance_of, &period_of);
}

#[test]
fn a_moon_gets_whichever_of_its_two_measurements_is_missing() {
    let mut m = moon("Moon", 3474.8, 0.0);
    m.fill(&circumference_of, &diameter_of);
    assert_eq!(m, moon("Moon", 3474.8, 3474.8 * PI));

    let mut m = moon("Phobos", 0.0, 70.0);
    m.fill(&circumference_of, &diameter_of);
    assert_eq!(m, moon("Phobos", 70.0 / PI, 70.0));

    let mut m = moon("Deimos", 0.0, 0.0);
    m.fill(&circumference_of, &diameter_of);
    assert_eq!(m, moon("Deimos", 0.0, 0.0));

    let mut m = moon("Rock", 1.0, 2.0);
    m.fill(&circumference_of, &diameter_of);
    assert_eq!(m, moon("Rock", 1.0, 2.0));
}

#[test]
fn a_planet_gets_both_of_its_pairs_and_its_moons_filled() {
    let mut p = planet(
        "Earth",
        1.0,
        0.0,
        0.0,
        40075.0,
        vec![moon("Moon", 3474.8, 0.0)],
    );
    p.fill(&circumference_of, &diameter_of, &distance_of, &period_of);
    assert_eq!(
        p,
        planet(
            "Earth",
            1.0,
            1.0,
            40075.0 / PI,
            40075.0,
            vec![moon("Moon", 3474.8, 3474.8 * PI)],
        )
    );
}

#[test]
fn a_planet_with_a_period_gets_its_distance() {
    let mut p = planet("Mars", 0.0, 1.88, 6779.0, 21297.0, vec![]);
    p.fill(&circumference_of, &diameter_of, &distance_of, &period_of);
    assert_eq!(number(p.orbital_period), 1.88);
    assert_eq!(number(p.distance_from_sun), (1.88f64 * 1.88).powf(1.0 / 3.0));
    assert!((number(p.distance_from_sun) - 1.523).abs() < 0.001);
    assert_eq!(number(p.diameter), 6779.0);
    assert_eq!(number(p.circumference), 21297.0);
}

#[test]
fn a_whole_system_is_filled_from_the_star_down_to_the_moons() {
    let mut system = sample();
    fill(&mut system);

    assert_eq!(system.name, "Sol");
    assert_eq!(number(system.diameter), 1392000.0);
    assert_eq!(number(system.circumference), 1392000.0 * PI);
    assert_eq!(system.planets.len(), 4);

    assert_eq!(
        system.planets[0],
        planet(
            "Mercury",
            0.39,
            0.39f64.powf(3.0).sqrt(),
            4879.0,
            4879.0 * PI,
            vec![],
        )
    );
    assert_eq!(
        system.planets[1],
        planet(
            "Earth",
            1.0,
            1.0,
            40075.0 / PI,
            40075.0,
            vec![moon("Moon", 3474.8, 3474.8 * PI)],
        )
    );
    assert_eq!(
        system.planets[2],
        planet(
            "Mars",
            1.88f64.powf(2.0).powf(1.0 / 3.0),
            1.88,
            6779.0,
            21297.0,
            vec![moon("Phobos", 70.0 / PI, 70.0), moon("Deimos", 0.0, 0.0)],
        )
    );
    assert_eq!(
        system.planets[3],
        planet("Nameless", 0.0, 0.0, 0.0, 0.0, vec![moon("Rock", 1.0, 2.0)])
    );
}

#[test]
fn filling_keeps_names_and_order() {
    let before = sample();
    let mut after = sample();
    fill(&mut after);
    assert_eq!(after.name, before.name);
    assert_eq!(after.planets.len(), before.planets.len());
    for (a, b) in after.planets.iter().zip(before.planets.iter()) {
        assert_eq!(a.name, b.name);
        assert_eq!(a.moons.len(), b.moons.len());
        for (x, y) in a.moons.iter().zip(b.moons.iter()) {
            assert_eq!(x.name, y.name);
        }
    }
}

#[test]
fn filling_a_system_twice_gives_what_filling_it_once_gives() {
    let mut once = sample();
    fill(&mut once);
    let mut twice = once.clone();
    fill(&mut twice);
    assert_eq!(twice, once);
}

#[test]
fn after_filling_every_pair_is_whole_or_wholly_missing() {
    let mut system = sample();
    fill(&mut system);
    assert_eq!(system.diameter.is_absent(), system.circumference.is_absent());
    for p in system.planets.iter() {
        assert_eq!(p.diameter.is_absent(), p.circumference.is_absent());
        assert_eq!(p.distance_from_sun.is_absent(), p.orbital_period.is_absent());
        for m in p.moons.iter() {
            assert_eq!(m.diameter.is_absent(), m.circumference.is_absent());
        }
    }
}

#[test]
fn a_star_without_a_diameter_gets_it_from_its_circumference() {
    let mut system = SolarSystem {
        name: String::from("Dim"),
        diameter: measure(0.0),
        circumference: measure(10.0),
        planets: vec![],
    };
    fill(&mut system);
    assert_eq!(number(system.diameter), 10.0 / PI);
    assert_eq!(number(system.circumference), 10.0);
}

#[test]
fn a_system_without_planets_is_filled_too() {
    let mut system = SolarSystem {
        name: String::from("Alone"),
        diameter: measure(2.0),
        circumference: measure(0.0),
        planets: vec![],
    };
    fill(&mut system);
    assert_eq!(number(system.circumference), 2.0 * PI);
    assert!(system.planets.is_empty());
    assert!(system.planet_diameters().is_empty());
}

#[test]
fn the_planet_diameters_come_in_the_order_of_the_planets() {
    let mut system = sample();
    let before: Vec<f64> = system.planet_diameters().into_iter().map(number).collect();
    assert_eq!(before, vec![4879.0, 0.0, 6779.0, 0.0]);
    fill(&mut system);
    let after: Vec<f64> = system.planet_diameters().into_iter().map(number).collect();
    assert_eq!(after, vec![4879.0, 40075.0 / PI, 6779.0, 0.0]);
}
