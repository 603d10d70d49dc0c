//! Fills in the measurements that a description of a star system leaves out.
//!
//! A system is a star with planets, and each planet has moons. Every body has
//! a diameter and a circumference; a planet also has a distance from the star
//! and an orbital period. A measurement that is zero counts as not supplied.
//! Where exactly one measurement of a linked pair was supplied, filling
//! derives the other; it never touches a measurement that was supplied.
//!
//! Measurements are binary64 numbers, and this library holds them by their
//! bit patterns only. The arithmetic (a circumference from a diameter, a
//! period from a distance, the volume of a sphere, a sum, a comparison) is
//! handed in by the caller as functions on measurements. What is decided and
//! proved here is which measurement counts as missing, which formula is
//! applied to which measurement, in which records, and in what order the
//! planets' volumes are added up.
//!
//! - [`measure`]: a measurement and the test for "not supplied".
//! - [`formula`]: what may be known of the formulas handed in.
//! - [`rule`]: the rule that fills a linked pair.
//! - [`record`]: moons, planets and systems, and filling them in place.
//! - [`volume`]: the planets' total volume against the star's.
//! - [`law`]: what holds of all of it, as lemmas.

pub mod formula;
pub mod law;
pub mod measure;
pub mod record;
pub mod rule;
pub mod volume;
