//! Calendars and clocks for bodies on Keplerian orbits.
//!
//! Every decision the orbital engine takes is made here and proved against a
//! mathematical model: the classification of an orbit by its eccentricity,
//! the validation of orbital elements, the control of the iterative anomaly
//! solvers, the normalisation of a solar longitude, the search for the
//! calendar year, the naming of seasons, eras and time zones, and the integer
//! part of the Julian Date formula.
//!
//! Real quantities cross the boundary of this crate as IEEE-754 binary64
//! encodings, the sixty-four bits of a double; [`binary64`] gives those
//! encodings their meaning. The arithmetic between two decisions is the
//! caller's.
pub mod anomaly;
pub mod binary64;
pub mod conversions;
pub mod julian;
pub mod kepler;
pub mod orbit;
pub mod planets;
mod text;
