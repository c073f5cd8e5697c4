//! The planets.
pub mod earth;
pub mod mars;
