//! Fixed-point angles and branch-light trigonometry.
//!
//! An angle is stored as a 64-bit fraction of one full rotation, so modular
//! wraparound of the word is exactly angular periodicity. Sine is evaluated
//! from a precomputed quarter-turn table plus a first-order correction term,
//! with no floating-point transcendental calls. Floating-point values cross
//! the API boundary as raw IEEE-754 double bit patterns (`u64`), keeping the
//! whole pipeline deterministic and bit-exact.

pub mod angle;
pub mod consts;
pub mod repr;
pub mod sign;
pub mod table;
pub mod trig;

pub use angle::Angle;
