//! MT19937: a deterministic generator of 32-bit pseudo-random words.
//!
//! A [`Random`] is seeded from one 32-bit integer and then hands out an
//! unbounded, reproducible stream of `u32` values. The mathematical model of
//! the generator lives in [`model`], the executable generator in
//! [`generator`], and the properties that relate them in [`laws`].
//!
//! The generator is not suitable for security-sensitive randomness.

pub mod params;
pub mod model;
pub mod generator;
pub mod laws;

pub use generator::Random;
pub use params::{A, B, C, D, DEFAULT_SEED, F, L, LOWER_MASK, M, N, R, S, T, U, UPPER_MASK, W};
