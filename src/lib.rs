//! MT19937-64: the 64-bit Mersenne Twister pseudo-random number generator,
//! with its state initialisation, twist and tempering proved against a
//! mathematical model of the reference algorithm.
pub mod model;
pub mod generator;
pub mod laws;

pub use generator::{MersenneTwister64, SeedError};
