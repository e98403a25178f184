//! A reproducible xoshiro256+ generator and the record of a naive binary
//! measure.
//!
//! [`generator`] builds the generator from a 64-bit seed and states in what
//! sense the seed alone fixes it. [`measure`] holds the record of a measure's
//! three rates.

pub mod generator;
pub mod measure;
