//! A verified Keccak sponge engine.
//!
//! The crate implements the Keccak-f[1600] permutation and the sponge
//! construction (absorb, multi-rate padding, squeeze) that underlie the
//! Keccak, SHA-3 and SHAKE hash families.  Every executable function is
//! specified against the mathematical model in [`model`] and proved by Verus.

pub mod model;
pub mod permutation;
pub mod sponge;
pub mod keccak;
pub mod laws;
