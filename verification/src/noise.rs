//! Hashing and the pseudo-random choices built on it.

pub mod convert;
pub mod hash;
pub mod rand;
