//! Interfaces for accessing a random number generator.
//!
//! A random number generator produces a stream of random numbers, either
//! from hardware or based on an initial seed. These interfaces are
//! implementation agnostic: implementations may generate their numbers by
//! true random number generation, an entropy source, or a pseudorandom
//! generator, and make no entropy promise. They are not for randomness
//! needed for security or cryptography.

use vstd::prelude::*;

verus! {

/// Whether a client of an asynchronous generator wants to be notified
/// when more randomness is available, or is done.
#[derive(Copy, Clone, Debug, PartialEq, Eq, Structural)]
pub enum Continue {
    /// More randomness is required.
    More,
    /// No more randomness required.
    Done,
}

/// Generic interface for a synchronous 32-bit random number generator;
/// implementations live outside this crate.
pub trait Random {
    /// Initialize or reseed the generator from an internal source. The
    /// initialization may be deterministic (for example, based on a
    /// device identifier) or random (based on an underlying hardware
    /// entropy source); implementations should make reseeding random.
    fn initialize(&self);

    /// Reseed the generator with a specific seed, for deterministic
    /// tests.
    fn reseed(&self, seed: u32);

    /// Generate a 32-bit random number.
    fn random(&self) -> u32;
}

} // verus!
