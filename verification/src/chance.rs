//! The one source of real randomness: battle chance rolls.
//!
//! World generation uses the deterministic seeded stream instead; only the
//! battle engine's deflection and flee checks draw from the operating
//! system's randomness, and every caller is verified for every value the
//! roll can take.

use vstd::prelude::*;

verus! {

/// Relies on rand's `random`, the thread-local generator draw. Nothing can
/// be promised of a random value, so this carries no `ensures`.
pub assume_specification<T>[ rand::random::<T> ]() -> (r: T)
    where
        rand::distr::StandardUniform: rand::distr::Distribution<T>,
;

/// A uniform-ish chance roll in `0 .. 100`, from the thread-local random
/// number generator.
pub fn roll_percent() -> (r: u32)
    ensures
        r < 100,
{
    let v: u64 = rand::random::<u64>();
    (v % 100) as u32
}

} // verus!
