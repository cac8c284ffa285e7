//! Deterministic pseudo-random number service.
//!
//! A pseudo-random stream seeded from a single 64-bit value. Every value
//! drawn from the stream is a pure function of the seed, so the same seed
//! always reproduces the same sequence; derived sub-seeds are computed by
//! deterministic arithmetic on the base seed. This is what makes world
//! generation byte-for-byte reproducible.

use vstd::prelude::*;

verus! {

/// Multiplier of the linear congruential step.
pub const RNG_MUL: u64 = 6364136223846793005;

/// Increment of the linear congruential step.
pub const RNG_INC: u64 = 1442695040888963407;

/// One step of the underlying linear congruential generator.
#[verifier::opaque]
pub open spec fn rng_step(s: u64) -> u64 {
    vstd::wrapping::u64_specs::wrapping_add(
        vstd::wrapping::u64_specs::wrapping_mul(s, RNG_MUL),
        RNG_INC,
    )
}

/// The value a state yields: its upper 32 bits, which are the best-mixed
/// bits of a linear congruential state.
pub open spec fn rng_out(s: u64) -> u64 {
    s >> 32
}

/// The draw taken from state `s`: the new state and the value it yields.
pub open spec fn rng_draw(s: u64) -> (u64, u64) {
    (rng_step(s), rng_out(rng_step(s)))
}

/// A draw reduced to `0 .. n`.
pub open spec fn rng_range_of(s: u64, n: int) -> int {
    rng_out(rng_step(s)) as int % n
}

/// A deterministic pseudo-random stream. The whole state is one 64-bit
/// word, so the stream is an explicit, injectable value: no ambient
/// randomness takes part in world generation.
pub struct SeededRng {
    pub state: u64,
}

impl SeededRng {
    /// Start a stream from a seed.
    pub fn new(seed: u64) -> (r: SeededRng)
        ensures
            r.state == seed,
    {
        SeededRng { state: seed }
    }

    /// Draw the next raw value from the stream.
    pub fn next_u64(&mut self) -> (r: u64)
        ensures
            final(self).state == rng_step(old(self).state),
            r == rng_out(final(self).state),
            r < 0x1_0000_0000u64,
    {
        proof {
            reveal(rng_step);
        }
        self.state = self.state.wrapping_mul(RNG_MUL).wrapping_add(RNG_INC);
        let s = self.state;
        let out = s >> 32;
        proof {
            assert(s >> 32 < 0x1_0000_0000u64) by (bit_vector);
        }
        out
    }

    /// Draw a value in `0 .. n`.
    pub fn gen_range(&mut self, n: usize) -> (r: usize)
        requires
            n > 0,
        ensures
            final(self).state == rng_step(old(self).state),
            r == rng_range_of(old(self).state, n as int),
            r < n,
    {
        let v = self.next_u64();
        (v % (n as u64)) as usize
    }

    /// Draw a 50/50 coin flip.
    pub fn coin(&mut self) -> (r: bool)
        ensures
            final(self).state == rng_step(old(self).state),
            r == (rng_out(final(self).state) % 2 == 1),
    {
        let v = self.next_u64();
        v % 2 == 1
    }
}

} // verus!
