//! Deterministic pseudo-random sample stream.
//!
//! Rendering draws jitter offsets and scatter directions from this stream.
//! The generator is a splitmix-style counter mix: each draw advances the
//! state by a fixed odd constant and hashes it. Determinism is the point:
//! a pixel's colour is a pure function of the seed handed to its stream,
//! which is what makes chunked rendering provably equal to sequential
//! rendering.

use crate::fx::{Fx, SCALE};
use vstd::prelude::*;

verus! {

/// State after one draw.
pub open spec fn rng_step(s: u64) -> u64 {
    vstd::wrapping::u64_specs::wrapping_add(s, 0x9E37_79B9_7F4A_7C15)
}

/// State after two draws.
pub open spec fn rng_step2(s: u64) -> u64 {
    rng_step(rng_step(s))
}

/// The output hash applied to an advanced state.
pub open spec fn rng_mix(z: u64) -> u64 {
    let z1 = vstd::wrapping::u64_specs::wrapping_mul(z ^ (z >> 30), 0xBF58_476D_1CE4_E5B9);
    let z2 = vstd::wrapping::u64_specs::wrapping_mul(z1 ^ (z1 >> 27), 0x94D0_49BB_1331_11EB);
    z2 ^ (z2 >> 31)
}

/// The word produced by one draw from state `s`.
pub open spec fn rng_out(s: u64) -> u64 {
    rng_mix(rng_step(s))
}

/// The raw units of the unit-interval sample built from the word `u`:
/// its top half, a value in `[0, SCALE)`.
pub open spec fn unit_from(u: u64) -> int {
    (u / 0x1_0000_0000) as int
}

/// The output hash by itself, used to spread seeds.
pub fn mix64(z: u64) -> (r: u64)
    ensures
        r == rng_mix(z),
{
    let z1: u64 = (z ^ (z >> 30)).wrapping_mul(0xBF58_476D_1CE4_E5B9);
    let z2: u64 = (z1 ^ (z1 >> 27)).wrapping_mul(0x94D0_49BB_1331_11EB);
    z2 ^ (z2 >> 31)
}

/// A seeded pseudo-random number generator.
#[derive(Clone, Copy, Debug, PartialEq, Eq, Structural)]
pub struct Rng {
    state: u64,
}

impl Rng {
    /// The current state, the value the draw specifications evolve.
    pub closed spec fn s(self) -> u64 {
        self.state
    }

    pub fn new(seed: u64) -> (r: Rng)
        ensures
            r.s() == seed,
    {
        Rng { state: seed }
    }

    /// One raw draw.
    pub fn next_u64(&mut self) -> (r: u64)
        ensures
            final(self).s() == rng_step(old(self).s()),
            r == rng_out(old(self).s()),
    {
        self.state = self.state.wrapping_add(0x9E37_79B9_7F4A_7C15);
        let z: u64 = self.state;
        let z1: u64 = (z ^ (z >> 30)).wrapping_mul(0xBF58_476D_1CE4_E5B9);
        let z2: u64 = (z1 ^ (z1 >> 27)).wrapping_mul(0x94D0_49BB_1331_11EB);
        z2 ^ (z2 >> 31)
    }

    /// A sample in `[0, 1)`.
    pub fn next_unit(&mut self) -> (r: Fx)
        ensures
            final(self).s() == rng_step(old(self).s()),
            r.v() == unit_from(rng_out(old(self).s())),
            0 <= r.v() < SCALE as int,
    {
        let out: u64 = self.next_u64();
        let hi: u64 = out / 0x1_0000_0000;
        assert(hi < 0x1_0000_0000);
        Fx::from_raw(hi as i64)
    }
}

} // verus!
