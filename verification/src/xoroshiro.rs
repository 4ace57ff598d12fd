//! The xoroshiro128+ generator of the `xorshift` crate, as far as the scene
//! needs it. The generator is opaque; its contracts speak of the two words of
//! its state.

use vstd::prelude::*;
use xorshift::{Rng, RngJump, SeedableRng, Xoroshiro128};

verus! {

#[verifier::external_type_specification]
#[verifier::external_body]
pub struct ExXoroshiro128(Xoroshiro128);

/// The two words of the state of a generator.
pub uninterp spec fn rng_state(rng: Xoroshiro128) -> (u64, u64);

/// The state that `Xoroshiro128::jump` reaches from the state `(s0, s1)` in
/// `count` jumps.
pub uninterp spec fn jumped(s0: u64, s1: u64, count: usize) -> (u64, u64);

/// `x` rotated left by `k` bits, for `0 < k < 64`.
pub open spec fn rotl(x: u64, k: u64) -> u64 {
    (x << k) | (x >> ((64 - k) as u64))
}

/// The number that a generator in state `state` puts out next: the sum of the
/// two words, modulo 2^64.
pub open spec fn output(state: (u64, u64)) -> u64 {
    ((state.0 + state.1) % 0x1_0000_0000_0000_0000) as u64
}

/// The state that follows `state` when a number is drawn.
pub open spec fn stepped(state: (u64, u64)) -> (u64, u64) {
    let x = state.1 ^ state.0;
    (rotl(state.0, 55) ^ x ^ (x << 14), rotl(x, 36))
}

/// `SeedableRng::from_seed` of `Xoroshiro128` on a seed of two words: the
/// words become the state.
#[verifier::external_body]
pub(crate) fn from_seed(s0: u64, s1: u64) -> (rng: Xoroshiro128)
    ensures
        rng_state(rng) == (s0, s1),
{
    let seed = [s0, s1];
    SeedableRng::from_seed(&seed[..])
}

/// `SeedableRng::reseed` of `Xoroshiro128` on a seed of two words: the words
/// replace the state.
#[verifier::external_body]
pub(crate) fn reseed(rng: &mut Xoroshiro128, s0: u64, s1: u64)
    ensures
        rng_state(*final(rng)) == (s0, s1),
{
    let seed = [s0, s1];
    rng.reseed(&seed[..]);
}

/// `Rng::next_u64` of `Xoroshiro128`: puts out the wrapping sum of the two
/// words and steps the state by the xoroshiro128+ recurrence.
#[verifier::external_body]
pub(crate) fn next_u64(rng: &mut Xoroshiro128) -> (out: u64)
    ensures
        out == output(rng_state(*old(rng))),
        rng_state(*final(rng)) == stepped(rng_state(*old(rng))),
{
    rng.next_u64()
}

/// `RngJump::jump` of `Xoroshiro128`: the state after `count` jumps is a
/// function of the state before and of `count`.
#[verifier::external_body]
pub(crate) fn jump(rng: &mut Xoroshiro128, count: usize)
    ensures
        rng_state(*final(rng)) == jumped(rng_state(*old(rng)).0, rng_state(*old(rng)).1, count),
{
    rng.jump(count);
}

} // verus!
