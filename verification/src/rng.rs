//! A small seedable pseudorandom generator for parameter randomization.
//!
//! Randomizing a model's weights must be reproducible: the same seed has to
//! yield the same draws, so that tests and experiments can be replayed. The
//! generator here is a 64-bit xorshift: its whole behaviour is a function of
//! the seed, stated below, so determinism is part of its contract. Mapping a
//! draw into the bounded symmetric interval the weights are filled from is
//! floating-point work and stays with the caller.

use vstd::prelude::*;

verus! {

/// The state a zero seed is replaced with: xorshift fixes the all-zero
/// state, so it must never be entered.
pub const ZERO_SEED_STATE: u64 = 0x9E3779B97F4A7C15;

/// The successor of a generator state: three xor-shift steps.
pub open spec fn next_state(s: u64) -> u64 {
    let a = s ^ (s << 13);
    let b = a ^ (a >> 7);
    b ^ (b << 17)
}

/// The state a generator starts from for a given seed.
pub open spec fn seed_state(seed: u64) -> u64 {
    if seed == 0 {
        ZERO_SEED_STATE
    } else {
        seed
    }
}

/// The generator's state after `n` draws from a fresh generator with the
/// given seed; the `n`th draw returns exactly this value.
pub open spec fn stream(seed: u64, n: nat) -> u64
    decreases n,
{
    if n == 0 {
        seed_state(seed)
    } else {
        next_state(stream(seed, (n - 1) as nat))
    }
}

/// A deterministic 64-bit xorshift generator.
pub struct Rng {
    state: u64,
}

impl Rng {
    /// The generator's current state.
    pub closed spec fn spec_state(&self) -> u64 {
        self.state
    }

    /// Starts a generator from a seed. A zero seed is replaced by a fixed
    /// nonzero state, since the all-zero state would repeat forever.
    pub fn new(seed: u64) -> (r: Rng)
        ensures
            r.spec_state() == seed_state(seed),
    {
        if seed == 0 {
            Rng { state: ZERO_SEED_STATE }
        } else {
            Rng { state: seed }
        }
    }

    /// Draws the next value: the state advances by one xorshift step and the
    /// new state is returned.
    pub fn next_u64(&mut self) -> (r: u64)
        ensures
            final(self).spec_state() == next_state(old(self).spec_state()),
            r == next_state(old(self).spec_state()),
    {
        let mut x = self.state;
        x = x ^ (x << 13);
        x = x ^ (x >> 7);
        x = x ^ (x << 17);
        self.state = x;
        x
    }
}

/// Determinism of randomization: the whole sequence of draws is a function
/// of the seed alone — two generators started from equal seeds agree on
/// every draw.
pub proof fn lemma_stream_deterministic(seed_a: u64, seed_b: u64, n: nat)
    requires
        seed_a == seed_b,
    ensures
        stream(seed_a, n) == stream(seed_b, n),
    decreases n,
{
    if n > 0 {
        lemma_stream_deterministic(seed_a, seed_b, (n - 1) as nat);
    }
}

/// Distinct starting states stay distinct: one xorshift step is invertible,
/// so two generators whose states differ still differ after any number of
/// draws. With `lemma_stream_deterministic` this makes the draws a faithful
/// image of the starting state.
pub proof fn lemma_streams_distinct(seed_a: u64, seed_b: u64, n: nat)
    requires
        seed_state(seed_a) != seed_state(seed_b),
    ensures
        stream(seed_a, n) != stream(seed_b, n),
    decreases n,
{
    if n > 0 {
        lemma_streams_distinct(seed_a, seed_b, (n - 1) as nat);
        let a = stream(seed_a, (n - 1) as nat);
        let b = stream(seed_b, (n - 1) as nat);
        let a1 = a ^ (a << 13);
        let b1 = b ^ (b << 13);
        let a2 = a1 ^ (a1 >> 7);
        let b2 = b1 ^ (b1 >> 7);
        assert(a != b ==> (a ^ (a << 13)) != (b ^ (b << 13))) by (bit_vector);
        assert(a1 != b1 ==> (a1 ^ (a1 >> 7)) != (b1 ^ (b1 >> 7))) by (bit_vector);
        assert(a2 != b2 ==> (a2 ^ (a2 << 17)) != (b2 ^ (b2 << 17))) by (bit_vector);
    }
}

/// A generator never reaches the all-zero state: the starting state is
/// nonzero, and one xorshift step keeps a nonzero state nonzero.
pub proof fn lemma_stream_nonzero(seed: u64, n: nat)
    ensures
        stream(seed, n) != 0,
    decreases n,
{
    if n > 0 {
        lemma_stream_nonzero(seed, (n - 1) as nat);
        let s = stream(seed, (n - 1) as nat);
        assert(s != 0 ==> ((s ^ (s << 13)) ^ ((s ^ (s << 13)) >> 7)) ^ (((s ^ (s << 13)) ^ ((s
            ^ (s << 13)) >> 7)) << 17) != 0) by (bit_vector);
    }
}

} // verus!
