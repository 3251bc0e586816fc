//! The seeded generator behind lattice hashing: a WyRand counter.

use vstd::prelude::*;

verus! {

/// Increment added to the state on every draw.
pub const RNG_INCREMENT: u64 = 0x2d35_8dcc_aa6c_78a5;

/// Mask mixed into the state before it is multiplied with itself.
pub const RNG_MIX: u64 = 0x8bb8_4b93_962e_acc9;

/// The state that follows `state`.
pub open spec fn next_state(state: u64) -> u64 {
    ((state as int + RNG_INCREMENT as int) % 0x1_0000_0000_0000_0000) as u64
}

/// The 128-bit product from which the value drawn in state `state` is folded.
pub open spec fn product(state: u64) -> u128 {
    (state as u128 * ((state ^ RNG_MIX) as u128)) as u128
}

/// The value drawn on entering state `state`: the low half of the product xor its
/// high half, truncated to 32 bits and read as a signed number.
pub open spec fn output(state: u64) -> i32 {
    (((product(state) as u64) ^ ((product(state) >> 64) as u64)) as i32)
}

/// The value that a generator with the given seed draws first. A generator that is
/// wound back to its seed draws this value again.
pub open spec fn first_draw(seed: u64) -> i32 {
    output(next_state(seed))
}

/// A deterministic pseudo-random source. It remembers the seed it was made with so that
/// it can be wound back to it.
#[derive(Debug, Clone, Copy)]
pub struct Rng {
    pub seed: u64,
    pub current_seed: u64,
}

impl Rng {
    /// A generator at the start of the sequence that belongs to `seed`.
    pub fn new(seed: u64) -> (r: Self)
        ensures
            r.seed == seed,
            r.current_seed == seed,
    {
        Self { seed, current_seed: seed }
    }

    /// Steps to the next state and returns the value that belongs to it.
    pub fn next(&mut self) -> (r: i32)
        ensures
            final(self).seed == old(self).seed,
            final(self).current_seed == next_state(old(self).current_seed),
            r == output(final(self).current_seed),
    {
        let seed: u64 = self.current_seed.wrapping_add(RNG_INCREMENT);
        self.current_seed = seed;
        let mixed: u64 = seed ^ RNG_MIX;
        assert((seed as u128) * (mixed as u128) <= u128::MAX) by (nonlinear_arith)
            requires
                seed <= u64::MAX,
                mixed <= u64::MAX,
        ;
        let t: u128 = (seed as u128) * (mixed as u128);
        ((t as u64) ^ ((t >> 64) as u64)) as i32
    }

    /// Winds the generator back to its seed.
    pub fn reset(&mut self)
        ensures
            final(self).seed == old(self).seed,
            final(self).current_seed == old(self).seed,
    {
        self.current_seed = self.seed;
    }
}

} // verus!
