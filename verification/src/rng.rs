//! Deterministic pseudo-random roll generator for the simulation.
//!
//! Every random decision of the game (spawn gating, drop sampling, timer
//! jitter) draws from a [`GameRng`], a linear congruential generator whose
//! whole behaviour is captured by the spec functions below. Seeding from
//! machine entropy goes through the one trusted call into `rand`.

use vstd::prelude::*;

verus! {

/// Multiplier of the linear congruential step (Knuth's MMIX constant).
pub const RNG_MUL: u64 = 6364136223846793005;

/// Increment of the linear congruential step (Knuth's MMIX constant).
pub const RNG_INC: u64 = 1442695040888963407;

/// The generator state after one step: `state * RNG_MUL + RNG_INC mod 2^64`.
pub open spec fn rng_step(s: u64) -> u64 {
    s.wrapping_mul(RNG_MUL).wrapping_add(RNG_INC)
}

/// The 32-bit output drawn from a freshly stepped state: its high half.
pub open spec fn rng_output(s: u64) -> u32 {
    (rng_step(s) >> 32) as u32
}

/// The roll produced by `roll_below(n)` on state `s`.
pub open spec fn roll_below_output(s: u64, n: u32) -> u32
    recommends
        n > 0,
{
    (rng_output(s) as int % n as int) as u32
}

/// Deterministic roll generator: the same seed always produces the same
/// sequence of rolls.
pub struct GameRng {
    state: u64,
}

impl GameRng {
    /// The current generator state, for use in contracts.
    pub closed spec fn view(&self) -> u64 {
        self.state
    }

    /// Starts the sequence determined by `seed`.
    pub fn new(seed: u64) -> (r: GameRng)
        ensures
            r@ == seed,
    {
        GameRng { state: seed }
    }

    /// Starts a sequence from machine entropy.
    pub fn from_entropy() -> GameRng {
        GameRng { state: entropy_seed() }
    }

    /// Advances the generator once and returns its 32-bit output.
    pub fn next_u32(&mut self) -> (r: u32)
        ensures
            final(self)@ == rng_step(old(self)@),
            r == rng_output(old(self)@),
    {
        self.state = self.state.wrapping_mul(RNG_MUL).wrapping_add(RNG_INC);
        (self.state >> 32) as u32
    }

    /// A roll uniform-ish in `0 .. n`, advancing the generator once.
    pub fn roll_below(&mut self, n: u32) -> (r: u32)
        requires
            n > 0,
        ensures
            final(self)@ == rng_step(old(self)@),
            r == roll_below_output(old(self)@, n),
            r < n,
    {
        let out = self.next_u32();
        out % n
    }

    /// A roll in `0 .. 1000`, for gating events whose probability is given
    /// in thousandths: the event with probability `p` fires when the roll
    /// is below `p`.
    pub fn roll_permille(&mut self) -> (r: u32)
        ensures
            final(self)@ == rng_step(old(self)@),
            r == roll_below_output(old(self)@, 1000),
            r < 1000,
    {
        self.roll_below(1000)
    }
}

/// Relies on `rand::random::<u64>()`: a fresh value from the thread-local
/// generator. Nothing is promised of it; callers treat it as an arbitrary
/// seed.
#[verifier::external_body]
fn entropy_seed() -> u64 {
    rand::random::<u64>()
}

} // verus!
