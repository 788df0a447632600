//! A seedable deterministic pseudorandom generator.
//!
//! Randomness is a pure, explicit dependency of the organism: every
//! stochastic operation draws from an [`Rng64`] owned by the caller, so two
//! runs from identical seeds make identical draws. The generator is a plain
//! 64-bit linear congruential step, fully specified by [`rng_next`].

use vstd::prelude::*;
use crate::fixed::{Fix, fcl};

verus! {

/// Multiplier of the linear congruential step.
pub const RNG_MUL: u64 = 6364136223846793005;

/// Increment of the linear congruential step.
pub const RNG_INC: u64 = 1442695040888963407;

/// One generator step: `s * RNG_MUL + RNG_INC` modulo `2^64`.
pub open spec fn rng_next(s: u64) -> u64 {
    ((((s as nat) * (RNG_MUL as nat)) % 0x10000000000000000nat + (RNG_INC as nat))
        % 0x10000000000000000nat) as u64
}

/// A fixed-point value drawn uniformly from `[lo, hi)` out of state `s`.
pub open spec fn rng_range(s: u64, lo: int, hi: int) -> int {
    lo + (rng_next(s) as int) % (hi - lo)
}

/// Deterministic seedable pseudorandom generator.
#[derive(Clone, Copy, PartialEq, Eq, Structural, Debug)]
pub struct Rng64 {
    s: u64,
}

impl View for Rng64 {
    type V = u64;

    closed spec fn view(&self) -> u64 {
        self.s
    }
}

impl Rng64 {
    /// Start a generator from an explicit seed.
    pub fn seeded(seed: u64) -> (r: Rng64)
        ensures
            r@ == seed,
    {
        Rng64 { s: seed }
    }

    /// Advance the state once and return it.
    pub fn next_u64(&mut self) -> (r: u64)
        ensures
            final(self)@ == rng_next(old(self)@),
            r == rng_next(old(self)@),
    {
        let m: u64 = self.s.wrapping_mul(RNG_MUL);
        let n: u64 = m.wrapping_add(RNG_INC);
        self.s = n;
        n
    }

    /// Draw a fixed-point value uniformly from `[lo, hi)`.
    pub fn next_fix(&mut self, lo: Fix, hi: Fix) -> (r: Fix)
        requires
            lo@ < hi@,
        ensures
            final(self)@ == rng_next(old(self)@),
            r@ == rng_range(old(self)@, lo@, hi@),
            lo@ <= r@ < hi@,
    {
        let d = self.next_u64();
        let l: i64 = lo.micros();
        let h: i64 = hi.micros();
        let span: u64 = (h - l) as u64;
        let off: u64 = d % span;
        let m: i64 = l + (off as i64);
        proof {
            assert(off as int == (d as int) % (h as int - l as int));
            assert(fcl(m as int) == m as int);
        }
        Fix::from_micros(m)
    }
}

} // verus!
