//! Deterministic pseudo-random source (SplitMix64) and the seed and size
//! settings for reproducible fuzz runs of the tier logic.
use vstd::prelude::*;
use vstd::wrapping::u64_specs;

verus! {

/// Default seed of fuzz runs.
pub const DEFAULT_SEED: u64 = 0x00C0DECE;
/// Default number of fuzz iterations.
pub const DEFAULT_ITERS: usize = 200;
/// Default number of actions per fuzz iteration.
pub const DEFAULT_ACTIONS: usize = 6;

/// SplitMix64 increment.
pub const GAMMA: u64 = 0x9E37_79B9_7F4A_7C15;
/// First SplitMix64 multiplier.
pub const MIX1: u64 = 0xBF58_476D_1CE4_E5B9;
/// Second SplitMix64 multiplier.
pub const MIX2: u64 = 0x94D0_49BB_1331_11EB;

/// The SplitMix64 output function applied to a state.
pub open spec fn splitmix_mix(state: u64) -> u64 {
    let z1 = u64_specs::wrapping_mul(state ^ (state >> 30u64), MIX1);
    let z2 = u64_specs::wrapping_mul(z1 ^ (z1 >> 27u64), MIX2);
    z2 ^ (z2 >> 31u64)
}

/// The state after one step from `state`.
pub open spec fn splitmix_advance(state: u64) -> u64 {
    u64_specs::wrapping_add(state, GAMMA)
}

/// The value drawn in `[lo, hi)` from the output `x` (or `lo` when the range
/// is empty).
pub open spec fn range_from(x: u64, lo: i128, hi: i128) -> int {
    if hi <= lo {
        lo as int
    } else {
        lo + (x as int) % (hi - lo)
    }
}

/// A SplitMix64 generator.
#[derive(Clone, Copy)]
pub struct Rng(pub u64);

impl Rng {
    /// A generator seeded with `seed`.
    pub fn new(seed: u64) -> (rng: Rng)
        ensures
            rng.0 == seed,
    {
        Rng(seed)
    }

    /// The next 64-bit output.
    pub fn next(&mut self) -> (v: u64)
        ensures
            final(self).0 == splitmix_advance(old(self).0),
            v == splitmix_mix(final(self).0),
    {
        self.0 = self.0.wrapping_add(GAMMA);
        let mut z = self.0;
        z = (z ^ (z >> 30)).wrapping_mul(MIX1);
        z = (z ^ (z >> 27)).wrapping_mul(MIX2);
        z ^ (z >> 31)
    }

    /// A value in `[lo, hi)`, or `lo` when `hi <= lo`.
    pub fn range(&mut self, lo: i128, hi: i128) -> (v: i128)
        requires
            lo < hi ==> hi - lo <= i128::MAX,
        ensures
            hi <= lo ==> v == lo && final(self).0 == old(self).0,
            lo < hi ==> final(self).0 == splitmix_advance(old(self).0) && v == range_from(
                splitmix_mix(final(self).0),
                lo,
                hi,
            ),
            lo < hi ==> lo <= v < hi,
    {
        if hi <= lo {
            return lo;
        }
        let x = self.next();
        let span = (hi - lo) as u128;
        let offset = (x as u128) % span;
        assert(offset < span);
        lo + (offset as i128)
    }

    /// A fair coin: the low bit of the next output.
    pub fn bool(&mut self) -> (b: bool)
        ensures
            final(self).0 == splitmix_advance(old(self).0),
            b == (splitmix_mix(final(self).0) & 1 == 1),
    {
        self.next() & 1 == 1
    }
}

/// The fuzz seed: the configured value when one is given, else the default.
pub fn fuzz_seed(configured: Option<u64>) -> (seed: u64)
    ensures
        seed == (match configured {
            Some(s) => s,
            None => DEFAULT_SEED,
        }),
{
    match configured {
        Some(s) => s,
        None => DEFAULT_SEED,
    }
}

/// The number of fuzz iterations: the configured value when one is given,
/// else the default.
pub fn fuzz_iters(configured: Option<usize>) -> (iters: usize)
    ensures
        iters == (match configured {
            Some(n) => n,
            None => DEFAULT_ITERS,
        }),
{
    match configured {
        Some(n) => n,
        None => DEFAULT_ITERS,
    }
}

/// The number of actions per fuzz iteration: the configured value when one is
/// given, else the default.
pub fn fuzz_actions_per_iter(configured: Option<usize>) -> (actions: usize)
    ensures
        actions == (match configured {
            Some(n) => n,
            None => DEFAULT_ACTIONS,
        }),
{
    match configured {
        Some(n) => n,
        None => DEFAULT_ACTIONS,
    }
}

/// Reproducibility: two generators with the same state produce the same
/// next value and the same next state, so a seed fixes the whole run.
pub proof fn law_rng_deterministic(a: Rng, b: Rng)
    requires
        a.0 == b.0,
    ensures
        splitmix_advance(a.0) == splitmix_advance(b.0),
        splitmix_mix(splitmix_advance(a.0)) == splitmix_mix(splitmix_advance(b.0)),
{
}

/// A draw from a non-empty range lies in it.
pub proof fn law_range_in_bounds(x: u64, lo: i128, hi: i128)
    requires
        lo < hi,
    ensures
        lo <= range_from(x, lo, hi) < hi,
{
}

} // verus!
