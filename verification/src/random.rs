use vstd::prelude::*;

verus! {

/// Seed a world falls back to when none is supplied: the 64-bit golden
/// ratio constant, chosen only for being a well-mixed nonzero pattern.
pub const DEFAULT_RNG_SEED: u64 = 0x9e37_79b9_7f4a_7c15;

/// Supplies integers drawn from a half-open range. It stands in for a
/// host-provided real-valued generator: a xorshift generator over 64 bits
/// of state, owned by the world that draws from it. Nothing is promised
/// of which value comes out, only that it lies in the requested range.
pub struct RandomSource {
    pub state: u64,
}

impl RandomSource {
    /// Creates a generator whose draws are determined by `seed`.
    pub fn new(seed: u64) -> (source: RandomSource)
        ensures
            source.state == seed,
    {
        RandomSource { state: seed }
    }

    /// Draws an integer from `[min, max)` and advances the generator.
    /// The caller must never ask for an empty range.
    pub fn next_in_range(&mut self, min: usize, max: usize) -> (r: usize)
        requires
            min < max,
        ensures
            min <= r < max,
    {
        let mut x: u64 = self.state;
        x = x ^ (x << 13);
        x = x ^ (x >> 7);
        x = x ^ (x << 17);
        self.state = x;
        let span: usize = max - min;
        let offset_wide: u64 = (x >> 32) % (span as u64);
        min + (offset_wide as usize)
    }
}

/// Draws an integer from `[min, max)` out of `source`.
pub fn random_range(source: &mut RandomSource, min: usize, max: usize) -> (r: usize)
    requires
        min < max,
    ensures
        min <= r < max,
{
    source.next_in_range(min, max)
}

} // verus!
