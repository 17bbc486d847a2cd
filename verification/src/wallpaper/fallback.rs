//! The deterministic pseudo-random sequence of the fallback renderer: a
//! 64-bit linear congruential generator whose output is the high 31 bits.

use vstd::prelude::*;

verus! {

/// The generator's multiplier.
pub const LCG_MULTIPLIER: u64 = 6_364_136_223_846_793_005;

/// The generator's increment.
pub const LCG_INCREMENT: u64 = 1_442_695_040_888_963_407;

/// The next seed: `seed * A + B`, wrapping at 64 bits.
pub open spec fn next_seed(seed: u64) -> u64 {
    ((seed as int * LCG_MULTIPLIER as int + LCG_INCREMENT as int) % 0x1_0000_0000_0000_0000) as u64
}

/// Advances the seed and returns its top 31 bits.
pub fn lcg_next(seed: &mut u64) -> (res: u64)
    ensures
        *final(seed) == next_seed(*old(seed)),
        res == *final(seed) >> 33u64,
{
    let s0 = *seed;
    let m = s0.wrapping_mul(LCG_MULTIPLIER);
    let next = m.wrapping_add(LCG_INCREMENT);
    proof {
        let x = s0 as int * LCG_MULTIPLIER as int;
        let r = 0x1_0000_0000_0000_0000int;
        vstd::arithmetic::div_mod::lemma_add_mod_noop(x, LCG_INCREMENT as int, r);
        assert(m as int == x % r);
        assert((LCG_INCREMENT as int) % r == LCG_INCREMENT as int);
        assert(next as int == (m as int + LCG_INCREMENT as int) % r);
    }
    *seed = next;
    next >> 33
}

/// The renderer's name for one draw of the generator.
pub fn seed_shapeless(seed: &mut u64) -> (res: u64)
    ensures
        *final(seed) == next_seed(*old(seed)),
        res == *final(seed) >> 33u64,
{
    lcg_next(seed)
}

} // verus!
