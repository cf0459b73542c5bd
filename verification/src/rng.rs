//! Deterministic pseudo-random numbers derived from a tick counter.

use vstd::prelude::*;

verus! {

/// One round of the xorshift generator with shifts 13, 7 and 17.
pub open spec fn xorshift64_spec(seed: u64) -> u64 {
    let a = seed ^ (seed << 13);
    let b = a ^ (a >> 7);
    b ^ (b << 17)
}

/// The index drawn for `tick` among `modulus` choices.
pub open spec fn random_index_spec(tick: u64, modulus: u8) -> u8
    recommends
        modulus > 0,
{
    (xorshift64_spec(tick) % (modulus as u64)) as u8
}

/// The generator has no state: equal seeds give equal results, and so do
/// equal ticks with equal moduli.
pub proof fn lemma_xorshift64_deterministic(s1: u64, s2: u64, modulus: u8)
    requires
        s1 == s2,
    ensures
        xorshift64_spec(s1) == xorshift64_spec(s2),
        random_index_spec(s1, modulus) == random_index_spec(s2, modulus),
{
}

/// An index drawn among `modulus` choices is below `modulus`.
pub proof fn lemma_random_index_in_range(tick: u64, modulus: u8)
    requires
        modulus > 0,
    ensures
        random_index_spec(tick, modulus) < modulus,
        random_index_spec(tick, modulus) as int == xorshift64_spec(tick) as int % modulus as int,
{
}

/// Scrambles `seed`. The result depends on `seed` alone.
pub fn xorshift64(seed: u64) -> (out: u64)
    ensures
        out == xorshift64_spec(seed),
{
    let mut x: u64 = seed;
    x ^= x << 13;
    x ^= x >> 7;
    x ^= x << 17;
    x
}

/// Draws an index below `modulus` from `tick`.
pub fn random_index(tick: u64, modulus: u8) -> (index: u8)
    requires
        modulus > 0,
    ensures
        index == random_index_spec(tick, modulus),
        index as int == xorshift64_spec(tick) as int % modulus as int,
        index < modulus,
{
    let scrambled: u64 = xorshift64(tick);
    let reduced: u64 = scrambled % (modulus as u64);
    reduced as u8
}

} // verus!
