use vstd::prelude::*;

verus! {

/// One step of the seed generator: three xor-shifts, all to the left
/// (by 13, 17 and 5 bits).
pub open spec fn spec_next_seed(seed: u32) -> u32 {
    let a = seed ^ (seed << 13u32);
    let b = a ^ (a << 17u32);
    b ^ (b << 5u32)
}

/// Next pseudo-random seed, used to pick a victim for work stealing.
pub fn next_seed(seed: u32) -> (r: u32)
    ensures
        r == spec_next_seed(seed),
{
    let seed = seed ^ (seed << 13u32);
    let seed = seed ^ (seed << 17u32);
    let seed = seed ^ (seed << 5u32);
    seed
}

/// The seed 0 is a fixed point of the generator.
pub proof fn lemma_next_seed_zero()
    ensures
        spec_next_seed(0) == 0,
{
    assert(spec_next_seed(0) == 0) by (bit_vector);
}

/// A non-zero seed never reaches 0: each step `x ^ (x << k)` keeps the
/// lowest set bit of `x`, so the generator cannot get stuck at 0.
pub proof fn lemma_next_seed_nonzero(seed: u32)
    requires
        seed != 0,
    ensures
        spec_next_seed(seed) != 0,
{
    assert(seed != 0 ==> (seed ^ (seed << 13u32)) != 0) by (bit_vector);
    let a = seed ^ (seed << 13u32);
    assert(a != 0 ==> (a ^ (a << 17u32)) != 0) by (bit_vector);
    let b = a ^ (a << 17u32);
    assert(b != 0 ==> (b ^ (b << 5u32)) != 0) by (bit_vector);
}

} // verus!
