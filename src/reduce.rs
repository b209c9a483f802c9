use vstd::prelude::*;
use vstd::arithmetic::div_mod::{lemma_fundamental_div_mod, lemma_mod_multiples_vanish, lemma_div_is_ordered, lemma_small_mod};
use crate::params::{N_BITS, OFFSET_BIT, PRIME_ORDER, FULL_BITS_MASK, FE_VAL_MAX, word, fold_factor, modulus};

verus! {

/// One bit-reduction step on a non-negative integer: the bits above N_BITS
/// are moved down, using 2^N_BITS == 2^OFFSET_BIT + 1 (mod PRIME_ORDER).
pub open spec fn folded(v: int) -> int {
    v % word() + (v / word()) * fold_factor()
}

/// A bit-reduction step keeps the residue.
pub proof fn lemma_folded_mod(v: int)
    requires
        v >= 0,
    ensures
        folded(v) % modulus() == v % modulus(),
        folded(v) >= 0,
{
    lemma_fundamental_div_mod(v, word());
    let hi = v / word();
    assert(v == folded(v) + hi * modulus()) by (nonlinear_arith)
        requires
            v == word() * hi + v % word(),
            folded(v) == v % word() + hi * fold_factor(),
            modulus() == word() - fold_factor(),
    ;
    lemma_mod_multiples_vanish(hi, folded(v), modulus());
}

/// The result of a bit-reduction step is bounded by what the bound of its
/// input gives.
pub proof fn lemma_folded_bound(v: int, bound: int)
    requires
        0 <= v <= bound,
    ensures
        0 <= folded(v) <= word() - 1 + (bound / word()) * fold_factor(),
{
    lemma_div_is_ordered(v, bound, word());
    assert((v / word()) * fold_factor() <= (bound / word()) * fold_factor()) by (nonlinear_arith)
        requires v / word() <= bound / word(), fold_factor() > 0;
}

/// Bit-reduces a 64-bit value once: any input gives a once-reduced value,
/// and a once-reduced input gives a value below twice the prime.
pub fn bit_reduce_once(v: u64) -> (r: u64)
    ensures
        r as int == folded(v as int),
        r <= FE_VAL_MAX,
        v <= FE_VAL_MAX ==> r < 2 * PRIME_ORDER,
{
    // excess is at most MAX_EXCESS
    let excess = v >> N_BITS;
    // lowpart is at most FULL_BITS_MASK
    let lowpart = v & FULL_BITS_MASK;
    proof {
        assert(v >> 42u64 == v / 0x400_0000_0000) by (bit_vector);
        assert(v & 0x3ff_ffff_ffffu64 == v % 0x400_0000_0000) by (bit_vector);
        assert(v >> 42u64 <= 0x3f_ffffu64) by (bit_vector);
        let e = excess;
        assert(e <= 0x3f_ffffu64 ==> e << 30u64 == e * 0x4000_0000) by (bit_vector);
        lemma_folded_bound(v as int, u64::MAX as int);
        if v <= FE_VAL_MAX {
            lemma_folded_bound(v as int, FE_VAL_MAX as int);
        }
    }
    lowpart + excess + (excess << OFFSET_BIT)
}

/// Bit-reduces a 128-bit value once.
pub fn bit_reduce_once_128(v: u128) -> (r: u128)
    requires
        v < 0x4000_0000_0000_0000_0000_0000_0000_0000,
    ensures
        r as int == folded(v as int),
{
    let low = v & (FULL_BITS_MASK as u128);
    let high = v >> N_BITS;
    proof {
        assert(v >> 42u128 == v / 0x400_0000_0000) by (bit_vector);
        assert(v & 0x3ff_ffff_ffffu128 == v % 0x400_0000_0000) by (bit_vector);
        assert(v < 0x4000_0000_0000_0000_0000_0000_0000_0000u128 ==> v >> 42u128 < 0x10_0000_0000_0000_0000_0000u128) by (bit_vector);
        let h = high;
        assert(h < 0x10_0000_0000_0000_0000_0000u128 ==> h << 30u128 == h * 0x4000_0000) by (bit_vector);
    }
    low + (high << OFFSET_BIT) + high
}

/// Subtracts the prime from a value below twice the prime when that keeps
/// it non-negative, without a branch on the value: the result is the
/// canonical residue.
pub fn reduce_by_p(v: u64) -> (r: u64)
    requires
        v < 2 * PRIME_ORDER,
    ensures
        r == (if v < PRIME_ORDER { v as int } else { v - PRIME_ORDER }),
        r as int == v as int % modulus(),
        r < PRIME_ORDER,
{
    let difference = v.wrapping_sub(PRIME_ORDER);
    let overflow_bit = difference & (1u64 << 63u64);
    let mask = #[verifier::truncate] (((#[verifier::truncate] (overflow_bit as i64)) >> 63u64) as u64);
    let r = (mask & v) | ((!mask) & difference);
    proof {
        let d = difference;
        if v < PRIME_ORDER {
            assert(d >= 0x8000_0000_0000_0000u64);
            assert(d >= 0x8000_0000_0000_0000u64 ==>
                (#[verifier::truncate] (((#[verifier::truncate] ((d & (1u64 << 63u64)) as i64)) >> 63u64) as u64)) == 0xffff_ffff_ffff_ffffu64) by (bit_vector);
            assert(mask == 0xffff_ffff_ffff_ffffu64 ==> (mask & v) | ((!mask) & d) == v) by (bit_vector);
            lemma_small_mod(v as nat, PRIME_ORDER as nat);
        } else {
            assert(d < 0x8000_0000_0000_0000u64);
            assert(d < 0x8000_0000_0000_0000u64 ==>
                (#[verifier::truncate] (((#[verifier::truncate] ((d & (1u64 << 63u64)) as i64)) >> 63u64) as u64)) == 0) by (bit_vector);
            assert(mask == 0 ==> (mask & v) | ((!mask) & d) == d) by (bit_vector);
            lemma_mod_multiples_vanish(1, v - PRIME_ORDER, modulus());
            lemma_small_mod((v - PRIME_ORDER) as nat, PRIME_ORDER as nat);
        }
    }
    r
}

} // verus!
