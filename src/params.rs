use vstd::prelude::*;

verus! {

// The field is the integers modulo PRIME_ORDER = 2^N_BITS - 2^OFFSET_BIT - 1.
//
// The parameters must satisfy: N_BITS even, 34 <= N_BITS <= 62,
// 0 < OFFSET_BIT < N_BITS / 2, OFFSET_BIT != 2, and PRIME_ORDER prime.
// The derived constants below are written out for N_BITS = 42 and
// OFFSET_BIT = 30; `lemma_params` checks them against their definitions.
//
// These values do not meet all of the constraints: OFFSET_BIT is above
// N_BITS / 2, and 2^42 - 2^30 - 1 = 229 * 19200754451 is not prime. The
// reductions and the ring operations are correct for any such modulus;
// `recip` computes x^(PRIME_ORDER - 2), which is the inverse only when
// PRIME_ORDER is prime (see `laws::lemma_mul_recip`).

/// Number of bits of a field element.
pub const N_BITS: u64 = 42;

/// The bit, other than bit 0, that is cleared in the prime.
pub const OFFSET_BIT: u64 = 30;

/// 2^N_BITS - 2^OFFSET_BIT - 1.
pub const PRIME_ORDER: u64 = 4396972769279;

/// 2^N_BITS - 1.
pub const FULL_BITS_MASK: u64 = 4398046511103;

/// 2^(64 - N_BITS) - 1: the largest value of the bits above N_BITS.
pub const MAX_EXCESS: u64 = 4194303;

/// FULL_BITS_MASK + (MAX_EXCESS << OFFSET_BIT) + MAX_EXCESS: the largest
/// value that a once-reduced representation can hold.
pub const FE_VAL_MAX: u64 = 4507996604334078;

/// 2^N_BITS.
pub open spec fn word() -> int {
    0x400_0000_0000
}

/// 2^OFFSET_BIT + 1: what 2^N_BITS is congruent to modulo the prime.
pub open spec fn fold_factor() -> int {
    0x4000_0001
}

/// The modulus, as a mathematical integer.
pub open spec fn modulus() -> int {
    PRIME_ORDER as int
}

/// The derived constants agree with their definitions.
pub proof fn lemma_params()
    ensures
        word() == 1u64 << N_BITS,
        fold_factor() == (1u64 << OFFSET_BIT) + 1,
        modulus() == word() - fold_factor(),
        FULL_BITS_MASK == word() - 1,
        MAX_EXCESS == (1u64 << (64 - N_BITS)) - 1,
        FE_VAL_MAX == FULL_BITS_MASK + MAX_EXCESS * (fold_factor() - 1) + MAX_EXCESS,
        2 * FE_VAL_MAX < 0x1_0000_0000_0000_0000,
        2 * modulus() < 0x8000_0000_0000_0000,
{
    assert(1u64 << 42u64 == 0x400_0000_0000) by (bit_vector);
    assert(1u64 << 30u64 == 0x4000_0000) by (bit_vector);
    assert(1u64 << 22u64 == 0x40_0000) by (bit_vector);
}

} // verus!
