use vstd::prelude::*;
use vstd::arithmetic::div_mod::{lemma_fundamental_div_mod, lemma_fundamental_div_mod_converse, lemma_small_mod, lemma_add_mod_noop, lemma_mul_mod_noop_general, lemma_mod_multiples_vanish, lemma_mod_bound};
use vstd::arithmetic::mul::{lemma_mul_is_associative, lemma_mul_is_distributive_add, lemma_mul_is_commutative};
use vstd::arithmetic::power::{pow, lemma_pow_adds, lemma_pow1};
use crate::params::{PRIME_ORDER, modulus, word};
use crate::random::accepted;
use vstd::set_lib::{set_int_range, lemma_int_range, lemma_map_size};
use crate::element::{FE, fadd, fneg, fsub, fmul};
use crate::inverse::{finv, fdiv};

verus! {

/// Reducing a residue again leaves it unchanged.
proof fn lemma_residue(x: int)
    requires
        0 <= x < modulus(),
    ensures
        x % modulus() == x,
{
    lemma_small_mod(x as nat, PRIME_ORDER as nat);
}

/// Addition is commutative: `a + b == b + a`.
pub proof fn lemma_add_commutative(a: FE, b: FE)
    ensures
        fadd(a@, b@) == fadd(b@, a@),
{
}

/// Addition is associative: `(a + b) + c == a + (b + c)`.
pub proof fn lemma_add_associative(a: FE, b: FE, c: FE)
    ensures
        fadd(fadd(a@, b@), c@) == fadd(a@, fadd(b@, c@)),
{
    let p = modulus();
    a.lemma_view_range();
    b.lemma_view_range();
    c.lemma_view_range();
    lemma_residue(c@);
    lemma_residue(a@);
    lemma_add_mod_noop(a@ + b@, c@, p);
    lemma_add_mod_noop(a@, b@ + c@, p);
    assert(a@ + b@ + c@ == a@ + (b@ + c@));
}

/// Zero is the additive identity: `a + 0 == a`.
pub proof fn lemma_add_zero(a: FE)
    ensures
        fadd(a@, 0) == a@,
{
    a.lemma_view_range();
    lemma_residue(a@);
}

/// Negation gives the additive inverse: `a + (-a) == 0`.
pub proof fn lemma_add_negation(a: FE)
    ensures
        fadd(a@, fneg(a@)) == 0,
{
    let p = modulus();
    a.lemma_view_range();
    lemma_residue(a@);
    lemma_add_mod_noop(a@, p - a@, p);
    lemma_mod_multiples_vanish(1, 0, p);
}

/// Multiplication is commutative: `a * b == b * a`.
pub proof fn lemma_mul_commutative(a: FE, b: FE)
    ensures
        fmul(a@, b@) == fmul(b@, a@),
{
    lemma_mul_is_commutative(a@, b@);
}

/// Multiplication is associative: `(a * b) * c == a * (b * c)`.
pub proof fn lemma_mul_associative(a: FE, b: FE, c: FE)
    ensures
        fmul(fmul(a@, b@), c@) == fmul(a@, fmul(b@, c@)),
{
    let p = modulus();
    a.lemma_view_range();
    c.lemma_view_range();
    lemma_residue(c@);
    lemma_residue(a@);
    lemma_mul_mod_noop_general(a@ * b@, c@, p);
    lemma_mul_mod_noop_general(a@, b@ * c@, p);
    lemma_mul_is_associative(a@, b@, c@);
}

/// One is the multiplicative identity: `a * 1 == a`.
pub proof fn lemma_mul_one(a: FE)
    ensures
        fmul(a@, 1) == a@,
{
    a.lemma_view_range();
    lemma_residue(a@);
}

/// Multiplication distributes over addition: `a * (b + c) == a * b + a * c`.
pub proof fn lemma_mul_distributive(a: FE, b: FE, c: FE)
    ensures
        fmul(a@, fadd(b@, c@)) == fadd(fmul(a@, b@), fmul(a@, c@)),
{
    let p = modulus();
    a.lemma_view_range();
    lemma_residue(a@);
    lemma_mul_mod_noop_general(a@, b@ + c@, p);
    lemma_mul_is_distributive_add(a@, b@, c@);
    lemma_add_mod_noop(a@ * b@, a@ * c@, p);
}

/// Canonicalising a canonical value changes nothing: the element made from
/// `a.value()` has the value of `a`.
pub proof fn lemma_value_idempotent(a: FE)
    ensures
        (a@ as u64) as int % modulus() == a@,
{
    a.lemma_view_range();
    lemma_residue(a@);
}

/// A share and the secret minus that share add up to the secret.
pub proof fn lemma_shares_add_up(secret: FE, s0: FE)
    ensures
        fadd(s0@, fsub(secret@, s0@)) == secret@,
{
    let p = modulus();
    s0.lemma_view_range();
    secret.lemma_view_range();
    lemma_residue(s0@);
    lemma_residue(secret@);
    lemma_add_mod_noop(s0@, secret@ - s0@, p);
}

/// Multiplying an element by its computed inverse gives a^(PRIME_ORDER - 1).
/// With PRIME_ORDER prime, Fermat's little theorem makes this 1 for every
/// nonzero a; primality is not established here.
pub proof fn lemma_mul_recip(a: FE)
    ensures
        fmul(a@, finv(a@)) == pow(a@, (PRIME_ORDER - 1) as nat) % modulus(),
{
    let p = modulus();
    a.lemma_view_range();
    lemma_residue(a@);
    lemma_pow1(a@);
    lemma_mul_mod_noop_general(pow(a@, 1), pow(a@, (PRIME_ORDER - 2) as nat), p);
    lemma_pow_adds(a@, 1, (PRIME_ORDER - 2) as nat);
}

/// Multiplying a quotient `a / b` back by `b` gives a * b^(PRIME_ORDER - 1),
/// which is a for every nonzero b when PRIME_ORDER is prime.
pub proof fn lemma_div_mul(a: FE, b: FE)
    ensures
        fmul(fdiv(a@, b@), b@) == fmul(a@, pow(b@, (PRIME_ORDER - 1) as nat) % modulus()),
{
    let p = modulus();
    let q = finv(b@);
    a.lemma_view_range();
    b.lemma_view_range();
    lemma_mod_bound(pow(b@, (PRIME_ORDER - 2) as nat), p);
    lemma_residue(a@);
    lemma_residue(b@);
    lemma_residue(q);
    // (a * q) * b == a * (q * b)
    lemma_mul_mod_noop_general(a@ * q, b@, p);
    lemma_mul_mod_noop_general(a@, q * b@, p);
    lemma_mul_is_associative(a@, q, b@);
    lemma_mul_recip(b);
    lemma_mul_is_commutative(q, b@);
}

/// Unbiased sampling, one direction: for every residue x below the prime
/// and every high part h below 2^(64 - N_BITS), the word h * 2^N_BITS + x
/// is accepted by `from_u64_unbiased` and gives x.
pub proof fn lemma_unbiased_preimage(x: int, h: int)
    requires
        0 <= x < PRIME_ORDER,
        0 <= h < 0x40_0000,
    ensures
        0 <= h * word() + x <= u64::MAX,
        accepted((h * word() + x) as u64),
        (h * word() + x) % word() == x,
        (h * word() + x) / word() == h,
{
    assert(0 <= h * word() + x <= u64::MAX) by (nonlinear_arith)
        requires 0 <= x < word(), 0 <= h < 0x40_0000, word() == 0x400_0000_0000;
    lemma_fundamental_div_mod_converse(h * word() + x, word(), h, x);
}

/// Unbiased sampling, the other direction: every word is h * 2^N_BITS + x
/// for exactly one high part h below 2^(64 - N_BITS) and low part x; it is
/// accepted exactly when x is below the prime, and then gives x. With the
/// previous lemma, each residue comes from exactly 2^(64 - N_BITS) words,
/// and PRIME_ORDER * 2^(64 - N_BITS) words are accepted in all.
pub proof fn lemma_unbiased_word(w: u64)
    ensures
        w == (w as int / word()) * word() + w as int % word(),
        0 <= w as int / word() < 0x40_0000,
        0 <= w as int % word() < word(),
        accepted(w) <==> w as int % word() < PRIME_ORDER,
{
    lemma_fundamental_div_mod(w as int, word());
}

/// The words that `from_u64_unbiased` turns into the residue `x`.
pub open spec fn preimages(x: int) -> Set<u64> {
    Set::new(|w: u64| accepted(w) && w as int % word() == x)
}

/// Sampling has no bias: every residue below the prime comes from exactly
/// 2^(64 - N_BITS) words.
pub proof fn lemma_no_bias(x: int)
    requires
        0 <= x < PRIME_ORDER,
    ensures
        preimages(x).finite(),
        preimages(x).len() == 0x40_0000,
{
    let hs = set_int_range(0, 0x40_0000);
    let f = |h: int| (h * word() + x) as u64;
    lemma_int_range(0, 0x40_0000);
    assert forall|h1: int, h2: int| hs.contains(h1) && hs.contains(h2) && #[trigger] f(h1) == #[trigger] f(h2)
        implies h1 == h2 by {
        lemma_unbiased_preimage(x, h1);
        lemma_unbiased_preimage(x, h2);
    }
    assert forall|w: u64| #[trigger] preimages(x).contains(w) implies hs.map(f).contains(w) by {
        lemma_unbiased_word(w);
        let h = w as int / word();
        assert(hs.contains(h));
        assert(f(h) == w);
    }
    assert forall|w: u64| #[trigger] hs.map(f).contains(w) implies preimages(x).contains(w) by {
        let h = choose|h: int| hs.contains(h) && f(h) == w;
        lemma_unbiased_preimage(x, h);
    }
    assert(hs.map(f) =~= preimages(x));
    lemma_map_size(hs, preimages(x), f);
}

/// The words that `from_u64_unbiased` accepts.
pub open spec fn accepted_words() -> Set<u64> {
    Set::new(|w: u64| accepted(w))
}

/// Exactly PRIME_ORDER * 2^(64 - N_BITS) words are accepted, so a uniformly
/// random word is accepted with probability PRIME_ORDER / 2^N_BITS.
pub proof fn lemma_acceptance_count()
    ensures
        accepted_words().finite(),
        accepted_words().len() == PRIME_ORDER * 0x40_0000,
{
    let p = modulus();
    let n = p * 0x40_0000;
    let ks = set_int_range(0, n);
    let f = |k: int| ((k / p) * word() + k % p) as u64;
    lemma_int_range(0, n);
    assert forall|k: int| #[trigger] ks.contains(k) implies
        0 <= k / p < 0x40_0000 && 0 <= k % p < p && k == (k / p) * p + k % p by {
        lemma_fundamental_div_mod(k, p);
        assert(0 <= k / p < 0x40_0000) by (nonlinear_arith)
            requires 0 <= k < p * 0x40_0000, k == p * (k / p) + k % p, 0 <= k % p < p, p > 0;
    }
    assert forall|k1: int, k2: int| ks.contains(k1) && ks.contains(k2) && #[trigger] f(k1) == #[trigger] f(k2)
        implies k1 == k2 by {
        lemma_unbiased_preimage(k1 % p, k1 / p);
        lemma_unbiased_preimage(k2 % p, k2 / p);
    }
    assert forall|w: u64| #[trigger] accepted_words().contains(w) implies ks.map(f).contains(w) by {
        lemma_unbiased_word(w);
        let h = w as int / word();
        let x = w as int % word();
        let k = h * p + x;
        assert(0 <= k < n) by (nonlinear_arith)
            requires 0 <= h < 0x40_0000, 0 <= x < p, k == h * p + x, n == p * 0x40_0000;
        lemma_fundamental_div_mod_converse(k, p, h, x);
        assert(ks.contains(k));
        assert(f(k) == w);
    }
    assert forall|w: u64| #[trigger] ks.map(f).contains(w) implies accepted_words().contains(w) by {
        let k = choose|k: int| ks.contains(k) && f(k) == w;
        lemma_unbiased_preimage(k % p, k / p);
    }
    assert(ks.map(f) =~= accepted_words());
    lemma_map_size(ks, accepted_words(), f);
}

} // verus!
