use vstd::prelude::*;
use vstd::arithmetic::div_mod::{lemma_small_mod, lemma_mod_multiples_vanish, lemma_mul_mod_noop_general, lemma_add_mod_noop};
use crate::params::{PRIME_ORDER, FULL_BITS_MASK, FE_VAL_MAX, word, modulus};
use crate::reduce::{lemma_folded_mod, lemma_folded_bound, bit_reduce_once, bit_reduce_once_128, reduce_by_p};

verus! {

/// Sum of two residues.
pub open spec fn fadd(x: int, y: int) -> int {
    (x + y) % modulus()
}

/// Additive inverse of a residue.
pub open spec fn fneg(x: int) -> int {
    (modulus() - x) % modulus()
}

/// Difference of two residues.
pub open spec fn fsub(x: int, y: int) -> int {
    (x - y) % modulus()
}

/// Product of two residues.
pub open spec fn fmul(x: int, y: int) -> int {
    (x * y) % modulus()
}

/// An element of the field of residues modulo PRIME_ORDER.
///
/// The stored value is once-reduced (at most FE_VAL_MAX) and stands for its
/// residue modulo PRIME_ORDER; it is in general not that residue itself.
#[derive(Debug, Clone, Copy)]
pub struct FE {
    val: u64,
}

impl View for FE {
    type V = int;

    /// The residue that the element stands for, in [0, PRIME_ORDER).
    closed spec fn view(&self) -> int {
        self.val as int % modulus()
    }
}

impl FE {
    #[verifier::type_invariant]
    spec fn inv(self) -> bool {
        self.val <= FE_VAL_MAX
    }

    /// The residue of an element lies in [0, PRIME_ORDER).
    pub proof fn lemma_view_range(self)
        ensures
            0 <= self@ < PRIME_ORDER,
    {
    }

    /// Creates the element that stands for `v` modulo the prime. Any value
    /// is accepted.
    pub fn new(v: u64) -> (r: FE)
        ensures
            r@ == v as int % modulus(),
    {
        proof { lemma_folded_mod(v as int); }
        FE { val: bit_reduce_once(v) }
    }

    /// Creates the element `v` when `v` is already a canonical residue.
    pub fn from_reduced(v: u64) -> (r: Option<FE>)
        ensures
            r is Some <==> v < PRIME_ORDER,
            r matches Some(e) ==> e@ == v,
    {
        if v < PRIME_ORDER {
            proof { lemma_small_mod(v as nat, PRIME_ORDER as nat); }
            Some(FE { val: v })
        } else {
            None
        }
    }

    /// Keeps the low N_BITS bits of `v` and creates that element when it is
    /// below the prime. On uniformly random words, every element that comes
    /// out is equally likely.
    pub fn from_u64_unbiased(v: u64) -> (r: Option<FE>)
        ensures
            r is Some <==> v as int % word() < PRIME_ORDER,
            r matches Some(e) ==> e@ == v as int % word(),
    {
        proof {
            assert(v & 0x3ff_ffff_ffffu64 == v % 0x400_0000_0000) by (bit_vector);
        }
        FE::from_reduced(v & FULL_BITS_MASK)
    }

    /// Creates the element `v`, which is always below the prime.
    fn new_raw(v: u32) -> (r: FE)
        ensures
            r == FE::small(v),
            r@ == v,
    {
        proof { lemma_small_mod(v as nat, PRIME_ORDER as nat); }
        FE { val: v as u64 }
    }

    /// The canonical residue of the element, in [0, PRIME_ORDER).
    pub fn value(self) -> (r: u64)
        ensures
            r == self@,
            r < PRIME_ORDER,
    {
        proof {
            use_type_invariant(&self);
            lemma_folded_mod(self.val as int);
        }
        reduce_by_p(bit_reduce_once(self.val))
    }

    /// Whether the element is the additive identity.
    pub fn is_zero(&self) -> (r: bool)
        ensures
            r == (self@ == 0),
    {
        self.value() == 0
    }
}


// The operators leave the stored representation open; each states the
// residue of its result in its own `ensures`.
impl vstd::std_specs::ops::AddSpecImpl for FE {
    open spec fn obeys_add_spec() -> bool {
        false
    }

    open spec fn add_req(self, rhs: FE) -> bool {
        true
    }

    open spec fn add_spec(self, rhs: FE) -> FE {
        choose|r: FE| r@ == fadd(self@, rhs@)
    }
}

impl core::ops::Add for FE {
    type Output = FE;

    fn add(self, rhs: FE) -> (r: FE)
        ensures
            r@ == fadd(self@, rhs@),
    {
        proof {
            use_type_invariant(&self);
            use_type_invariant(&rhs);
            lemma_add_mod_noop(self.val as int, rhs.val as int, modulus());
        }
        // Both stored values are at most FE_VAL_MAX, and twice that fits
        // in 64 bits.
        FE::new(self.val + rhs.val)
    }
}

impl vstd::std_specs::ops::NegSpecImpl for FE {
    open spec fn obeys_neg_spec() -> bool {
        false
    }

    open spec fn neg_req(self) -> bool {
        true
    }

    open spec fn neg_spec(self) -> FE {
        choose|r: FE| r@ == fneg(self@)
    }
}

impl core::ops::Neg for FE {
    type Output = FE;

    fn neg(self) -> (r: FE)
        ensures
            r@ == fneg(self@),
    {
        proof { use_type_invariant(&self); }
        // Bit-reduce once more so that the stored value is below twice the
        // prime, which keeps the subtraction from wrapping.
        let t = bit_reduce_once(self.val);
        proof {
            let p = modulus();
            lemma_folded_mod(self.val as int);
            let k = t as int / p;
            assert(t as int == p * k + t as int % p);
            assert(2 * p - t == p * (1 - k) + (p - t as int % p)) by (nonlinear_arith)
                requires t as int == p * k + t as int % p;
            lemma_mod_multiples_vanish(1 - k, p - t as int % p, p);
        }
        FE::new(2 * PRIME_ORDER - t)
    }
}

impl vstd::std_specs::ops::SubSpecImpl for FE {
    open spec fn obeys_sub_spec() -> bool {
        false
    }

    open spec fn sub_req(self, rhs: FE) -> bool {
        true
    }

    open spec fn sub_spec(self, rhs: FE) -> FE {
        choose|r: FE| r@ == fsub(self@, rhs@)
    }
}

impl core::ops::Sub for FE {
    type Output = FE;

    fn sub(self, rhs: FE) -> (r: FE)
        ensures
            r@ == fsub(self@, rhs@),
    {
        let r = self + core::ops::Neg::neg(rhs);
        proof {
            let p = modulus();
            let x = self@;
            let y = rhs@;
            self.lemma_view_range();
            rhs.lemma_view_range();
            lemma_small_mod(x as nat, p as nat);
            lemma_add_mod_noop(x, p - y, p);
            lemma_mod_multiples_vanish(1, x - y, p);
        }
        r
    }
}

impl vstd::std_specs::ops::MulSpecImpl for FE {
    open spec fn obeys_mul_spec() -> bool {
        false
    }

    open spec fn mul_req(self, rhs: FE) -> bool {
        true
    }

    open spec fn mul_spec(self, rhs: FE) -> FE {
        choose|r: FE| r@ == fmul(self@, rhs@)
    }
}

impl core::ops::Mul for FE {
    type Output = FE;

    fn mul(self, rhs: FE) -> (r: FE)
        ensures
            r@ == fmul(self@, rhs@),
    {
        proof {
            use_type_invariant(&self);
            use_type_invariant(&rhs);
        }
        proof {
            let (a, b) = (self.val as int, rhs.val as int);
            assert(a * b <= 4507996604334078 * 4507996604334078) by (nonlinear_arith)
                requires 0 <= a <= 4507996604334078, 0 <= b <= 4507996604334078;
        }
        // The product is at most FE_VAL_MAX^2 < 2^105.
        let product = (self.val as u128) * (rhs.val as u128);
        proof {
            lemma_folded_bound(product as int, 4507996604334078int * 4507996604334078int);
        }
        // Each 128-bit reduction removes about N_BITS - OFFSET_BIT bits;
        // four of them bring the product below 2^64.
        let r1 = bit_reduce_once_128(product);
        proof { lemma_folded_bound(r1 as int, 4961433936429190493822511103); }
        let r2 = bit_reduce_once_128(r1);
        proof { lemma_folded_bound(r2 as int, 1211287583268530349936703); }
        let r3 = bit_reduce_once_128(r2);
        proof { lemma_folded_bound(r3 as int, 295724512306826183553); }
        let r4 = bit_reduce_once_128(r3);
        proof {
            assert(r4 <= 72202765073514528);
            lemma_folded_mod(product as int);
            lemma_folded_mod(r1 as int);
            lemma_folded_mod(r2 as int);
            lemma_folded_mod(r3 as int);
            lemma_mul_mod_noop_general(self.val as int, rhs.val as int, modulus());
        }
        FE::new(r4 as u64)
    }
}

impl PartialEq for FE {
    /// Two elements are equal when they stand for the same residue.
    fn eq(&self, rhs: &FE) -> (r: bool)
        ensures
            r == (self@ == rhs@),
    {
        self.value() == rhs.value()
    }
}

impl vstd::std_specs::cmp::PartialEqSpecImpl for FE {
    open spec fn obeys_eq_spec() -> bool {
        true
    }

    open spec fn eq_spec(&self, rhs: &FE) -> bool {
        self@ == rhs@
    }
}

impl Eq for FE {
}

impl<'a> vstd::std_specs::ops::AddSpecImpl<&'a FE> for FE {
    open spec fn obeys_add_spec() -> bool {
        false
    }

    open spec fn add_req(self, rhs: &'a FE) -> bool {
        true
    }

    open spec fn add_spec(self, rhs: &'a FE) -> FE {
        choose|r: FE| r@ == fadd(self@, rhs@)
    }
}

impl<'a> core::ops::Add<&'a FE> for FE {
    type Output = FE;

    fn add(self, rhs: &'a FE) -> (r: FE)
        ensures
            r@ == fadd(self@, rhs@),
    {
        self + *rhs
    }
}

impl<'a> vstd::std_specs::ops::SubSpecImpl<&'a FE> for FE {
    open spec fn obeys_sub_spec() -> bool {
        false
    }

    open spec fn sub_req(self, rhs: &'a FE) -> bool {
        true
    }

    open spec fn sub_spec(self, rhs: &'a FE) -> FE {
        choose|r: FE| r@ == fsub(self@, rhs@)
    }
}

impl<'a> core::ops::Sub<&'a FE> for FE {
    type Output = FE;

    fn sub(self, rhs: &'a FE) -> (r: FE)
        ensures
            r@ == fsub(self@, rhs@),
    {
        self - *rhs
    }
}

impl<'a, 'b> vstd::std_specs::ops::SubSpecImpl<&'b FE> for &'a FE {
    open spec fn obeys_sub_spec() -> bool {
        false
    }

    open spec fn sub_req(self, rhs: &'b FE) -> bool {
        true
    }

    open spec fn sub_spec(self, rhs: &'b FE) -> FE {
        choose|r: FE| r@ == fsub(self@, rhs@)
    }
}

impl<'a, 'b> core::ops::Sub<&'b FE> for &'a FE {
    type Output = FE;

    fn sub(self, rhs: &'b FE) -> (r: FE)
        ensures
            r@ == fsub(self@, rhs@),
    {
        *self - *rhs
    }
}

impl<'a> vstd::std_specs::ops::MulSpecImpl<&'a FE> for FE {
    open spec fn obeys_mul_spec() -> bool {
        false
    }

    open spec fn mul_req(self, rhs: &'a FE) -> bool {
        true
    }

    open spec fn mul_spec(self, rhs: &'a FE) -> FE {
        choose|r: FE| r@ == fmul(self@, rhs@)
    }
}

impl<'a> core::ops::Mul<&'a FE> for FE {
    type Output = FE;

    fn mul(self, rhs: &'a FE) -> (r: FE)
        ensures
            r@ == fmul(self@, rhs@),
    {
        self * *rhs
    }
}

impl core::ops::AddAssign for FE {
    fn add_assign(&mut self, rhs: FE)
        ensures
            final(self)@ == fadd(old(self)@, rhs@),
    {
        *self = *self + rhs;
    }
}

impl core::ops::SubAssign for FE {
    fn sub_assign(&mut self, rhs: FE)
        ensures
            final(self)@ == fsub(old(self)@, rhs@),
    {
        *self = *self - rhs;
    }
}

impl core::ops::MulAssign for FE {
    fn mul_assign(&mut self, rhs: FE)
        ensures
            final(self)@ == fmul(old(self)@, rhs@),
    {
        *self = *self * rhs;
    }
}

impl FE {
    /// The element that stands for a small integer, stored as is.
    pub closed spec fn small(v: u32) -> FE {
        FE { val: v as u64 }
    }
}

impl From<u8> for FE {
    fn from(v: u8) -> (r: FE)
        ensures
            r@ == v,
    {
        FE::new_raw(v as u32)
    }
}

impl vstd::std_specs::convert::FromSpecImpl<u8> for FE {
    open spec fn obeys_from_spec() -> bool {
        true
    }

    open spec fn from_spec(v: u8) -> FE {
        FE::small(v as u32)
    }
}

impl From<u16> for FE {
    fn from(v: u16) -> (r: FE)
        ensures
            r@ == v,
    {
        FE::new_raw(v as u32)
    }
}

impl vstd::std_specs::convert::FromSpecImpl<u16> for FE {
    open spec fn obeys_from_spec() -> bool {
        true
    }

    open spec fn from_spec(v: u16) -> FE {
        FE::small(v as u32)
    }
}

impl From<u32> for FE {
    fn from(v: u32) -> (r: FE)
        ensures
            r@ == v,
    {
        FE::new_raw(v)
    }
}

impl vstd::std_specs::convert::FromSpecImpl<u32> for FE {
    open spec fn obeys_from_spec() -> bool {
        true
    }

    open spec fn from_spec(v: u32) -> FE {
        FE::small(v)
    }
}

impl From<FE> for u64 {
    /// The canonical residue.
    fn from(v: FE) -> (r: u64)
        ensures
            r == v@,
    {
        v.value()
    }
}

impl vstd::std_specs::convert::FromSpecImpl<FE> for u64 {
    open spec fn obeys_from_spec() -> bool {
        true
    }

    open spec fn from_spec(v: FE) -> u64 {
        v@ as u64
    }
}

impl Default for FE {
    fn default() -> (r: FE)
        ensures
            r@ == 0,
    {
        FE::new_raw(0)
    }
}

} // verus!
