use vstd::prelude::*;
use vstd::arithmetic::power::{pow, lemma_pow0, lemma_pow1, lemma_pow_adds};
use vstd::arithmetic::power2::{pow2, lemma_pow2_unfold, lemma2_to64, lemma2_to64_rest};
use vstd::arithmetic::div_mod::{lemma_small_mod, lemma_mul_mod_noop_general};
use crate::params::{N_BITS, OFFSET_BIT, PRIME_ORDER, modulus};
use crate::element::{FE, fmul, fsub};

verus! {

/// The multiplicative inverse of a nonzero residue, by Fermat's little
/// theorem: x^(PRIME_ORDER - 2) modulo the prime.
pub open spec fn finv(x: int) -> int {
    pow(x, (PRIME_ORDER - 2) as nat) % modulus()
}

/// Quotient of two residues.
pub open spec fn fdiv(x: int, y: int) -> int {
    fmul(x, finv(y))
}

/// Multiplying two residues of powers of `a` adds the exponents.
proof fn lemma_mul_pows(a: int, e1: nat, e2: nat)
    ensures
        fmul(pow(a, e1) % modulus(), pow(a, e2) % modulus()) == pow(a, e1 + e2) % modulus(),
{
    lemma_mul_mod_noop_general(pow(a, e1), pow(a, e2), modulus());
    lemma_pow_adds(a, e1, e2);
}

impl FE {
    /// The multiplicative inverse, computed as self^(PRIME_ORDER - 2) by a
    /// fixed chain of squarings and multiplications that depends only on
    /// the field parameters.
    ///
    /// With OFFSET_BIT != 2, PRIME_ORDER - 2 has every bit below N_BITS - 1
    /// set except bits 1 and OFFSET_BIT.
    pub fn recip(self) -> (r: FE)
        requires
            self@ != 0,
        ensures
            r@ == finv(self@),
    {
        let ghost a = self@;
        let mut x = self;
        let mut y = FE::new(1);
        proof {
            self.lemma_view_range();
            lemma_small_mod(a as nat, PRIME_ORDER as nat);
            lemma_small_mod(1, PRIME_ORDER as nat);
            lemma_pow0(a);
            lemma_pow1(a);
            lemma2_to64();
            lemma2_to64_rest();
        }
        let ghost mut ex: nat = 1;
        let ghost mut ey: nat = 0;

        // Bit 0 is set.
        proof { lemma_mul_pows(a, ex, ey); lemma_mul_pows(a, ex, ex); }
        y = x * y;
        x = x * x;
        proof { ey = ex + ey; ex = ex + ex; }
        // Bit 1 is clear.
        proof { lemma_mul_pows(a, ex, ex); }
        x = x * x;
        proof { ex = ex + ex; }

        // Bits 2 through OFFSET_BIT - 1 are set.
        let mut i: u64 = 2;
        while i < OFFSET_BIT
            invariant
                2 <= i <= OFFSET_BIT,
                x@ == pow(a, ex) % modulus(),
                y@ == pow(a, ey) % modulus(),
                ex == pow2(i as nat),
                ey + 3 == ex,
            decreases OFFSET_BIT - i,
        {
            proof {
                lemma_mul_pows(a, ex, ey);
                lemma_mul_pows(a, ex, ex);
                lemma_pow2_unfold((i + 1) as nat);
            }
            y = x * y;
            x = x * x;
            proof { ey = ex + ey; ex = ex + ex; }
            i = i + 1;
        }

        // OFFSET_BIT is clear.
        proof { lemma_mul_pows(a, ex, ex); lemma_pow2_unfold((i + 1) as nat); }
        x = x * x;
        proof { ex = ex + ex; }

        // Bits OFFSET_BIT + 1 through N_BITS - 2 are set.
        let mut i: u64 = OFFSET_BIT + 1;
        while i < N_BITS - 1
            invariant
                OFFSET_BIT + 1 <= i <= N_BITS - 1,
                x@ == pow(a, ex) % modulus(),
                y@ == pow(a, ey) % modulus(),
                ex == pow2(i as nat),
                ey + 3 + pow2(OFFSET_BIT as nat) == ex,
            decreases N_BITS - 1 - i,
        {
            proof {
                lemma_mul_pows(a, ex, ey);
                lemma_mul_pows(a, ex, ex);
                lemma_pow2_unfold((i + 1) as nat);
            }
            y = x * y;
            x = x * x;
            proof { ey = ex + ey; ex = ex + ex; }
            i = i + 1;
        }
        proof {
            lemma_mul_pows(a, ex, ey);
            assert(ex + ey == PRIME_ORDER - 2);
        }
        x * y
    }
}

impl vstd::std_specs::ops::DivSpecImpl for FE {
    // The stored representation of a quotient is left unspecified; the
    // residue is given by the `ensures` of `div`.
    open spec fn obeys_div_spec() -> bool {
        false
    }

    open spec fn div_req(self, rhs: FE) -> bool {
        rhs@ != 0
    }

    open spec fn div_spec(self, rhs: FE) -> FE {
        choose|q: FE| q@ == fdiv(self@, rhs@)
    }
}

impl core::ops::Div for FE {
    type Output = FE;

    /// Division by a nonzero element: multiplication by its inverse.
    fn div(self, rhs: FE) -> (r: FE)
        ensures
            r@ == fdiv(self@, rhs@),
    {
        self * rhs.recip()
    }
}

impl vstd::std_specs::ops::RemSpecImpl for FE {
    // The stored representation is left unspecified; the residue is given
    // by the `ensures` of `rem`.
    open spec fn obeys_rem_spec() -> bool {
        false
    }

    open spec fn rem_req(self, rhs: FE) -> bool {
        rhs@ != 0
    }

    open spec fn rem_spec(self, rhs: FE) -> FE {
        choose|q: FE| q@ == fsub(self@, fdiv(self@, rhs@))
    }
}

impl core::ops::Rem for FE {
    type Output = FE;

    /// `self - self / rhs`. This is not a remainder in any number-theoretic
    /// sense: it exists so that the type offers the full set of numeric
    /// operators.
    fn rem(self, rhs: FE) -> (r: FE)
        ensures
            r@ == fsub(self@, fdiv(self@, rhs@)),
    {
        self - self / rhs
    }
}

impl<'a> vstd::std_specs::ops::DivSpecImpl<&'a FE> for FE {
    open spec fn obeys_div_spec() -> bool {
        false
    }

    open spec fn div_req(self, rhs: &'a FE) -> bool {
        rhs@ != 0
    }

    open spec fn div_spec(self, rhs: &'a FE) -> FE {
        choose|q: FE| q@ == fdiv(self@, rhs@)
    }
}

impl<'a> core::ops::Div<&'a FE> for FE {
    type Output = FE;

    fn div(self, rhs: &'a FE) -> (r: FE)
        ensures
            r@ == fdiv(self@, rhs@),
    {
        self / *rhs
    }
}

impl<'a> vstd::std_specs::ops::RemSpecImpl<&'a FE> for FE {
    open spec fn obeys_rem_spec() -> bool {
        false
    }

    open spec fn rem_req(self, rhs: &'a FE) -> bool {
        rhs@ != 0
    }

    open spec fn rem_spec(self, rhs: &'a FE) -> FE {
        choose|q: FE| q@ == fsub(self@, fdiv(self@, rhs@))
    }
}

impl<'a> core::ops::Rem<&'a FE> for FE {
    type Output = FE;

    fn rem(self, rhs: &'a FE) -> (r: FE)
        ensures
            r@ == fsub(self@, fdiv(self@, rhs@)),
    {
        self % *rhs
    }
}

impl core::ops::DivAssign for FE {
    fn div_assign(&mut self, rhs: FE)
        requires
            rhs@ != 0,
        ensures
            final(self)@ == fdiv(old(self)@, rhs@),
    {
        *self = *self / rhs;
    }
}

impl core::ops::RemAssign for FE {
    fn rem_assign(&mut self, rhs: FE)
        requires
            rhs@ != 0,
        ensures
            final(self)@ == fsub(old(self)@, fdiv(old(self)@, rhs@)),
    {
        *self = *self % rhs;
    }
}

} // verus!
