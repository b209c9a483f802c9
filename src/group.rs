use vstd::prelude::*;
use crate::element::{FE, fadd, fsub, fmul, fneg};

verus! {

/// A ring-like type, so that protocol code can be written over any field.
///
/// The `_lazy` variants may defer reduction until `reduce` is called; for
/// `FE` they are the eager operations and `reduce` does nothing.
pub trait Group: Sized {
    fn zero() -> Self;

    fn one() -> Self;

    fn negate(&mut self);

    fn reduce(&mut self);

    fn add(&mut self, other: &Self);

    fn add_lazy(&mut self, other: &Self);

    fn mul(&mut self, other: &Self);

    fn mul_lazy(&mut self, other: &Self);

    fn sub(&mut self, other: &Self);
}

impl Group for FE {
    fn zero() -> (r: FE)
        ensures
            r@ == 0,
    {
        FE::from(0u8)
    }

    fn one() -> (r: FE)
        ensures
            r@ == 1,
    {
        FE::from(1u8)
    }

    fn negate(&mut self)
        ensures
            final(self)@ == fneg(old(self)@),
    {
        *self = core::ops::Neg::neg(*self);
    }

    fn reduce(&mut self)
        ensures
            *final(self) == *old(self),
    {
    }

    fn add(&mut self, other: &FE)
        ensures
            final(self)@ == fadd(old(self)@, other@),
    {
        *self = *self + *other;
    }

    fn add_lazy(&mut self, other: &FE)
        ensures
            final(self)@ == fadd(old(self)@, other@),
    {
        Group::add(self, other);
    }

    fn mul(&mut self, other: &FE)
        ensures
            final(self)@ == fmul(old(self)@, other@),
    {
        *self = *self * *other;
    }

    fn mul_lazy(&mut self, other: &FE)
        ensures
            final(self)@ == fmul(old(self)@, other@),
    {
        Group::mul(self, other);
    }

    fn sub(&mut self, other: &FE)
        ensures
            final(self)@ == fsub(old(self)@, other@),
    {
        *self = *self - *other;
    }
}

} // verus!
