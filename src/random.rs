use vstd::prelude::*;
use crate::element::{FE, fadd, fsub};
use crate::params::{PRIME_ORDER, word, modulus};
use crate::group::Group;

verus! {

#[verifier::external_type_specification]
#[verifier::external_body]
pub struct ExThreadRng(rand::rngs::ThreadRng);

/// Relies on rand::thread_rng: a handle to this thread's own generator.
#[verifier::external_body]
fn thread_rng() -> rand::rngs::ThreadRng {
    rand::thread_rng()
}

/// Relies on rand_core::RngCore::next_u64 as ThreadRng implements it: a
/// fresh random word. Nothing is known of its value.
#[verifier::external_body]
fn next_word(rng: &mut rand::rngs::ThreadRng) -> u64 {
    rand_core::RngCore::next_u64(rng)
}

/// Largest number of rejected words before `from_rng` stops drawing.
pub const MAX_DRAWS: u64 = 0xffff_ffff_ffff_ffff;

/// Whether `from_u64_unbiased` keeps a word: its low N_BITS bits are below
/// the prime.
pub open spec fn accepted(w: u64) -> bool {
    w as int % word() < PRIME_ORDER
}

/// `drawn` is the record of one draw that produced the residue `e`: every
/// word but the last was rejected, and `e` comes from the last one, taken
/// as it is when accepted, or reduced after MAX_DRAWS rejections.
pub open spec fn draw_record(drawn: Seq<u64>, e: int) -> bool {
    &&& drawn.len() >= 1
    &&& forall|i: int| 0 <= i < drawn.len() - 1 ==> !accepted(#[trigger] drawn[i])
    &&& accepted(drawn.last()) ==> e == drawn.last() as int % word()
    &&& !accepted(drawn.last()) ==> drawn.len() == MAX_DRAWS + 1 && e == drawn.last() as int % modulus()
}

/// A type whose values can be drawn uniformly from a random source. Each
/// draw hands back the record of the words it took from the source.
pub trait FromRng {
    fn from_rng(&mut self, rng: &mut rand::rngs::ThreadRng) -> Ghost<Seq<u64>>;

    fn randomize(&mut self) -> Ghost<Seq<u64>>;
}

impl FromRng for FE {
    /// Draws words until one passes `from_u64_unbiased`, so that every
    /// element is equally likely; a rejected word is discarded whole. A
    /// word is rejected with probability below 2^-11; should MAX_DRAWS
    /// words in a row be rejected, which does not happen in practice, the
    /// last one is reduced instead.
    fn from_rng(&mut self, rng: &mut rand::rngs::ThreadRng) -> (drawn: Ghost<Seq<u64>>)
        ensures
            draw_record(drawn@, final(self)@),
    {
        let ghost mut record: Seq<u64> = Seq::empty();
        let mut draws: u64 = 0;
        loop
            invariant_except_break
                record.len() == draws,
                forall|i: int| 0 <= i < record.len() ==> !accepted(#[trigger] record[i]),
            ensures
                draw_record(record, self@),
            decreases MAX_DRAWS - draws,
        {
            let word = next_word(rng);
            proof { record = record.push(word); }
            match FE::from_u64_unbiased(word) {
                Some(x) => {
                    *self = x;
                    break;
                },
                None => {
                    if draws == MAX_DRAWS {
                        *self = FE::new(word);
                        break;
                    }
                    draws = draws + 1;
                },
            }
        }
        Ghost(record)
    }

    /// Draws the element from this thread's generator.
    fn randomize(&mut self) -> (drawn: Ghost<Seq<u64>>)
        ensures
            draw_record(drawn@, final(self)@),
    {
        let mut rng = thread_rng();
        self.from_rng(&mut rng)
    }
}

impl FE {
    /// Splits `self` into two additive shares, given the first one: the
    /// second is `self - s0`, so that the two add up to `self`.
    pub fn share_with(self, s0: FE) -> (r: (FE, FE))
        ensures
            r.0 == s0,
            r.1@ == fsub(self@, s0@),
            fadd(r.0@, r.1@) == self@,
    {
        let mut s1 = self;
        Group::sub(&mut s1, &s0);
        proof { crate::laws::lemma_shares_add_up(self, s0); }
        (s0, s1)
    }
}

/// Additive two-party secret sharing.
pub trait Share: Group + FromRng + Clone {
    fn random() -> (Self, Ghost<Seq<u64>>);

    fn share(&self) -> (Self, Self);

    fn share_random() -> ((Self, Self), Ghost<(Seq<u64>, Seq<u64>)>);
}

impl Share for FE {
    /// A uniformly random element, with the record of the words drawn.
    fn random() -> (r: (FE, Ghost<Seq<u64>>))
        ensures
            draw_record(r.1@, r.0@),
    {
        let mut out = <FE as Group>::zero();
        let drawn = out.randomize();
        (out, drawn)
    }

    /// Two shares of `self`: the first uniformly random, the second
    /// `self` minus the first. Each alone reveals nothing of `self`.
    fn share(&self) -> (r: (FE, FE))
        ensures
            r.1@ == fsub(self@, r.0@),
            fadd(r.0@, r.1@) == self@,
    {
        let (s0, _) = <FE as Share>::random();
        self.share_with(s0)
    }

    /// Two independent uniformly random elements, each with the record of
    /// its own draw.
    fn share_random() -> (r: ((FE, FE), Ghost<(Seq<u64>, Seq<u64>)>))
        ensures
            draw_record(r.1@.0, r.0.0@),
            draw_record(r.1@.1, r.0.1@),
    {
        let (a, da) = <FE as Share>::random();
        let (b, db) = <FE as Share>::random();
        ((a, b), Ghost((da@, db@)))
    }
}

} // verus!
