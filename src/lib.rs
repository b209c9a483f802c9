//! Constant-time arithmetic modulo the pseudo-Mersenne number
//! 2^N_BITS - 2^OFFSET_BIT - 1,
//! with unbiased sampling and additive two-party secret sharing.

pub mod params;
pub mod reduce;
pub mod element;
pub mod inverse;
pub mod group;
pub mod laws;
pub mod random;
pub mod codec;

pub use params::{N_BITS, OFFSET_BIT, PRIME_ORDER};
pub use element::FE;
pub use group::Group;
pub use random::{FromRng, Share};
pub use codec::FieldError;
