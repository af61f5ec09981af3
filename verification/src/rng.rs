//! The interpreter's one source of randomness, behind a trusted wrapper.

use vstd::prelude::*;

use rand::Rng;

verus! {

/// Relies on `rand::thread_rng` and `rand::Rng::gen_range`: draws one
/// uniformly distributed byte from the thread-local generator. Nothing is
/// assumed of the value; CXNN is specified to hold for whatever byte
/// comes back.
#[verifier::external_body]
pub(crate) fn random_byte() -> u8 {
    let v: i32 = rand::thread_rng().gen_range(0..256);
    v as u8
}

} // verus!
