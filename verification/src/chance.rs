//! The random source behind food placement.
//!
//! Nothing in this module is proved: it states what the `rand` crate is
//! trusted to do, and every proof about random positions rests on it.

use vstd::prelude::*;
use rand::Rng;
use rand::rngs::ThreadRng;

verus! {

/// `rand::rngs::ThreadRng`, the handle to the thread-local generator. Its
/// state is hidden from the proofs.
#[verifier::external_type_specification]
#[verifier::external_body]
pub struct ExThreadRng(rand::rngs::ThreadRng);

/// `rand::thread_rng`: hands out the thread-local generator. Nothing is
/// claimed about the handle.
pub assume_specification[ rand::thread_rng ]() -> (rng: ThreadRng);

/// `Rng::gen_range` on `i16`: draws a value from `low..high`. The call panics
/// unless `low < high`, so that is required; of the outcome only the range is
/// claimed, neither its distribution nor that two draws agree.
#[verifier::external_body]
pub(crate) fn gen_range(rng: &mut ThreadRng, low: i16, high: i16) -> (drawn: i16)
    requires
        low < high,
    ensures
        low <= drawn < high,
{
    rng.gen_range::<i16, i16, i16>(low, high)
}

} // verus!
