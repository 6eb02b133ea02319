//! Random choices, delegated to the `rand` crate.

use rand::Rng;
use vstd::prelude::*;

verus! {

/// The thread-local generator of `rand`.
#[verifier::external_type_specification]
#[verifier::external_body]
pub struct ExThreadRng(rand::rngs::ThreadRng);

/// Calls `rand::thread_rng`, which hands out the lazily seeded generator of
/// the current thread. Nothing is claimed of the value.
#[verifier::external_body]
pub(crate) fn thread_rng() -> rand::rngs::ThreadRng {
    rand::thread_rng()
}

/// Calls `rand::Rng::gen_range` on the range `0..n` (integers, uniform).
/// `gen_range` panics on an empty range, hence `n > 0`. The claim is only the
/// one its documentation makes of every outcome: the value lies in `0..n`.
#[verifier::external_body]
pub(crate) fn random_below(rng: &mut rand::rngs::ThreadRng, n: usize) -> (r: usize)
    requires
        n > 0,
    ensures
        r < n,
{
    rng.gen_range(0..n)
}

} // verus!
