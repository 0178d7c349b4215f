//! The source of the random draws that soil the world: the thread-local
//! generator of the `rand` crate. Nothing here is proved; each item says what
//! is taken on trust from that crate.

use rand::Rng;
use vstd::prelude::*;

verus! {

/// `rand::rngs::ThreadRng`, a handle to the generator that `rand` keeps for the
/// current thread. Its contents are opaque here.
#[verifier::external_type_specification]
#[verifier::external_body]
pub struct ExThreadRng(rand::rngs::ThreadRng);

/// `rand::thread_rng` hands out the handle to the current thread's generator,
/// which the system seeds on first use; where the system gives no seed, the
/// crate panics. Nothing is claimed of the handle.
pub assume_specification[ rand::thread_rng ]() -> rand::rngs::ThreadRng;

/// `Rng::gen_range` on the thread's generator, for `i32`: a value from the
/// half-open range from `low` up to, but excluding, `high`. The crate panics
/// unless `low < high`, which is therefore required. Which value of the range
/// comes back is left open, so two calls need not agree.
#[verifier::external_body]
pub(crate) fn gen_range(rng: &mut rand::rngs::ThreadRng, low: i32, high: i32) -> (drawn: i32)
    requires
        low < high,
    ensures
        low <= drawn < high,
{
    rng.gen_range(low, high)
}

} // verus!
