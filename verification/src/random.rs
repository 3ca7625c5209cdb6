//! The source of randomness: the thread-local generator of the `rand` crate.

use rand::rngs::ThreadRng;
use rand::Rng;
use vstd::prelude::*;

verus! {

/// `rand::rngs::ThreadRng`, the handle to the thread-local generator. Its state is opaque here.
#[verifier::external_type_specification]
#[verifier::external_body]
pub struct ExThreadRng(ThreadRng);

/// `rand::thread_rng` hands out the handle to the thread-local generator, which the operating
/// system seeds on first use. Nothing is claimed of the handle. The call panics where the
/// operating system cannot provide a seed, which no argument decides.
pub assume_specification[ rand::thread_rng ]() -> (rng: ThreadRng);

/// Draws one integer with `Rng::gen_range(low, high)`.
///
/// `rand` documents the result to lie in the half-open range from `low` (inclusive) to `high`
/// (exclusive), and the call to panic when `low >= high`; which value of the range comes out is
/// left open, so two draws from the same range may differ.
#[verifier::external_body]
pub(crate) fn draw_in_range(rng: &mut ThreadRng, low: i32, high: i32) -> (n: i32)
    requires
        low < high,
    ensures
        low <= n < high,
{
    rng.gen_range(low, high)
}

} // verus!
