//! The sole source of nondeterminism: uniform draws from a thread-local
//! generator.

use vstd::prelude::*;

verus! {

/// Declares `rand`'s thread-local generator handle so it can stand in a
/// field; its inner workings stay opaque.
#[verifier::external_type_specification]
#[verifier::external_body]
pub struct ExThreadRng(rand::rngs::ThreadRng);

/// Relies on rand::thread_rng: hands out the thread-local generator.
#[verifier::external_body]
fn fresh_thread_rng() -> rand::rngs::ThreadRng {
    rand::thread_rng()
}

/// Relies on rand::Rng::gen_range on the range `0..n`: a draw uniform in
/// `[0, n)`; the range is non-empty because `n >= 1`, so the call cannot
/// panic.
#[verifier::external_body]
fn draw_in_range(rng: &mut rand::rngs::ThreadRng, n: u64) -> (r: u64)
    requires
        n >= 1,
    ensures
        r < n,
{
    rand::Rng::gen_range(rng, 0..n)
}

/// Produces uniform integers in `[0, n)`; each draw is independent of the
/// ones before it.
pub struct RandomSource {
    rng: rand::rngs::ThreadRng,
}

impl RandomSource {
    /// A source backed by the thread-local generator.
    pub fn new() -> RandomSource {
        RandomSource { rng: fresh_thread_rng() }
    }

    /// Draws a uniform integer in `[0, n)`.
    pub(crate) fn next(&mut self, n: u64) -> (r: u64)
        requires
            n >= 1,
        ensures
            r < n,
    {
        draw_in_range(&mut self.rng, n)
    }
}

} // verus!
