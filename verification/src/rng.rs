//! Random sampling for the Monte-Carlo estimator.
//!
//! The thread-local generator of the `rand` crate supplies the raw
//! entropy.  Nothing is assumed of any drawn value beyond its range:
//! every consumer is verified for every admissible outcome.

use vstd::prelude::*;
use crate::fixed::SCALE;

verus! {

/// The `rand` crate's thread-local generator, declared so it can cross
/// verified signatures; its state is opaque here.
#[verifier::external_type_specification]
#[verifier::external_body]
pub struct ExThreadRng(rand::rngs::ThreadRng);

/// Relies on rand's `rng()`: hands out the calling thread's generator.
#[verifier::external_body]
pub fn thread_rng_new() -> rand::rngs::ThreadRng {
    rand::rng()
}

/// Relies on rand's `RngExt::random_range` over `0..65536`: the drawn
/// value lies in that range, and nothing more is assumed of it.
#[verifier::external_body]
pub fn draw_unit(rng: &mut rand::rngs::ThreadRng) -> (r: i64)
    ensures
        0 <= r < SCALE,
{
    rand::RngExt::random_range(rng, 0..65536i64)
}

} // verus!
