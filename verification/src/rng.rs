//! The random source: a seeded ChaCha generator, threaded explicitly through
//! every operation that needs entropy, so that a run is reproducible from its
//! seed alone. Callers build one with rand's `SeedableRng`.
//!
//! The calls into the `rand` and `rand_chacha` crates stand behind trusted
//! wrappers; everything that consumes their results is verified for every
//! value the wrappers may return.

use vstd::prelude::*;
use rand::Rng;
use rand_chacha::ChaCha8Rng;

verus! {

#[verifier::external_type_specification]
#[verifier::external_body]
pub struct ExChaCha8Rng(ChaCha8Rng);

/// Relies on rand's `Rng::gen_range` over the inclusive range `lo..=hi`: it
/// returns a value within the range and panics only when the range is empty.
#[verifier::external_body]
pub(crate) fn gen_range_i64(rng: &mut ChaCha8Rng, lo: i64, hi: i64) -> (r: i64)
    requires
        lo <= hi,
    ensures
        lo <= r <= hi,
{
    rng.gen_range(lo..=hi)
}

/// Relies on rand's `Rng::gen_range` over the half-open range `0..bound`: it
/// returns a value below the bound and panics only when the range is empty.
#[verifier::external_body]
pub(crate) fn gen_below_u128(rng: &mut ChaCha8Rng, bound: u128) -> (r: u128)
    requires
        bound > 0,
    ensures
        r < bound,
{
    rng.gen_range(0..bound)
}

} // verus!
