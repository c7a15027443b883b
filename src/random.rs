//! The random source of the synthetic generator.

use vstd::prelude::*;
use rand::rngs::StdRng;

verus! {

#[verifier::external_type_specification]
#[verifier::external_body]
pub struct ExStdRng(StdRng);

/// Relies on rand's `SeedableRng::from_entropy`: a generator seeded by the
/// operating system, which can move between threads.
#[verifier::external_body]
pub(crate) fn fresh_rng() -> (r: StdRng) {
    <StdRng as rand::SeedableRng>::from_entropy()
}

/// Relies on rand's `Rng::gen_range` over the inclusive range `lo..=hi`: a
/// value inside it. It panics only on an empty range, which `requires` rules
/// out.
#[verifier::external_body]
pub(crate) fn draw(rng: &mut StdRng, lo: i64, hi: i64) -> (r: i64)
    requires
        lo <= hi,
    ensures
        lo <= r <= hi,
{
    rand::Rng::gen_range(rng, lo..=hi)
}

} // verus!
