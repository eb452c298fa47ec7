//! Trusted declarations around the `rand` crate: the source of entropy for
//! the sampling optimizers.
use vstd::prelude::*;

use rand::Rng;

verus! {

/// Declares `rand::rngs::StdRng`, the random number generator that the
/// sampling code threads through; its values are opaque here.
#[verifier::external_type_specification]
#[verifier::external_body]
pub struct ExStdRng(rand::rngs::StdRng);

/// Relies on `rand::Rng::gen_range` over the half-open range `0..n`: the
/// result is below `n`, and the call panics only on an empty range, which
/// the precondition rules out.
#[verifier::external_body]
pub(crate) fn gen_u64_below(rng: &mut rand::rngs::StdRng, n: u64) -> (r: u64)
    requires
        n >= 1,
    ensures
        r < n,
{
    rng.gen_range(0..n)
}

/// Relies on `rand::Rng::gen::<bool>()`: it draws a boolean; nothing can be
/// promised of a random value.
#[verifier::external_body]
pub(crate) fn gen_bool(rng: &mut rand::rngs::StdRng) -> bool {
    rng.gen()
}

} // verus!
