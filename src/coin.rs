//! The one source of randomness: unbiased coin flips from a seedable generator.
use rand::Rng;
use vstd::prelude::*;

verus! {

#[verifier::external_type_specification]
#[verifier::external_body]
pub struct ExStdRng(rand::rngs::StdRng);

/// Relies on rand's `Rng::gen_range(0, 2)`: a value in the half-open range
/// [0, 2). Which of the two comes out is left to the generator.
#[verifier::external_body]
pub(crate) fn coin_flip(rng: &mut rand::rngs::StdRng) -> (r: usize)
    ensures
        r < 2,
{
    rng.gen_range(0, 2)
}

} // verus!
