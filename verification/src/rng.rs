use vstd::prelude::*;
use rand::Rng;

verus! {

/// `rand::rngs::ThreadRng`, the thread-local random number generator,
/// declared so that random seeding can take one as an argument.
#[verifier::external_type_specification]
#[verifier::external_body]
pub struct ExThreadRng(rand::rngs::ThreadRng);

/// Relies on `rand::Rng::gen_range`: on a non-empty half-open range
/// `lo..hi` it returns a value inside the range (it panics on an empty
/// one, which the precondition rules out). Nothing more is assumed:
/// two calls on the same arguments may differ.
#[verifier::external_body]
pub(crate) fn pick_in_range(rng: &mut rand::rngs::ThreadRng, lo: usize, hi: usize) -> (r: usize)
    requires
        lo < hi,
    ensures
        lo <= r < hi,
{
    rng.gen_range(lo..hi)
}

} // verus!
