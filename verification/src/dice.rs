//! The one place where chance enters the library.

use rand::rngs::ThreadRng;
use rand::Rng;
use vstd::prelude::*;

verus! {

/// The thread-local generator of the `rand` crate, carried through the
/// library as an opaque handle.
#[verifier::external_type_specification]
#[verifier::external_body]
pub struct ExThreadRng(ThreadRng);

/// Draws an integer from `0..bound` with `rand::Rng::gen_range`.
///
/// Trusted: `gen_range` panics on an empty range, which `bound > 0` rules
/// out, and returns a value inside the range it was given. Nothing is
/// claimed about which value comes back.
#[verifier::external_body]
pub(crate) fn draw_below(rng: &mut ThreadRng, bound: u32) -> (r: u32)
    requires
        bound > 0,
    ensures
        r < bound,
{
    rng.gen_range(0..bound)
}

} // verus!
