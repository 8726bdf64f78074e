//! Random choices, drawn from the thread's generator.

use vstd::prelude::*;
use rand::rngs::ThreadRng;
use rand::Rng;

verus! {

/// The generator type, carried through verified code as an opaque value.
#[verifier::external_type_specification]
#[verifier::external_body]
pub struct ExThreadRng(ThreadRng);

/// `rand::thread_rng` hands out the calling thread's generator. Nothing is
/// claimed of it.
pub assume_specification[ rand::thread_rng ]() -> (rng: ThreadRng);

/// Calls `Rng::gen_range` on the half-open range from zero to `count`.
///
/// Trusted: the number drawn lies in that range. Which number it is depends
/// on the generator, so nothing more is said. The range must not be empty.
#[verifier::external_body]
pub(crate) fn draw(rng: &mut ThreadRng, count: usize) -> (index: usize)
    requires
        count > 0,
    ensures
        index < count,
{
    rng.gen_range(0..count)
}

} // verus!
