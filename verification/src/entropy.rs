//! The source of chance behind rarity rolls and decorative hashes.

use rand::Rng;
use vstd::prelude::*;

verus! {

/// Draws a number below `bound` from the thread-local generator of the `rand`
/// crate, by `Rng::gen_range` on the range `0..bound` of the generator that
/// `rand::thread_rng` hands out.
///
/// Trusted, not proved: `gen_range` panics on an empty range, which `requires`
/// leaves out, and on a range of integers that is not empty it returns a value
/// inside the range. The draw depends on chance, so nothing more is said of it.
/// `thread_rng` panics where the operating system cannot seed the generator,
/// which no argument of this function decides.
#[verifier::external_body]
pub(crate) fn random_below(bound: u32) -> (drawn: u32)
    requires
        0 < bound,
    ensures
        drawn < bound,
{
    rand::thread_rng().gen_range(0..bound)
}

} // verus!
