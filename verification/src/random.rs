//! The source of randomness.

use rand::Rng;
use vstd::prelude::*;

verus! {

/// `rand::rng().random_range(0..bound)`: a number below `bound`,
/// drawn uniformly from the thread-local generator, which is seeded
/// by the operating system and cryptographically secure. The range
/// must not be empty. Whatever the bound, the generator unwinds at
/// its first use in a thread if the operating system gives it no
/// entropy.
#[verifier::external_body]
pub(crate) fn random_below(bound: usize) -> (index: usize)
    requires
        bound > 0,
    ensures
        index < bound,
{
    rand::rng().random_range(0..bound)
}

} // verus!
