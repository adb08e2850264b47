//! Random draws for the game rules that depend on chance.

use vstd::prelude::*;

verus! {

/// `rand::random_range(0..bound)` on the thread-local generator: a value
/// that is at least 0 and below `bound`. Which value comes is not stated; it
/// rests on chance. The call panics on an empty range, so `bound` is positive.
#[verifier::external_body]
pub(crate) fn random_below(bound: u32) -> (r: u32)
    requires
        bound > 0,
    ensures
        r < bound,
{
    rand::random_range(0..bound)
}

/// `rand::random::<u32>()` on the thread-local generator: any 32-bit value.
/// Nothing is stated of which; it rests on chance.
#[verifier::external_body]
pub(crate) fn random_u32() -> (r: u32) {
    rand::random::<u32>()
}

} // verus!
