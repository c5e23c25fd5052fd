//! The one source of randomness of the miner.

use rand::Rng;
use vstd::prelude::*;

verus! {

/// Draws an index below `bound` with `gen_range` on rand's thread-local
/// generator. Trusted: the value lies in `0..bound`; which value comes is
/// left open. An empty range, on which rand panics, is ruled out.
#[verifier::external_body]
pub(crate) fn random_below(bound: usize) -> (r: usize)
    requires
        bound > 0,
    ensures
        r < bound,
{
    rand::thread_rng().gen_range(0..bound)
}

} // verus!
