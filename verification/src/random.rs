//! The one source of chance: a uniform draw below a bound.

use vstd::prelude::*;

verus! {

/// A number drawn uniformly from `0..bound`.
///
/// Calls `rand::Rng::gen_range` with the bounds `0` and `bound` on the
/// generator that `rand::thread_rng` returns. The contract claims only the
/// range of the result. `gen_range` panics on an empty range, which `bound >
/// 0` excludes; what is drawn differs from call to call.
#[verifier::external_body]
pub(crate) fn random_below(bound: usize) -> (r: usize)
    requires
        bound > 0,
    ensures
        r < bound,
{
    rand::Rng::gen_range(&mut rand::thread_rng(), 0, bound)
}

} // verus!
