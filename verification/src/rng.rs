//! The library's only source of entropy: uniform draws from a half-open
//! range, delegated to the `rand` crate.

use rand::Rng;
use vstd::prelude::*;

verus! {

/// Relies on `rand::thread_rng` and `rand::Rng::gen_range` over `0..bound`:
/// the draw is uniform over that non-empty half-open range, so it is always
/// strictly below `bound`.
#[verifier::external_body]
pub(crate) fn random_index_below(bound: usize) -> (r: usize)
    requires
        bound > 0,
    ensures
        r < bound,
{
    rand::thread_rng().gen_range(0..bound)
}

/// Relies on `rand::thread_rng` and `rand::Rng::gen_range` over `0..bound`:
/// the draw is uniform over that non-empty half-open range, so it lies in
/// `[0, bound)`.
#[verifier::external_body]
pub(crate) fn random_i128_below(bound: i128) -> (r: i128)
    requires
        bound > 0,
    ensures
        0 <= r < bound,
{
    rand::thread_rng().gen_range(0..bound)
}

} // verus!
