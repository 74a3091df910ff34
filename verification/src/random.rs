//! The sources of randomness from which identifiers are drawn.
//!
//! Nothing here is deterministic: what is stated holds of every outcome.

use rand::Rng;
use std::hash::{BuildHasher, Hasher, RandomState};
use vstd::prelude::*;

verus! {

/// `RandomState::new` of the standard library makes a hasher factory with
/// keys that differ from one call to the next. Nothing is claimed of it.
pub assume_specification[ RandomState::new ]() -> (state: RandomState);

/// `BuildHasher::build_hasher` of the standard library, for `RandomState`,
/// makes a hasher from the keys of the factory. Nothing is claimed of it.
pub assume_specification[ <RandomState as BuildHasher>::build_hasher ](
    state: &RandomState,
) -> (hasher: std::hash::DefaultHasher);

/// A number that differs from one call to the next: what a freshly keyed
/// hasher yields before anything is written to it.
pub fn entropy() -> u64 {
    let state = RandomState::new();
    let hasher = state.build_hasher();
    hasher.finish()
}

/// `Rng::gen_range` of the `rand` crate, on the generator of the current
/// thread and the closed range from `lo` to `hi`: the number drawn lies in
/// that range. The call aborts on an empty range, which `requires` leaves
/// out.
#[verifier::external_body]
pub(crate) fn uniform(lo: u32, hi: u32) -> (n: u32)
    requires
        lo <= hi,
    ensures
        lo <= n <= hi,
{
    rand::thread_rng().gen_range(lo..=hi)
}

} // verus!
