//! The game's source of randomness.
use rand::Rng;
use vstd::prelude::*;

verus! {

/// Relies on `rand::Rng::gen_range` (rand 0.7) over `rand::thread_rng()`: a
/// value drawn from `[lo, hi)`; it panics when `lo >= hi`.
#[verifier::external_body]
pub(crate) fn random_in(lo: i64, hi: i64) -> (r: i64)
    requires
        lo < hi,
    ensures
        lo <= r < hi,
{
    rand::thread_rng().gen_range(lo, hi)
}

} // verus!
