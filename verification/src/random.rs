use vstd::prelude::*;
use rand::Rng;

verus! {

/// Relies on `rand::Rng::gen_range` over `lo..hi` on a thread-local
/// generator: the result is drawn uniformly from `[lo, hi)`.  The range is
/// non-empty (`lo < hi`), so the call does not panic.
#[verifier::external_body]
pub fn random_in(lo: i64, hi: i64) -> (r: i64)
    requires
        lo < hi,
    ensures
        lo <= r < hi,
{
    rand::thread_rng().gen_range(lo..hi)
}

} // verus!
