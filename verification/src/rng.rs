//! Thin trusted wrappers around the `rand` crate. Each wrapper states only
//! what holds of every possible outcome: randomness gives no more.

use vstd::prelude::*;
use rand::Rng;
use rand::seq::IteratorRandom;

verus! {

/// Relies on rand's `Rng::gen_range` over `0..n`: the sampled value lies in
/// the (non-empty) range; `gen_range` panics on an empty range.
#[verifier::external_body]
pub(crate) fn random_index(n: usize) -> (r: usize)
    requires
        n >= 1,
    ensures
        r < n,
{
    rand::thread_rng().gen_range(0..n)
}

/// Relies on rand's `Rng::gen_range` over `lo..=hi`: the sampled value lies
/// in the (non-empty) inclusive range; `gen_range` panics on an empty range.
#[verifier::external_body]
pub(crate) fn random_i64_inclusive(lo: i64, hi: i64) -> (r: i64)
    requires
        lo <= hi,
    ensures
        lo <= r <= hi,
{
    rand::thread_rng().gen_range(lo..=hi)
}

/// Relies on rand's `IteratorRandom::choose_multiple` over `0..n`: it collects
/// `k` values from the iterator without repetition, or all `n` values when the
/// iterator has fewer than `k`.
#[verifier::external_body]
pub(crate) fn random_distinct_indices(n: usize, k: usize) -> (r: Vec<usize>)
    ensures
        r@.len() == if k <= n { k as int } else { n as int },
        forall|i: int| 0 <= i < r@.len() ==> #[trigger] r@[i] < n,
        forall|i: int, j: int| 0 <= i < j < r@.len() ==> r@[i] != r@[j],
{
    (0..n).choose_multiple(&mut rand::thread_rng(), k)
}

} // verus!
