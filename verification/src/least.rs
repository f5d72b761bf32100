//! The least and the greatest position at which a property holds, for the
//! choices that the library's specifications make among positions.
use vstd::prelude::*;

verus! {

/// When `p` holds at `k`, it holds at a least position no later than `k`.
pub proof fn lemma_least_witness(p: spec_fn(int) -> bool, lo: int, k: int)
    requires
        lo <= k,
        p(k),
    ensures
        exists|i: int| lo <= i <= k && #[trigger] p(i) && forall|j: int| lo <= j < i ==> !#[trigger] p(j),
    decreases k - lo,
{
    if forall|j: int| lo <= j < k ==> !#[trigger] p(j) {
        assert(lo <= k <= k && p(k));
    } else {
        let j = choose|j: int| lo <= j < k && #[trigger] p(j);
        lemma_least_witness(p, lo, j);
    }
}

/// When `p` holds at `k` and at no position from `hi` on, it holds at a
/// greatest position no earlier than `k`.
pub proof fn lemma_greatest_witness(p: spec_fn(int) -> bool, k: int, hi: int)
    requires
        k < hi,
        p(k),
        forall|j: int| hi <= j ==> !#[trigger] p(j),
    ensures
        exists|i: int| k <= i < hi && #[trigger] p(i) && forall|j: int| i < j ==> !#[trigger] p(j),
    decreases hi - k,
{
    if forall|j: int| k < j ==> !#[trigger] p(j) {
        assert(k <= k < hi && p(k));
    } else {
        let j = choose|j: int| k < j && #[trigger] p(j);
        lemma_greatest_witness(p, j, hi);
    }
}

} // verus!
