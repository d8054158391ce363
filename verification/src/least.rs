//! The least index with a property.
use vstd::prelude::*;

verus! {

/// Whether `i` is the least natural number for which `p` holds.
pub open spec fn is_least(p: spec_fn(int) -> bool, i: int) -> bool {
    0 <= i && p(i) && forall|j: int| 0 <= j < i ==> !#[trigger] p(j)
}

/// If `p` holds for some natural number `k`, there is a least one for which it holds.
pub proof fn lemma_least(p: spec_fn(int) -> bool, k: int) -> (i: int)
    requires
        0 <= k,
        p(k),
    ensures
        i <= k,
        is_least(p, i),
    decreases k,
{
    if exists|j: int| 0 <= j < k && #[trigger] p(j) {
        let j = choose|j: int| 0 <= j < k && #[trigger] p(j);
        lemma_least(p, j)
    } else {
        k
    }
}

} // verus!
