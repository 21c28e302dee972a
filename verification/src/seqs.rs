//! Specification helpers on sequences: searching for the first position that
//! satisfies a predicate, and mapping every element to a run of results.

use vstd::prelude::*;

verus! {

/// The least position at or after `from` and below `n` at which `p` holds,
/// or `n` where there is none.
pub open spec fn first_index_from(n: int, p: spec_fn(int) -> bool, from: int) -> int
    decreases n - from,
{
    if from >= n {
        n
    } else if p(from) {
        from
    } else {
        first_index_from(n, p, from + 1)
    }
}

/// The least position below `n` at which `p` holds, or `n` where there is none.
pub open spec fn first_index(n: int, p: spec_fn(int) -> bool) -> int {
    first_index_from(n, p, 0)
}

/// `k` is the least position below `n` at which `p` holds, or `n` if `p`
/// holds nowhere below `n`.
pub open spec fn is_first_index(n: int, p: spec_fn(int) -> bool, k: int) -> bool {
    &&& 0 <= k <= n
    &&& k < n ==> p(k)
    &&& forall|j: int| 0 <= j < k ==> !#[trigger] p(j)
}

/// `first_index_from` yields the least position from `from` on that
/// satisfies the predicate.
pub proof fn lemma_first_index_from(n: int, p: spec_fn(int) -> bool, from: int)
    requires
        0 <= from <= n,
    ensures
        from <= first_index_from(n, p, from) <= n,
        first_index_from(n, p, from) < n ==> p(first_index_from(n, p, from)),
        forall|j: int| from <= j < first_index_from(n, p, from) ==> !#[trigger] p(j),
    decreases n - from,
{
    if from < n && !p(from) {
        lemma_first_index_from(n, p, from + 1);
    }
}

/// `first_index` yields the least position that satisfies the predicate.
pub proof fn lemma_first_index(n: int, p: spec_fn(int) -> bool)
    requires
        0 <= n,
    ensures
        is_first_index(n, p, first_index(n, p)),
{
    lemma_first_index_from(n, p, 0);
}

/// There is only one least position.
pub proof fn lemma_first_index_unique(n: int, p: spec_fn(int) -> bool, k: int)
    requires
        is_first_index(n, p, k),
    ensures
        first_index(n, p) == k,
{
    lemma_first_index_from(n, p, 0);
}

/// How many positions below `n` satisfy `p`.
pub open spec fn count_below(n: int, p: spec_fn(int) -> bool) -> nat
    decreases n,
{
    if n <= 0 {
        0
    } else if p(n - 1) {
        count_below(n - 1, p) + 1
    } else {
        count_below(n - 1, p)
    }
}

/// The runs `f(0)`, `f(1)`, up to `f(n - 1)`, one after the other.
pub open spec fn concat_range<U>(n: int, f: spec_fn(int) -> Seq<U>) -> Seq<U>
    decreases n,
{
    if n <= 0 {
        Seq::<U>::empty()
    } else {
        concat_range(n - 1, f) + f(n - 1)
    }
}

/// Where nothing comes out, no position gave anything.
pub proof fn lemma_concat_range_none<U>(n: int, f: spec_fn(int) -> Seq<U>, i: int)
    requires
        concat_range(n, f).len() == 0,
        0 <= i < n,
    ensures
        f(i).len() == 0,
    decreases n,
{
    if i < n - 1 {
        lemma_concat_range_none(n - 1, f, i);
    }
}

/// Every element of the result comes from one of the runs.
pub proof fn lemma_concat_range_origin<U>(n: int, f: spec_fn(int) -> Seq<U>, k: int) -> (r: (
    int,
    int,
))
    requires
        0 <= k < concat_range(n, f).len(),
    ensures
        0 <= r.0 < n,
        0 <= r.1 < f(r.0).len(),
        concat_range(n, f)[k] == f(r.0)[r.1],
    decreases n,
{
    let head = concat_range(n - 1, f);
    if k < head.len() {
        lemma_concat_range_origin(n - 1, f, k)
    } else {
        (n - 1, k - head.len())
    }
}

/// Every element of a run is in the result.
pub proof fn lemma_concat_range_member<U>(n: int, f: spec_fn(int) -> Seq<U>, i: int, j: int) -> (k:
    int)
    requires
        0 <= i < n,
        0 <= j < f(i).len(),
    ensures
        0 <= k < concat_range(n, f).len(),
        concat_range(n, f)[k] == f(i)[j],
    decreases n,
{
    let head = concat_range(n - 1, f);
    if i < n - 1 {
        lemma_concat_range_member(n - 1, f, i, j)
    } else {
        head.len() + j
    }
}

} // verus!
