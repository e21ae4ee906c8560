use vstd::prelude::*;

verus! {

/// `i` is the first position below `n` where `p` holds.
pub open spec fn is_first(n: int, p: spec_fn(int) -> bool, i: int) -> bool {
    &&& 0 <= i < n
    &&& p(i)
    &&& forall|j: int| 0 <= j < i ==> !#[trigger] p(j)
}

/// The first position below `n` where `p` holds, or -1 when there is none.
pub open spec fn first_index(n: int, p: spec_fn(int) -> bool) -> int {
    if exists|i: int| is_first(n, p, i) {
        choose|i: int| is_first(n, p, i)
    } else {
        -1
    }
}

/// A position where `p` holds and before which it does not is the first.
pub proof fn lemma_first_index_found(n: int, p: spec_fn(int) -> bool, i: int)
    requires
        0 <= i < n,
        p(i),
        forall|j: int| 0 <= j < i ==> !#[trigger] p(j),
    ensures
        first_index(n, p) == i,
{
    assert(is_first(n, p, i));
    let k = choose|k: int| is_first(n, p, k);
    assert(is_first(n, p, k));
    if k < i {
        assert(!p(k));
    }
    if k > i {
        assert(!p(i));
    }
}

/// When `p` holds nowhere below `n`, there is no first position.
pub proof fn lemma_first_index_none(n: int, p: spec_fn(int) -> bool)
    requires
        forall|j: int| 0 <= j < n ==> !#[trigger] p(j),
    ensures
        first_index(n, p) == -1,
{
    assert forall|i: int| !is_first(n, p, i) by {
        if 0 <= i < n {
            assert(!p(i));
        }
    }
}

/// A first position, when there is one, is where `p` first holds.
pub proof fn lemma_first_index_is_first(n: int, p: spec_fn(int) -> bool)
    ensures
        first_index(n, p) >= 0 ==> is_first(n, p, first_index(n, p)),
        first_index(n, p) >= -1,
{
}

/// Where `p` holds at some position below `n`, there is a first one.
pub proof fn lemma_first_index_exists(n: int, p: spec_fn(int) -> bool, j: int)
    requires
        0 <= j < n,
        p(j),
    ensures
        first_index(n, p) >= 0,
    decreases j,
{
    if forall|i: int| 0 <= i < j ==> !#[trigger] p(i) {
        lemma_first_index_found(n, p, j);
    } else {
        let i = choose|i: int| 0 <= i < j && #[trigger] p(i);
        lemma_first_index_exists(n, p, i);
    }
}

} // verus!
