//! Searching a sequence from the front.
use vstd::prelude::*;

verus! {

/// The position of the first element that satisfies `p`.
pub open spec fn first_match<T>(s: Seq<T>, p: spec_fn(T) -> bool) -> Option<int> {
    if exists|i: int| 0 <= i < s.len() && p(s[i]) {
        Some(choose|i: int| 0 <= i < s.len() && p(s[i]) && forall|j: int| 0 <= j < i ==> !p(s[j]))
    } else {
        None
    }
}

/// The first match is at `i` when `i` matches and nothing before it does.
pub proof fn lemma_first_match_at<T>(s: Seq<T>, p: spec_fn(T) -> bool, i: int)
    requires
        0 <= i < s.len(),
        p(s[i]),
        forall|j: int| 0 <= j < i ==> !p(s[j]),
    ensures
        first_match(s, p) == Some(i),
{
    let w = choose|k: int| 0 <= k < s.len() && p(s[k]) && forall|j: int| 0 <= j < k ==> !p(s[j]);
    assert(0 <= w < s.len() && p(s[w]) && forall|j: int| 0 <= j < w ==> !p(s[j]));
    if w < i {
        assert(!p(s[w]));
    } else if w > i {
        assert(!p(s[i]));
    }
}

/// A first match matches, and nothing before it does.
pub proof fn lemma_first_match_some<T>(s: Seq<T>, p: spec_fn(T) -> bool)
    requires
        first_match(s, p) is Some,
    ensures
        0 <= first_match(s, p)->0 < s.len(),
        p(s[first_match(s, p)->0]),
        forall|j: int| 0 <= j < first_match(s, p)->0 ==> !p(s[j]),
{
    let i = choose|i: int| 0 <= i < s.len() && p(s[i]);
    assert(0 <= i < s.len() && p(s[i]));
    lemma_exists_first(s, p, i);
}

proof fn lemma_exists_first<T>(s: Seq<T>, p: spec_fn(T) -> bool, k: int)
    requires
        0 <= k < s.len(),
        p(s[k]),
    ensures
        exists|i: int| 0 <= i < s.len() && p(s[i]) && forall|j: int| 0 <= j < i ==> !p(s[j]),
    decreases k,
{
    if exists|j: int| 0 <= j < k && p(s[j]) {
        let j = choose|j: int| 0 <= j < k && p(s[j]);
        lemma_exists_first(s, p, j);
    } else {
        assert(forall|j: int| 0 <= j < k ==> !p(s[j]));
    }
}

} // verus!
