//! Finding the first element of a sequence that has a property.

use vstd::prelude::*;

verus! {

/// `i` is the first position of `s` whose element satisfies `p`.
pub open spec fn is_first<T>(s: Seq<T>, p: spec_fn(T) -> bool, i: int) -> bool {
    &&& 0 <= i < s.len()
    &&& p(s[i])
    &&& forall|j: int| 0 <= j < i ==> !p(#[trigger] s[j])
}

/// The first position of `s` whose element satisfies `p`, if there is one.
pub open spec fn first_where<T>(s: Seq<T>, p: spec_fn(T) -> bool) -> Option<int> {
    if exists|i: int| is_first(s, p, i) {
        Some(choose|i: int| is_first(s, p, i))
    } else {
        None
    }
}

/// A position that is first is the one that `first_where` gives.
pub proof fn lemma_first_found<T>(s: Seq<T>, p: spec_fn(T) -> bool, i: int)
    requires
        is_first(s, p, i),
    ensures
        first_where(s, p) == Some(i),
{
    let k = choose|k: int| is_first(s, p, k);
    if k < i {
        assert(!p(s[k]));
    } else if i < k {
        assert(!p(s[i]));
    }
}

/// Where no element satisfies `p`, `first_where` gives nothing.
pub proof fn lemma_first_absent<T>(s: Seq<T>, p: spec_fn(T) -> bool)
    requires
        forall|j: int| 0 <= j < s.len() ==> !p(#[trigger] s[j]),
    ensures
        first_where(s, p) is None,
{
    if exists|i: int| is_first(s, p, i) {
        let k = choose|k: int| is_first(s, p, k);
        assert(!p(s[k]));
    }
}

/// What `first_where` gives is a first position, and nothing is given only
/// where no element satisfies `p`.
pub proof fn lemma_first_where<T>(s: Seq<T>, p: spec_fn(T) -> bool)
    ensures
        match first_where(s, p) {
            Some(i) => is_first(s, p, i),
            None => forall|j: int| 0 <= j < s.len() ==> !p(#[trigger] s[j]),
        },
{
    if !(exists|i: int| is_first(s, p, i)) {
        assert forall|j: int| 0 <= j < s.len() implies !p(#[trigger] s[j]) by {
            if p(s[j]) {
                lemma_least_exists(s, p, j);
            }
        }
    }
}

proof fn lemma_least_exists<T>(s: Seq<T>, p: spec_fn(T) -> bool, j: int)
    requires
        0 <= j < s.len(),
        p(s[j]),
    ensures
        exists|i: int| is_first(s, p, i),
    decreases j,
{
    if exists|k: int| 0 <= k < j && p(#[trigger] s[k]) {
        let k = choose|k: int| 0 <= k < j && p(#[trigger] s[k]);
        lemma_least_exists(s, p, k);
    } else {
        assert(is_first(s, p, j));
    }
}

} // verus!
