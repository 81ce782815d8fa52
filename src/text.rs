//! Character sequences and a first-match search shared by the other modules.
use vstd::prelude::*;
use vstd::std_specs::iter::IteratorSpec;

verus! {

/// The index of the first element satisfying `p`, if any.
pub open spec fn first_index<A>(s: Seq<A>, p: spec_fn(A) -> bool) -> Option<int> {
    if exists|i: int| 0 <= i < s.len() && p(s[i]) && forall|j: int| 0 <= j < i ==> !p(s[j]) {
        Some(choose|i: int| 0 <= i < s.len() && p(s[i]) && forall|j: int| 0 <= j < i ==> !p(s[j]))
    } else {
        None
    }
}

pub proof fn lemma_first_index_found<A>(s: Seq<A>, p: spec_fn(A) -> bool, i: int)
    requires
        0 <= i < s.len(),
        p(s[i]),
        forall|j: int| 0 <= j < i ==> !p(s[j]),
    ensures
        first_index(s, p) == Some(i),
{
    let c = choose|c: int| 0 <= c < s.len() && p(s[c]) && forall|j: int| 0 <= j < c ==> !p(s[j]);
    assert(0 <= c < s.len() && p(s[c]) && forall|j: int| 0 <= j < c ==> !p(s[j]));
    if c < i {
        assert(!p(s[c]));
    } else if c > i {
        assert(!p(s[i]));
    }
}

pub proof fn lemma_first_index_none<A>(s: Seq<A>, p: spec_fn(A) -> bool)
    requires
        forall|j: int| 0 <= j < s.len() ==> !p(s[j]),
    ensures
        first_index(s, p) == None::<int>,
{
}

/// Sequences that agree on a predicate everywhere have the same first match.
pub proof fn lemma_first_index_same<A>(s1: Seq<A>, s2: Seq<A>, p: spec_fn(A) -> bool)
    requires
        s1.len() == s2.len(),
        forall|i: int| 0 <= i < s1.len() ==> p(s1[i]) == p(s2[i]),
    ensures
        first_index(s1, p) == first_index(s2, p),
{
    if exists|i: int| 0 <= i < s1.len() && p(s1[i]) && forall|j: int| 0 <= j < i ==> !p(s1[j]) {
        let i = choose|i: int| 0 <= i < s1.len() && p(s1[i]) && forall|j: int| 0 <= j < i ==> !p(s1[j]);
        lemma_first_index_found(s1, p, i);
        lemma_first_index_found(s2, p, i);
    } else if exists|i: int| 0 <= i < s2.len() && p(s2[i]) && forall|j: int| 0 <= j < i ==> !p(s2[j]) {
        let i = choose|i: int| 0 <= i < s2.len() && p(s2[i]) && forall|j: int| 0 <= j < i ==> !p(s2[j]);
        assert(p(s1[i]) && forall|j: int| 0 <= j < i ==> !p(s1[j]));
    }
}

/// Filtering a prefix one element longer adds that element where it passes.
pub proof fn lemma_filter_step<A>(s: Seq<A>, pred: spec_fn(A) -> bool, k: int)
    requires
        0 <= k < s.len(),
    ensures
        s.subrange(0, k + 1).filter(pred) == if pred(s[k]) {
            s.subrange(0, k).filter(pred).push(s[k])
        } else {
            s.subrange(0, k).filter(pred)
        },
{
    reveal(Seq::filter);
    assert(s.subrange(0, k + 1).drop_last() =~= s.subrange(0, k));
}

/// Filtering nothing gives nothing.
pub proof fn lemma_filter_empty<A>(s: Seq<A>, pred: spec_fn(A) -> bool)
    ensures
        s.subrange(0, 0).filter(pred) == Seq::<A>::empty(),
{
    reveal(Seq::filter);
    assert(s.subrange(0, 0) =~= Seq::<A>::empty());
}

/// The characters of a string slice.
pub fn chars_of(s: &str) -> (r: Vec<char>)
    ensures
        r@ == s@,
{
    let mut r: Vec<char> = Vec::new();
    let mut it = s.chars();
    loop
        invariant
            r@ + it.remaining() == s@,
            it.obeys_prophetic_iter_laws(),
            it.decrease() is Some,
        decreases it.decrease()->0,
    {
        match it.next() {
            Some(c) => {
                r.push(c);
            },
            None => {
                assert(it.remaining().len() == 0);
                assert(r@ =~= s@);
                return r;
            },
        }
    }
}

} // verus!
