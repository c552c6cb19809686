//! Picking from sequences: facts about `Seq::filter_map` that the laws of
//! the vault rest on.

use vstd::prelude::*;

verus! {

/// Picking from two sequences, one after the other, is picking from the two
/// joined.
pub proof fn lemma_filter_map_join<A, B>(a: Seq<A>, b: Seq<A>, f: spec_fn(A) -> Option<B>)
    ensures
        (a + b).filter_map(f) == a.filter_map(f) + b.filter_map(f),
    decreases b.len(),
{
    if b.len() == 0 {
        assert(a + b =~= a);
    } else {
        lemma_filter_map_join(a, b.drop_last(), f);
        assert((a + b).drop_last() =~= a + b.drop_last());
    }
}

/// Two sequences of one length, picked from by two functions that agree
/// place by place, leave the same.
pub proof fn lemma_filter_map_pointwise<A, B, C>(
    a: Seq<A>,
    b: Seq<B>,
    f: spec_fn(A) -> Option<C>,
    g: spec_fn(B) -> Option<C>,
)
    requires
        a.len() == b.len(),
        forall|i: int| 0 <= i < a.len() ==> f(#[trigger] a[i]) == g(b[i]),
    ensures
        a.filter_map(f) == b.filter_map(g),
    decreases a.len(),
{
    if a.len() > 0 {
        let a0 = a.drop_last();
        let b0 = b.drop_last();
        assert(forall|i: int| 0 <= i < a0.len() ==> a0[i] == a[i] && b0[i] == b[i]);
        lemma_filter_map_pointwise(a0, b0, f, g);
    }
}

/// A function that picks from every item leaves as many as there were, each
/// in its place.
pub proof fn lemma_filter_map_keeps_all<A, B>(a: Seq<A>, b: Seq<B>, f: spec_fn(A) -> Option<B>)
    requires
        a.len() == b.len(),
        forall|i: int| 0 <= i < a.len() ==> f(#[trigger] a[i]) == Some(b[i]),
    ensures
        a.filter_map(f) == b,
    decreases a.len(),
{
    if a.len() > 0 {
        let a0 = a.drop_last();
        let b0 = b.drop_last();
        assert(forall|i: int| 0 <= i < a0.len() ==> a0[i] == a[i] && b0[i] == b[i]);
        lemma_filter_map_keeps_all(a0, b0, f);
    }
}

/// A function that picks from no item leaves nothing.
pub proof fn lemma_filter_map_keeps_none<A, B>(a: Seq<A>, f: spec_fn(A) -> Option<B>)
    requires
        forall|i: int| 0 <= i < a.len() ==> f(#[trigger] a[i]) is None,
    ensures
        a.filter_map(f) == Seq::<B>::empty(),
    decreases a.len(),
{
    if a.len() > 0 {
        let a0 = a.drop_last();
        assert(forall|i: int| 0 <= i < a0.len() ==> a0[i] == a[i]);
        lemma_filter_map_keeps_none(a0, f);
    }
}

} // verus!
