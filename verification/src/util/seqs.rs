//! Facts about filtered sequences.

use vstd::prelude::*;

verus! {

/// Filtering a prefix one element longer adds that element when it passes.
pub proof fn lemma_filter_prefix_step<A>(s: Seq<A>, i: int, p: spec_fn(A) -> bool)
    requires
        0 <= i < s.len(),
    ensures
        s.subrange(0, i + 1).filter(p) == (if p(s[i]) {
            s.subrange(0, i).filter(p).push(s[i])
        } else {
            s.subrange(0, i).filter(p)
        }),
{
    reveal(Seq::filter);
    assert(s.subrange(0, i + 1).drop_last() =~= s.subrange(0, i));
    assert(s.subrange(0, i + 1).last() == s[i]);
}

/// Filtering after a push adds the pushed element when it passes.
pub proof fn lemma_filter_push<A>(s: Seq<A>, x: A, p: spec_fn(A) -> bool)
    ensures
        s.push(x).filter(p) == (if p(x) {
            s.filter(p).push(x)
        } else {
            s.filter(p)
        }),
{
    reveal(Seq::filter);
    assert(s.push(x).drop_last() =~= s);
}

pub proof fn lemma_filter_empty_prefix<A>(s: Seq<A>, p: spec_fn(A) -> bool)
    ensures
        s.subrange(0, 0).filter(p) == Seq::<A>::empty(),
{
    reveal(Seq::filter);
    assert(s.subrange(0, 0) =~= Seq::<A>::empty());
}

pub proof fn lemma_filter_whole<A>(s: Seq<A>, p: spec_fn(A) -> bool)
    ensures
        s.subrange(0, s.len() as int).filter(p) == s.filter(p),
{
    assert(s.subrange(0, s.len() as int) =~= s);
}

/// Nothing passes, so nothing is kept.
pub proof fn lemma_filter_none<A>(s: Seq<A>, p: spec_fn(A) -> bool)
    requires
        forall|j: int| 0 <= j < s.len() ==> !p(#[trigger] s[j]),
    ensures
        s.filter(p) == Seq::<A>::empty(),
    decreases s.len(),
{
    reveal(Seq::filter);
    if s.len() > 0 {
        assert forall|j: int| 0 <= j < s.drop_last().len() implies !p(#[trigger] s.drop_last()[j]) by {
            assert(s.drop_last()[j] == s[j]);
        }
        lemma_filter_none(s.drop_last(), p);
        assert(!p(s[s.len() - 1]));
    } else {
        assert(s =~= Seq::<A>::empty());
    }
}

/// Filtering by `p` keeps the same elements as first filtering by a weaker
/// `q` and then by `p`.
pub proof fn lemma_filter_nested<A>(s: Seq<A>, p: spec_fn(A) -> bool, q: spec_fn(A) -> bool)
    requires
        forall|x: A| #[trigger] p(x) ==> q(x),
    ensures
        s.filter(p) == s.filter(q).filter(p),
    decreases s.len(),
{
    reveal(Seq::filter);
    if s.len() == 0 {
        assert(s.filter(q) =~= Seq::<A>::empty());
    } else {
        let t = s.drop_last();
        let x = s.last();
        assert(t.push(x) =~= s);
        lemma_filter_nested(t, p, q);
        lemma_filter_push(t, x, p);
        lemma_filter_push(t, x, q);
        lemma_filter_push(t.filter(q), x, p);
    }
}

} // verus!
