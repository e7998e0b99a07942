//! Ranking by score: a stable sort of (score, index) pairs, highest score first.

use vstd::prelude::*;

verus! {

/// `x` inserted into `s` after every pair that scores at least as high.
pub open spec fn insert_ranked(s: Seq<(int, int)>, x: (int, int)) -> Seq<(int, int)>
    decreases s.len(),
{
    if s.len() == 0 {
        seq![x]
    } else if s.last().0 >= x.0 {
        s.push(x)
    } else {
        insert_ranked(s.drop_last(), x).push(s.last())
    }
}

/// Stable sort by descending score, written as insertion sort; it is the one
/// sequence that is ranked and holds the pairs of each score in their input
/// order (`lemma_rank_desc`, `lemma_rank_desc_stable`,
/// `lemma_stably_ranked_unique`).
pub open spec fn rank_desc(s: Seq<(int, int)>) -> Seq<(int, int)>
    decreases s.len(),
{
    if s.len() == 0 {
        seq![]
    } else {
        insert_ranked(rank_desc(s.drop_last()), s.last())
    }
}

pub open spec fn ranked(s: Seq<(int, int)>) -> bool {
    forall|i: int, j: int| 0 <= i < j < s.len() ==> s[i].0 >= s[j].0
}

pub open spec fn pair_views(v: Seq<(i64, usize)>) -> Seq<(int, int)> {
    v.map_values(|p: (i64, usize)| (p.0 as int, p.1 as int))
}

pub open spec fn ranked_pos(s: Seq<(int, int)>, x: (int, int)) -> int
    decreases s.len(),
{
    if s.len() == 0 {
        0
    } else if s.last().0 >= x.0 {
        s.len() as int
    } else {
        ranked_pos(s.drop_last(), x)
    }
}

proof fn lemma_ranked_pos(s: Seq<(int, int)>, x: (int, int))
    ensures
        0 <= ranked_pos(s, x) <= s.len(),
        forall|k: int| ranked_pos(s, x) <= k < s.len() ==> s[k].0 < x.0,
        ranked_pos(s, x) == 0 || s[ranked_pos(s, x) - 1].0 >= x.0,
    decreases s.len(),
{
    if s.len() > 0 && s.last().0 < x.0 {
        let d = s.drop_last();
        lemma_ranked_pos(d, x);
        assert forall|k: int| ranked_pos(s, x) <= k < s.len() implies s[k].0 < x.0 by {
            if k < d.len() {
                assert(s[k] == d[k]);
            }
        }
        if ranked_pos(s, x) > 0 {
            assert(s[ranked_pos(s, x) - 1] == d[ranked_pos(s, x) - 1]);
        }
    }
}

proof fn lemma_insert_ranked_at(s: Seq<(int, int)>, x: (int, int), j: int)
    requires
        0 <= j <= s.len(),
        forall|k: int| j <= k < s.len() ==> s[k].0 < x.0,
        j == 0 || s[j - 1].0 >= x.0,
    ensures
        insert_ranked(s, x) == s.subrange(0, j).push(x) + s.subrange(j, s.len() as int),
    decreases s.len(),
{
    if s.len() == 0 {
        assert(s.subrange(0, j).push(x) + s.subrange(j, s.len() as int) =~= seq![x]);
    } else if s.last().0 >= x.0 {
        assert(j == s.len());
        assert(s.subrange(0, j).push(x) + s.subrange(j, s.len() as int) =~= s.push(x));
    } else {
        let d = s.drop_last();
        lemma_insert_ranked_at(d, x, j);
        assert(d.subrange(0, j).push(x) + d.subrange(j, d.len() as int) + seq![s.last()] =~= s.subrange(
            0,
            j,
        ).push(x) + s.subrange(j, s.len() as int));
    }
}

pub proof fn lemma_insert_ranked(s: Seq<(int, int)>, x: (int, int))
    requires
        ranked(s),
    ensures
        ranked(insert_ranked(s, x)),
        insert_ranked(s, x).len() == s.len() + 1,
        forall|k: int| 0 <= k < insert_ranked(s, x).len() ==> (#[trigger] insert_ranked(s, x)[k] == x
            || s.contains(insert_ranked(s, x)[k])),
{
    lemma_ranked_pos(s, x);
    let j = ranked_pos(s, x);
    lemma_insert_ranked_at(s, x, j);
    let r = s.subrange(0, j).push(x) + s.subrange(j, s.len() as int);
    assert forall|a: int, b: int| 0 <= a < b < r.len() implies r[a].0 >= r[b].0 by {
        if b < j {
            assert(r[a] == s[a] && r[b] == s[b]);
        } else if b == j {
            assert(r[a] == s[a]);
            assert(s[a].0 >= s[j - 1].0);
        } else if a == j {
            assert(r[b] == s[b - 1]);
        } else if a < j {
            assert(r[a] == s[a] && r[b] == s[b - 1]);
        } else {
            assert(r[a] == s[a - 1] && r[b] == s[b - 1]);
        }
    }
    assert forall|k: int| 0 <= k < r.len() implies (#[trigger] r[k] == x || s.contains(r[k])) by {
        if k < j {
            assert(r[k] == s[k]);
        } else if k > j {
            assert(r[k] == s[k - 1]);
        }
    }
}

/// Ranking is ordered, keeps the length, and draws every pair from the input.
pub proof fn lemma_rank_desc(s: Seq<(int, int)>)
    ensures
        ranked(rank_desc(s)),
        rank_desc(s).len() == s.len(),
        forall|k: int| 0 <= k < rank_desc(s).len() ==> s.contains(#[trigger] rank_desc(s)[k]),
    decreases s.len(),
{
    if s.len() > 0 {
        let d = s.drop_last();
        lemma_rank_desc(d);
        lemma_insert_ranked(rank_desc(d), s.last());
        assert forall|k: int| 0 <= k < rank_desc(s).len() implies s.contains(#[trigger] rank_desc(s)[k]) by {
            let e = rank_desc(s)[k];
            if e == s.last() {
                assert(s[s.len() - 1] == e);
            } else {
                assert(rank_desc(d).contains(e));
                let m = choose|m: int| 0 <= m < rank_desc(d).len() && rank_desc(d)[m] == e;
                assert(d.contains(e));
                let m2 = choose|m2: int| 0 <= m2 < d.len() && d[m2] == e;
                assert(s[m2] == e);
            }
        }
    }
}

/// The pairs with score `v`.
pub open spec fn score_is(v: int) -> spec_fn((int, int)) -> bool {
    |p: (int, int)| p.0 == v
}

proof fn lemma_insert_ranked_keeps(t: Seq<(int, int)>, x: (int, int))
    requires
        ranked(t),
    ensures
        insert_ranked(t, x).to_multiset() =~= t.to_multiset().insert(x),
        forall|v: int|
            #[trigger] insert_ranked(t, x).filter(score_is(v)) == if x.0 == v {
                t.filter(score_is(v)).push(x)
            } else {
                t.filter(score_is(v))
            },
{
    broadcast use vstd::seq_lib::group_to_multiset_ensures, vstd::seq_lib::lemma_multiset_commutative;
    lemma_ranked_pos(t, x);
    let j = ranked_pos(t, x);
    lemma_insert_ranked_at(t, x, j);
    let a = t.subrange(0, j);
    let b = t.subrange(j, t.len() as int);
    assert(t =~= a + b);
    assert(insert_ranked(t, x) == a.push(x) + b);
    assert(insert_ranked(t, x).to_multiset() =~= a.push(x).to_multiset().add(b.to_multiset()));
    assert(t.to_multiset() =~= a.to_multiset().add(b.to_multiset()));
    assert forall|v: int|
        #[trigger] insert_ranked(t, x).filter(score_is(v)) == if x.0 == v {
            t.filter(score_is(v)).push(x)
        } else {
            t.filter(score_is(v))
        } by {
        let p = score_is(v);
        Seq::filter_distributes_over_add(a.push(x), b, p);
        Seq::filter_distributes_over_add(a, b, p);
        crate::util::seqs::lemma_filter_push(a, x, p);
        if x.0 == v {
            assert forall|k: int| 0 <= k < b.len() implies !p(#[trigger] b[k]) by {
                assert(b[k] == t[j + k]);
            }
            crate::util::seqs::lemma_filter_none(b, p);
            assert(a.filter(p) + b.filter(p) =~= a.filter(p));
            assert(a.filter(p).push(x) + b.filter(p) =~= a.filter(p).push(x));
        }
    }
}

/// Ranking is a stable sort: it keeps the pairs as they were (as a multiset),
/// and the pairs of any one score come out in their input order.
pub proof fn lemma_rank_desc_stable(s: Seq<(int, int)>)
    ensures
        rank_desc(s).to_multiset() =~= s.to_multiset(),
        forall|v: int| #[trigger] rank_desc(s).filter(score_is(v)) == s.filter(score_is(v)),
    decreases s.len(),
{
    broadcast use vstd::seq_lib::group_to_multiset_ensures;
    if s.len() == 0 {
        assert forall|v: int| #[trigger] rank_desc(s).filter(score_is(v)) == s.filter(score_is(v)) by {
            assert(rank_desc(s) =~= s);
        }
    } else {
        let d = s.drop_last();
        let x = s.last();
        assert(d.push(x) =~= s);
        lemma_rank_desc_stable(d);
        lemma_rank_desc(d);
        lemma_insert_ranked_keeps(rank_desc(d), x);
        assert forall|v: int| #[trigger] rank_desc(s).filter(score_is(v)) == s.filter(score_is(v)) by {
            crate::util::seqs::lemma_filter_push(d, x, score_is(v));
            assert(rank_desc(d).filter(score_is(v)) == d.filter(score_is(v)));
            assert(insert_ranked(rank_desc(d), x).filter(score_is(v)) == if x.0 == v {
                rank_desc(d).filter(score_is(v)).push(x)
            } else {
                rank_desc(d).filter(score_is(v))
            });
        }
    }
}

/// `r` is `s` stably sorted by descending score: ranked, and holding the pairs
/// of each score in their order in `s`.
pub open spec fn stably_ranked(r: Seq<(int, int)>, s: Seq<(int, int)>) -> bool {
    &&& ranked(r)
    &&& forall|v: int| #[trigger] r.filter(score_is(v)) == s.filter(score_is(v))
}

/// A stable descending sort has one outcome, `rank_desc`.
pub proof fn lemma_stably_ranked_unique(r: Seq<(int, int)>, s: Seq<(int, int)>)
    requires
        stably_ranked(r, s),
    ensures
        r == rank_desc(s),
{
    lemma_rank_desc(s);
    lemma_rank_desc_stable(s);
    lemma_same_ranked_groups(r, rank_desc(s));
}

proof fn lemma_same_ranked_groups(r1: Seq<(int, int)>, r2: Seq<(int, int)>)
    requires
        ranked(r1),
        ranked(r2),
        forall|v: int| #[trigger] r1.filter(score_is(v)) == r2.filter(score_is(v)),
    ensures
        r1 == r2,
    decreases r1.len() + r2.len(),
{
    if r1.len() == 0 && r2.len() == 0 {
        assert(r1 =~= r2);
    } else if r1.len() == 0 {
        let y = r2.last();
        assert(r2.drop_last().push(y) =~= r2);
        crate::util::seqs::lemma_filter_push(r2.drop_last(), y, score_is(y.0));
        assert(r1.filter(score_is(y.0)) == r2.filter(score_is(y.0)));
        crate::util::seqs::lemma_filter_none(r1, score_is(y.0));
        assert(r2.filter(score_is(y.0)).len() > 0);
    } else if r2.len() == 0 {
        let x = r1.last();
        assert(r1.drop_last().push(x) =~= r1);
        crate::util::seqs::lemma_filter_push(r1.drop_last(), x, score_is(x.0));
        assert(r1.filter(score_is(x.0)) == r2.filter(score_is(x.0)));
        crate::util::seqs::lemma_filter_none(r2, score_is(x.0));
    } else {
        let x = r1.last();
        let y = r2.last();
        let d1 = r1.drop_last();
        let d2 = r2.drop_last();
        assert(d1.push(x) =~= r1);
        assert(d2.push(y) =~= r2);
        crate::util::seqs::lemma_filter_push(d1, x, score_is(x.0));
        crate::util::seqs::lemma_filter_push(d2, y, score_is(y.0));
        crate::util::seqs::lemma_filter_push(d1, x, score_is(y.0));
        crate::util::seqs::lemma_filter_push(d2, y, score_is(x.0));
        // x occurs in r2 and y in r1, so neither score is below the other.
        assert(r1.filter(score_is(x.0)) == r2.filter(score_is(x.0)));
        assert(r1.filter(score_is(y.0)) == r2.filter(score_is(y.0)));
        if y.0 != x.0 {
            assert(r2.filter(score_is(x.0)).len() > 0);
            if forall|m: int| 0 <= m < r2.len() ==> !score_is(x.0)(#[trigger] r2[m]) {
                crate::util::seqs::lemma_filter_none(r2, score_is(x.0));
            }
            let m = choose|m: int| 0 <= m < r2.len() && score_is(x.0)(#[trigger] r2[m]);
            assert(r2[m].0 >= r2[r2.len() - 1].0);
            assert(r1.filter(score_is(y.0)).len() > 0);
            if forall|k: int| 0 <= k < r1.len() ==> !score_is(y.0)(#[trigger] r1[k]) {
                crate::util::seqs::lemma_filter_none(r1, score_is(y.0));
            }
            let k = choose|k: int| 0 <= k < r1.len() && score_is(y.0)(#[trigger] r1[k]);
            assert(r1[k].0 >= r1[r1.len() - 1].0);
            assert(false);
        }
        assert(y.0 == x.0);
        assert(r1.filter(score_is(x.0)) == d1.filter(score_is(x.0)).push(x));
        assert(r2.filter(score_is(x.0)) == d2.filter(score_is(x.0)).push(y));
        assert(r1.filter(score_is(x.0)).last() == x);
        assert(r2.filter(score_is(x.0)).last() == y);
        assert(x == y);
        assert forall|v: int| #[trigger] d1.filter(score_is(v)) == d2.filter(score_is(v)) by {
            crate::util::seqs::lemma_filter_push(d1, x, score_is(v));
            crate::util::seqs::lemma_filter_push(d2, y, score_is(v));
            assert(r1.filter(score_is(v)) == r2.filter(score_is(v)));
            if x.0 == v {
                assert(d1.filter(score_is(v)) =~= r1.filter(score_is(v)).drop_last());
                assert(d2.filter(score_is(v)) =~= r2.filter(score_is(v)).drop_last());
            }
        }
        assert(ranked(d1)) by {
            assert forall|a: int, b: int| 0 <= a < b < d1.len() implies d1[a].0 >= d1[b].0 by {
                assert(d1[a] == r1[a] && d1[b] == r1[b]);
            }
        }
        assert(ranked(d2)) by {
            assert forall|a: int, b: int| 0 <= a < b < d2.len() implies d2[a].0 >= d2[b].0 by {
                assert(d2[a] == r2[a] && d2[b] == r2[b]);
            }
        }
        lemma_same_ranked_groups(d1, d2);
    }
}

/// Inserts `x` into the ranked `out` after every pair that scores at least as high.
pub fn insert_ranked_exec(out: &mut Vec<(i64, usize)>, x: (i64, usize))
    requires
        ranked(pair_views(old(out)@)),
    ensures
        pair_views(final(out)@) == insert_ranked(pair_views(old(out)@), (x.0 as int, x.1 as int)),
        ranked(pair_views(final(out)@)),
{
    let ghost s = pair_views(out@);
    let ghost xv = (x.0 as int, x.1 as int);
    let mut j: usize = out.len();
    while j > 0 && out[j - 1].0 < x.0
        invariant
            s == pair_views(out@),
            xv == (x.0 as int, x.1 as int),
            0 <= j <= out@.len(),
            forall|k: int| j <= k < s.len() ==> s[k].0 < xv.0,
        decreases j,
    {
        proof {
            assert(s[j - 1].0 == out@[j - 1].0);
        }
        j = j - 1;
    }
    proof {
        lemma_insert_ranked_at(s, xv, j as int);
        lemma_insert_ranked(s, xv);
    }
    out.insert(j, x);
    proof {
        assert(pair_views(out@) =~= s.subrange(0, j as int).push(xv) + s.subrange(
            j as int,
            s.len() as int,
        ));
    }
}

} // verus!
