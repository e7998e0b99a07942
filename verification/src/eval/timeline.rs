//! Historical timelines: normalized actions grouped by legislative object and
//! put in a fixed order.

use vstd::prelude::*;
use crate::eval::align::{
    align_action_to_senate_event, align_spec, is_consequential_action, is_consequential_spec,
};
use crate::model::error::SenateSimError;
use crate::model::evaluation::{HistoricalActionEvent, HistoricalTimeline};
use crate::model::records::NormalizedActionRecord;
use crate::util::order::{compare_text, lemma_text_order_basics, lemma_text_order_trans, text_order};

verus! {

/// The order of actions in timelines: by object, then date, then action id,
/// then action text; ties keep the input order (`ia`, `ib` are the input
/// positions).
pub open spec fn action_lt(a: NormalizedActionRecord, ia: int, b: NormalizedActionRecord, ib: int) -> bool {
    let c1 = text_order(a.object_id@, b.object_id@);
    if c1 != 0 {
        c1 < 0
    } else if a.action_date.day_number != b.action_date.day_number {
        a.action_date.day_number < b.action_date.day_number
    } else {
        let c2 = text_order(a.action_id@, b.action_id@);
        if c2 != 0 {
            c2 < 0
        } else {
            let c3 = text_order(a.action_text@, b.action_text@);
            if c3 != 0 {
                c3 < 0
            } else {
                ia < ib
            }
        }
    }
}

pub open spec fn index_lt(acts: Seq<NormalizedActionRecord>, i: int, j: int) -> bool {
    action_lt(acts[i], i, acts[j], j)
}

/// `p` lists each position below `n` exactly once.
pub open spec fn is_index_perm(p: Seq<usize>, n: int) -> bool {
    &&& p.len() == n
    &&& forall|k: int| 0 <= k < p.len() ==> p[k] < n
    &&& forall|k1: int, k2: int| 0 <= k1 < k2 < p.len() ==> p[k1] != p[k2]
}

pub open spec fn sorted_by_action(acts: Seq<NormalizedActionRecord>, p: Seq<usize>) -> bool {
    forall|k1: int, k2: int|
        0 <= k1 < k2 < p.len() ==> #[trigger] index_lt(acts, p[k1] as int, p[k2] as int)
}

/// `e` is the timeline entry of action `a`.
pub open spec fn event_matches(e: HistoricalActionEvent, a: NormalizedActionRecord) -> bool {
    &&& e.object_id@ == a.object_id@
    &&& e.action_date == a.action_date
    &&& e.raw_action_text@ == a.action_text@
    &&& e.normalized_action_category == a.category
    &&& e.aligned_senate_event == align_spec(a)
    &&& e.is_consequential == is_consequential_spec(a)
    &&& e.source_record_id matches Some(s) && s@ == a.action_id@
}

/// All entries of the timelines, in order.
pub open spec fn flat_events(ts: Seq<HistoricalTimeline>) -> Seq<HistoricalActionEvent>
    decreases ts.len(),
{
    if ts.len() == 0 {
        Seq::empty()
    } else {
        flat_events(ts.drop_last()) + ts.last().events@
    }
}

/// The entries `flat` are the actions taken in the order `p`, and `p` sorts
/// the actions.
pub open spec fn arranged_by(acts: Seq<NormalizedActionRecord>, flat: Seq<HistoricalActionEvent>, p: Seq<usize>) -> bool {
    &&& is_index_perm(p, acts.len() as int)
    &&& sorted_by_action(acts, p)
    &&& flat.len() == p.len()
    &&& forall|k: int| 0 <= k < flat.len() ==> event_matches(#[trigger] flat[k], acts[p[k] as int])
}

/// The timelines group the actions by object, objects in increasing order,
/// each timeline holding its object's actions sorted by date, action id and
/// text.
pub open spec fn timelines_of(acts: Seq<NormalizedActionRecord>, ts: Seq<HistoricalTimeline>) -> bool {
    &&& forall|i: int| 0 <= i < ts.len() ==> (#[trigger] ts[i]).events@.len() > 0
    &&& forall|i: int, j: int|
        0 <= i < ts.len() && 0 <= j < ts[i].events@.len() ==> (#[trigger] ts[i].events@[j]).object_id@
            == ts[i].object_id@
    &&& forall|i: int, j: int|
        0 <= i < j < ts.len() ==> text_order(#[trigger] ts[i].object_id@, #[trigger] ts[j].object_id@)
            < 0
    &&& exists|p: Seq<usize>| #[trigger] arranged_by(acts, flat_events(ts), p)
}

pub proof fn lemma_action_lt_trans(a: NormalizedActionRecord, ia: int, b: NormalizedActionRecord, ib: int, c: NormalizedActionRecord, ic: int)
    requires
        action_lt(a, ia, b, ib),
        action_lt(b, ib, c, ic),
    ensures
        action_lt(a, ia, c, ic),
{
    lemma_text_order_basics(a.object_id@, b.object_id@);
    lemma_text_order_basics(b.object_id@, c.object_id@);
    lemma_text_order_basics(a.object_id@, c.object_id@);
    lemma_text_order_basics(a.action_id@, b.action_id@);
    lemma_text_order_basics(b.action_id@, c.action_id@);
    lemma_text_order_basics(a.action_id@, c.action_id@);
    lemma_text_order_basics(a.action_text@, b.action_text@);
    lemma_text_order_basics(b.action_text@, c.action_text@);
    lemma_text_order_basics(a.action_text@, c.action_text@);
    if text_order(a.object_id@, b.object_id@) <= 0 && text_order(b.object_id@, c.object_id@) <= 0 {
        lemma_text_order_trans(a.object_id@, b.object_id@, c.object_id@);
    }
    if text_order(a.action_id@, b.action_id@) <= 0 && text_order(b.action_id@, c.action_id@) <= 0 {
        lemma_text_order_trans(a.action_id@, b.action_id@, c.action_id@);
    }
    if text_order(a.action_text@, b.action_text@) <= 0 && text_order(b.action_text@, c.action_text@)
        <= 0 {
        lemma_text_order_trans(a.action_text@, b.action_text@, c.action_text@);
    }
}

pub proof fn lemma_action_lt_total(a: NormalizedActionRecord, ia: int, b: NormalizedActionRecord, ib: int)
    requires
        ia != ib,
    ensures
        action_lt(a, ia, b, ib) || action_lt(b, ib, a, ia),
        !(action_lt(a, ia, b, ib) && action_lt(b, ib, a, ia)),
{
    lemma_text_order_basics(a.object_id@, b.object_id@);
    lemma_text_order_basics(a.action_id@, b.action_id@);
    lemma_text_order_basics(a.action_text@, b.action_text@);
}

/// Is action `a` (input position `ia`) ordered before `b` (position `ib`)?
fn action_before(a: &NormalizedActionRecord, ia: usize, b: &NormalizedActionRecord, ib: usize) -> (r: bool)
    ensures
        r == action_lt(*a, ia as int, *b, ib as int),
{
    let c1 = compare_text(a.object_id.as_str(), b.object_id.as_str());
    if c1 != 0 {
        return c1 < 0;
    }
    if a.action_date.day_number != b.action_date.day_number {
        return a.action_date.day_number < b.action_date.day_number;
    }
    let c2 = compare_text(a.action_id.as_str(), b.action_id.as_str());
    if c2 != 0 {
        return c2 < 0;
    }
    let c3 = compare_text(a.action_text.as_str(), b.action_text.as_str());
    if c3 != 0 {
        return c3 < 0;
    }
    ia < ib
}

/// The input positions of the actions, sorted by `action_lt`.
fn sorted_positions(actions: &[NormalizedActionRecord]) -> (order: Vec<usize>)
    ensures
        is_index_perm(order@, actions@.len() as int),
        sorted_by_action(actions@, order@),
{
    let ghost acts = actions@;
    let mut out: Vec<usize> = Vec::new();
    let mut i: usize = 0;
    while i < actions.len()
        invariant
            acts == actions@,
            i <= actions.len(),
            out@.len() == i,
            forall|k: int| 0 <= k < out@.len() ==> out@[k] < i,
            forall|k1: int, k2: int| 0 <= k1 < k2 < out@.len() ==> out@[k1] != out@[k2],
            sorted_by_action(acts, out@),
        decreases actions.len() - i,
    {
        let mut pos: usize = 0;
        while pos < out.len() && action_before(&actions[out[pos]], out[pos], &actions[i], i)
            invariant
                acts == actions@,
                i < actions.len(),
                pos <= out@.len(),
                forall|k: int| 0 <= k < out@.len() ==> out@[k] < i,
                forall|k: int| 0 <= k < pos ==> index_lt(acts, out@[k] as int, i as int),
            decreases out.len() - pos,
        {
            pos = pos + 1;
        }
        proof {
            if pos < out@.len() {
                let q = out@[pos as int] as int;
                lemma_action_lt_total(acts[q], q, acts[i as int], i as int);
                assert forall|k: int| pos < k < out@.len() implies index_lt(
                    acts,
                    i as int,
                    out@[k] as int,
                ) by {
                    assert(index_lt(acts, out@[pos as int] as int, out@[k] as int));
                    lemma_action_lt_trans(
                        acts[i as int],
                        i as int,
                        acts[q],
                        q,
                        acts[out@[k] as int],
                        out@[k] as int,
                    );
                }
            }
        }
        let ghost before = out@;
        out.insert(pos, i);
        proof {
            assert(out@ == before.insert(pos as int, i));
            assert forall|k1: int, k2: int| 0 <= k1 < k2 < out@.len() implies #[trigger] index_lt(
                acts,
                out@[k1] as int,
                out@[k2] as int,
            ) by {
                if k2 < pos {
                    assert(index_lt(acts, before[k1] as int, before[k2] as int));
                } else if k2 == pos {
                } else if k1 < pos {
                    assert(index_lt(acts, before[k1] as int, before[k2 - 1] as int));
                } else if k1 == pos {
                } else {
                    assert(index_lt(acts, before[k1 - 1] as int, before[k2 - 1] as int));
                }
            }
        }
        i = i + 1;
    }
    out
}

fn timeline_event(action: &NormalizedActionRecord) -> (e: HistoricalActionEvent)
    ensures
        event_matches(e, *action),
{
    HistoricalActionEvent {
        object_id: action.object_id.clone(),
        action_date: action.action_date.copy(),
        raw_action_text: action.action_text.clone(),
        normalized_action_category: action.category,
        aligned_senate_event: align_action_to_senate_event(action),
        is_consequential: is_consequential_action(action),
        source_record_id: Some(action.action_id.clone()),
    }
}

/// Groups validated actions into one timeline per legislative object.
/// Objects come in increasing order of id; within a timeline the actions are
/// ordered by date, then action id, then action text, equal ones in input
/// order. Fails with the first invalid action.
pub fn build_historical_timelines(actions: &[NormalizedActionRecord]) -> (r: Result<Vec<HistoricalTimeline>, SenateSimError>)
    ensures
        r is Ok <==> forall|i: int| 0 <= i < actions@.len() ==> (#[trigger] actions@[i]).wf(),
        r matches Ok(ts) ==> timelines_of(actions@, ts@),
{
    let mut v: usize = 0;
    while v < actions.len()
        invariant
            v <= actions.len(),
            forall|i: int| 0 <= i < v ==> (#[trigger] actions@[i]).wf(),
        decreases actions.len() - v,
    {
        actions[v].validate()?;
        v = v + 1;
    }
    let ghost acts = actions@;
    let order = sorted_positions(actions);
    let mut timelines: Vec<HistoricalTimeline> = Vec::new();
    let mut current: Vec<HistoricalActionEvent> = Vec::new();
    let mut current_id = String::new();
    let mut k: usize = 0;
    while k < order.len()
        invariant
            acts == actions@,
            is_index_perm(order@, acts.len() as int),
            sorted_by_action(acts, order@),
            k <= order@.len(),
            (flat_events(timelines@) + current@).len() == k,
            forall|j: int| 0 <= j < k ==> event_matches(
                #[trigger] (flat_events(timelines@) + current@)[j],
                acts[order@[j] as int],
            ),
            forall|i: int| 0 <= i < timelines@.len() ==> (#[trigger] timelines@[i]).events@.len() > 0,
            forall|i: int, j: int|
                0 <= i < timelines@.len() && 0 <= j < timelines@[i].events@.len() ==> (
                #[trigger] timelines@[i].events@[j]).object_id@ == timelines@[i].object_id@,
            forall|i: int, j: int|
                0 <= i < j < timelines@.len() ==> text_order(
                    #[trigger] timelines@[i].object_id@,
                    #[trigger] timelines@[j].object_id@,
                ) < 0,
            k == 0 ==> current@.len() == 0 && timelines@.len() == 0,
            k > 0 ==> current@.len() > 0,
            k > 0 ==> current_id@ == acts[order@[k - 1] as int].object_id@,
            forall|j: int| 0 <= j < current@.len() ==> (#[trigger] current@[j]).object_id@ == current_id@,
            k > 0 ==> forall|i: int|
                0 <= i < timelines@.len() ==> text_order(#[trigger] timelines@[i].object_id@, current_id@)
                    < 0,
        decreases order.len() - k,
    {
        let a = &actions[order[k]];
        let ghost flat_before = flat_events(timelines@) + current@;
        if k > 0 && a.object_id != current_id {
            proof {
                let p = order@[k - 1] as int;
                let q = order@[k as int] as int;
                assert(index_lt(acts, p, q));
                lemma_text_order_basics(acts[p].object_id@, acts[q].object_id@);
                assert(text_order(current_id@, a.object_id@) < 0);
                assert forall|i: int| 0 <= i < timelines@.len() implies text_order(
                    #[trigger] timelines@[i].object_id@,
                    a.object_id@,
                ) < 0 by {
                    lemma_text_order_trans(timelines@[i].object_id@, current_id@, a.object_id@);
                }
            }
            let finished = HistoricalTimeline { object_id: current_id, events: current };
            let ghost ts_before = timelines@;
            timelines.push(finished);
            proof {
                assert(timelines@.drop_last() =~= ts_before);
                assert(flat_events(timelines@) =~= flat_before);
            }
            current = Vec::new();
            current_id = a.object_id.clone();
            proof {
                assert(flat_events(timelines@) + current@ =~= flat_before);
            }
        } else if k == 0 {
            current_id = a.object_id.clone();
        }
        let e = timeline_event(a);
        current.push(e);
        proof {
            assert(flat_events(timelines@) + current@ =~= flat_before.push(e));
        }
        k = k + 1;
    }
    if k > 0 {
        let ghost flat_before = flat_events(timelines@) + current@;
        let ghost ts_before = timelines@;
        timelines.push(HistoricalTimeline { object_id: current_id, events: current });
        proof {
            assert(timelines@.drop_last() =~= ts_before);
            assert(flat_events(timelines@) =~= flat_before);
        }
    } else {
        proof {
            assert(flat_events(timelines@) =~= Seq::<HistoricalActionEvent>::empty());
        }
    }
    proof {
        assert(arranged_by(acts, flat_events(timelines@), order@));
    }
    Ok(timelines)
}


// ---------------------------------------------------------------- input order

/// The two actions share object, date, action id and action text, the
/// fields timelines are ordered by.
pub open spec fn same_key(a: NormalizedActionRecord, b: NormalizedActionRecord) -> bool {
    &&& a.object_id@ == b.object_id@
    &&& a.action_date.day_number == b.action_date.day_number
    &&& a.action_id@ == b.action_id@
    &&& a.action_text@ == b.action_text@
}

/// No two actions share object, date, action id and action text.
pub open spec fn distinct_keys(acts: Seq<NormalizedActionRecord>) -> bool {
    forall|i: int, j: int| 0 <= i < acts.len() && 0 <= j < acts.len() && i != j ==> !same_key(#[trigger] acts[i], #[trigger] acts[j])
}

/// `other` lists the actions of `acts` in the order `q`.
pub open spec fn reordering(acts: Seq<NormalizedActionRecord>, other: Seq<NormalizedActionRecord>, q: Seq<usize>) -> bool {
    &&& is_index_perm(q, acts.len() as int)
    &&& other.len() == acts.len()
    &&& forall|k: int| 0 <= k < other.len() ==> #[trigger] other[k] == acts[q[k] as int]
}

/// The two timeline entries record the same action alike.
pub open spec fn same_entry(a: HistoricalActionEvent, b: HistoricalActionEvent) -> bool {
    &&& a.object_id@ == b.object_id@
    &&& a.action_date == b.action_date
    &&& a.raw_action_text@ == b.raw_action_text@
    &&& a.normalized_action_category == b.normalized_action_category
    &&& a.aligned_senate_event == b.aligned_senate_event
    &&& a.is_consequential == b.is_consequential
    &&& a.source_record_id matches Some(x) && b.source_record_id matches Some(y) && x@ == y@
}

/// Strict order of actions by object, date, action id and action text.
pub open spec fn key_lt(a: NormalizedActionRecord, b: NormalizedActionRecord) -> bool {
    action_lt(a, 0, b, 0)
}

pub open spec fn key_sorted(s: Seq<NormalizedActionRecord>) -> bool {
    forall|i: int, j: int| 0 <= i < j < s.len() ==> key_lt(#[trigger] s[i], #[trigger] s[j])
}

/// The actions in the order `p` lists them.
pub open spec fn in_order(acts: Seq<NormalizedActionRecord>, p: Seq<usize>) -> Seq<NormalizedActionRecord> {
    Seq::new(p.len(), |k: int| acts[p[k] as int])
}

proof fn lemma_key_lt_basics(a: NormalizedActionRecord, b: NormalizedActionRecord, c: NormalizedActionRecord)
    ensures
        !key_lt(a, a),
        key_lt(a, b) && key_lt(b, c) ==> key_lt(a, c),
{
    lemma_text_order_basics(a.object_id@, a.object_id@);
    lemma_text_order_basics(a.action_id@, a.action_id@);
    lemma_text_order_basics(a.action_text@, a.action_text@);
    if key_lt(a, b) && key_lt(b, c) {
        lemma_action_lt_trans(a, 0, b, 0, c, 0);
    }
}

/// Between actions with different keys, the input positions never decide.
proof fn lemma_lt_ignores_positions(a: NormalizedActionRecord, ia: int, b: NormalizedActionRecord, ib: int)
    requires
        !same_key(a, b),
    ensures
        action_lt(a, ia, b, ib) == key_lt(a, b),
{
    lemma_text_order_basics(a.object_id@, b.object_id@);
    lemma_text_order_basics(a.action_id@, b.action_id@);
    lemma_text_order_basics(a.action_text@, b.action_text@);
}

/// A position list that holds each position below `n` once holds every one.
proof fn lemma_index_perm_onto(p: Seq<usize>, n: int, v: int)
    requires
        is_index_perm(p, n),
        0 <= v < n,
    ensures
        exists|k: int| 0 <= k < p.len() && p[k] as int == v,
{
    broadcast use vstd::seq_lib::group_seq_properties;
    let ip = p.map_values(|x: usize| x as int);
    assert(ip.no_duplicates()) by {
        assert forall|i: int, j: int| 0 <= i < ip.len() && 0 <= j < ip.len() && i != j implies ip[i] != ip[j] by {
            if i < j {
                assert(p[i] != p[j]);
            } else {
                assert(p[j] != p[i]);
            }
        }
    }
    ip.unique_seq_to_set();
    vstd::set_lib::lemma_int_range(0, n);
    assert(ip.to_set().subset_of(vstd::set_lib::set_int_range(0, n))) by {
        assert forall|x: int| #[trigger] ip.to_set().contains(x) implies vstd::set_lib::set_int_range(0, n).contains(x) by {
            assert(ip.contains(x));
            let k = choose|k: int| 0 <= k < ip.len() && ip[k] == x;
            assert(p[k] < n);
        }
    }
    vstd::set_lib::lemma_subset_equality(ip.to_set(), vstd::set_lib::set_int_range(0, n));
    assert(vstd::set_lib::set_int_range(0, n).contains(v));
    assert(ip.to_set().contains(v));
    assert(ip.contains(v));
    let k = choose|k: int| 0 <= k < ip.len() && ip[k] == v;
    assert(p[k] as int == v);
}

/// Two key-sorted sequences holding the same actions are the same sequence.
proof fn lemma_sorted_unique(s1: Seq<NormalizedActionRecord>, s2: Seq<NormalizedActionRecord>)
    requires
        key_sorted(s1),
        key_sorted(s2),
        s1.len() == s2.len(),
        forall|i: int| 0 <= i < s1.len() ==> s2.contains(#[trigger] s1[i]),
        forall|i: int| 0 <= i < s2.len() ==> s1.contains(#[trigger] s2[i]),
    ensures
        s1 == s2,
    decreases s1.len(),
{
    if s1.len() > 0 {
        assert(s2.contains(s1[0]));
        let j = choose|j: int| 0 <= j < s2.len() && s2[j] == s1[0];
        assert(s1.contains(s2[0]));
        let i = choose|i: int| 0 <= i < s1.len() && s1[i] == s2[0];
        lemma_key_lt_basics(s1[0], s2[0], s1[0]);
        lemma_key_lt_basics(s2[0], s1[0], s2[0]);
        if i > 0 {
            assert(key_lt(s1[0], s1[i]));
            if j > 0 {
                assert(key_lt(s2[0], s2[j]));
            }
        }
        assert(s1[0] == s2[0]);
        let t1 = s1.drop_first();
        let t2 = s2.drop_first();
        assert forall|k: int| 0 <= k < t1.len() implies t2.contains(#[trigger] t1[k]) by {
            assert(t1[k] == s1[k + 1]);
            assert(s2.contains(s1[k + 1]));
            let m = choose|m: int| 0 <= m < s2.len() && s2[m] == s1[k + 1];
            assert(key_lt(s1[0], s1[k + 1]));
            lemma_key_lt_basics(s1[0], s1[0], s1[0]);
            assert(m != 0);
            assert(t2[m - 1] == s2[m]);
        }
        assert forall|k: int| 0 <= k < t2.len() implies t1.contains(#[trigger] t2[k]) by {
            assert(t2[k] == s2[k + 1]);
            assert(s1.contains(s2[k + 1]));
            let m = choose|m: int| 0 <= m < s1.len() && s1[m] == s2[k + 1];
            assert(key_lt(s2[0], s2[k + 1]));
            lemma_key_lt_basics(s2[0], s2[0], s2[0]);
            assert(m != 0);
            assert(t1[m - 1] == s1[m]);
        }
        assert(key_sorted(t1)) by {
            assert forall|a: int, b: int| 0 <= a < b < t1.len() implies key_lt(#[trigger] t1[a], #[trigger] t1[b]) by {
                assert(t1[a] == s1[a + 1] && t1[b] == s1[b + 1]);
            }
        }
        assert(key_sorted(t2)) by {
            assert forall|a: int, b: int| 0 <= a < b < t2.len() implies key_lt(#[trigger] t2[a], #[trigger] t2[b]) by {
                assert(t2[a] == s2[a + 1] && t2[b] == s2[b + 1]);
            }
        }
        lemma_sorted_unique(t1, t2);
        assert(s1 =~= s2) by {
            assert forall|k: int| 0 <= k < s1.len() implies s1[k] == s2[k] by {
                if k > 0 {
                    assert(s1[k] == t1[k - 1]);
                    assert(s2[k] == t2[k - 1]);
                }
            }
        }
    }
}

/// Actions sorted into timeline order are key-sorted when no two share a key.
proof fn lemma_arranged_key_sorted(acts: Seq<NormalizedActionRecord>, p: Seq<usize>)
    requires
        distinct_keys(acts),
        is_index_perm(p, acts.len() as int),
        sorted_by_action(acts, p),
    ensures
        key_sorted(in_order(acts, p)),
{
    let s = in_order(acts, p);
    assert forall|a: int, b: int| 0 <= a < b < s.len() implies key_lt(#[trigger] s[a], #[trigger] s[b]) by {
        assert(index_lt(acts, p[a] as int, p[b] as int));
        assert(p[a] != p[b]);
        assert(!same_key(acts[p[a] as int], acts[p[b] as int]));
        lemma_lt_ignores_positions(acts[p[a] as int], p[a] as int, acts[p[b] as int], p[b] as int);
    }
}

/// The timelines are non-empty, hold only their own object's entries, and come
/// in increasing order of object.
pub open spec fn grouped(ts: Seq<HistoricalTimeline>) -> bool {
    &&& forall|i: int| 0 <= i < ts.len() ==> (#[trigger] ts[i]).events@.len() > 0
    &&& forall|i: int, j: int|
        0 <= i < ts.len() && 0 <= j < ts[i].events@.len() ==> (#[trigger] ts[i].events@[j]).object_id@
            == ts[i].object_id@
    &&& forall|i: int, j: int|
        0 <= i < j < ts.len() ==> text_order(#[trigger] ts[i].object_id@, #[trigger] ts[j].object_id@)
            < 0
}

proof fn lemma_grouped_init(ts: Seq<HistoricalTimeline>)
    requires
        grouped(ts),
        ts.len() > 0,
    ensures
        grouped(ts.drop_last()),
        flat_events(ts) == flat_events(ts.drop_last()) + ts.last().events@,
{
    let init = ts.drop_last();
    assert forall|i: int, j: int|
        0 <= i < init.len() && 0 <= j < init[i].events@.len() implies (#[trigger] init[i].events@[j]).object_id@
            == init[i].object_id@ by {
        assert(init[i] == ts[i]);
    }
    assert forall|i: int, j: int| 0 <= i < j < init.len() implies text_order(
        #[trigger] init[i].object_id@,
        #[trigger] init[j].object_id@,
    ) < 0 by {
        assert(init[i] == ts[i] && init[j] == ts[j]);
    }
    assert forall|i: int| 0 <= i < init.len() implies (#[trigger] init[i]).events@.len() > 0 by {
        assert(init[i] == ts[i]);
    }
}

/// Every entry carries the object of one of the timelines.
proof fn lemma_entry_object(ts: Seq<HistoricalTimeline>, k: int)
    requires
        grouped(ts),
        0 <= k < flat_events(ts).len(),
    ensures
        exists|i: int| 0 <= i < ts.len() && flat_events(ts)[k].object_id@ == (#[trigger] ts[i]).object_id@,
    decreases ts.len(),
{
    lemma_grouped_init(ts);
    let init = ts.drop_last();
    let before = flat_events(init).len();
    if k < before {
        lemma_entry_object(init, k);
        let i = choose|i: int| 0 <= i < init.len() && flat_events(init)[k].object_id@ == (#[trigger] init[i]).object_id@;
        assert(init[i] == ts[i]);
        assert(flat_events(ts)[k] == flat_events(init)[k]);
    } else {
        let j = k - before;
        assert(flat_events(ts)[k] == ts.last().events@[j]);
        assert(ts[ts.len() - 1] == ts.last());
        assert(ts[ts.len() - 1].events@[j].object_id@ == ts[ts.len() - 1].object_id@);
    }
}

/// Grouped timelines are fixed by the objects of their entries in order.
proof fn lemma_grouping_unique(ts: Seq<HistoricalTimeline>, us: Seq<HistoricalTimeline>)
    requires
        grouped(ts),
        grouped(us),
        flat_events(ts).len() == flat_events(us).len(),
        forall|k: int| 0 <= k < flat_events(ts).len() ==> (#[trigger] flat_events(ts)[k]).object_id@
            == flat_events(us)[k].object_id@,
    ensures
        ts.len() == us.len(),
        forall|i: int| 0 <= i < ts.len() ==> (#[trigger] ts[i]).object_id@ == us[i].object_id@
            && ts[i].events@.len() == us[i].events@.len(),
    decreases ts.len(),
{
    if ts.len() == 0 {
        if us.len() > 0 {
            lemma_grouped_init(us);
            assert(us[us.len() - 1].events@.len() > 0);
        }
    } else if us.len() == 0 {
        lemma_grouped_init(ts);
        assert(ts[ts.len() - 1].events@.len() > 0);
    } else {
        lemma_grouped_init(ts);
        lemma_grouped_init(us);
        let n = flat_events(ts).len() as int;
        let t0 = ts.drop_last();
        let u0 = us.drop_last();
        let a = flat_events(t0).len() as int;
        let b = flat_events(u0).len() as int;
        let x = ts.last().object_id@;
        let y = us.last().object_id@;
        assert(ts[ts.len() - 1] == ts.last());
        assert(us[us.len() - 1] == us.last());
        assert(ts.last().events@.len() > 0 && us.last().events@.len() > 0);
        assert(flat_events(ts)[n - 1] == ts.last().events@[n - 1 - a]);
        assert(flat_events(us)[n - 1] == us.last().events@[n - 1 - b]);
        assert(ts[ts.len() - 1].events@[n - 1 - a].object_id@ == x);
        assert(us[us.len() - 1].events@[n - 1 - b].object_id@ == y);
        assert(x == y);
        if a < b {
            assert(flat_events(ts)[a] == ts.last().events@[0]);
            assert(ts[ts.len() - 1].events@[0].object_id@ == x);
            lemma_entry_object(u0, a);
            let i = choose|i: int| 0 <= i < u0.len() && flat_events(u0)[a].object_id@ == (#[trigger] u0[i]).object_id@;
            assert(u0[i] == us[i]);
            assert(text_order(us[i].object_id@, us[us.len() - 1].object_id@) < 0);
            lemma_text_order_basics(us[i].object_id@, y);
            assert(flat_events(us)[a] == flat_events(u0)[a]);
            assert(false);
        }
        if b < a {
            assert(flat_events(us)[b] == us.last().events@[0]);
            assert(us[us.len() - 1].events@[0].object_id@ == y);
            lemma_entry_object(t0, b);
            let i = choose|i: int| 0 <= i < t0.len() && flat_events(t0)[b].object_id@ == (#[trigger] t0[i]).object_id@;
            assert(t0[i] == ts[i]);
            assert(text_order(ts[i].object_id@, ts[ts.len() - 1].object_id@) < 0);
            lemma_text_order_basics(ts[i].object_id@, x);
            assert(flat_events(ts)[b] == flat_events(t0)[b]);
            assert(false);
        }
        assert forall|k: int| 0 <= k < flat_events(t0).len() implies (#[trigger] flat_events(t0)[k]).object_id@
            == flat_events(u0)[k].object_id@ by {
            assert(flat_events(ts)[k] == flat_events(t0)[k]);
            assert(flat_events(us)[k] == flat_events(u0)[k]);
        }
        lemma_grouping_unique(t0, u0);
        assert forall|i: int| 0 <= i < ts.len() implies (#[trigger] ts[i]).object_id@ == us[i].object_id@
            && ts[i].events@.len() == us[i].events@.len() by {
            if i < ts.len() - 1 {
                assert(ts[i] == t0[i] && us[i] == u0[i]);
            }
        }
    }
}

proof fn lemma_same_flat_same_timelines(ts: Seq<HistoricalTimeline>, us: Seq<HistoricalTimeline>)
    requires
        ts.len() == us.len(),
        forall|i: int| 0 <= i < ts.len() ==> (#[trigger] ts[i]).events@.len() == us[i].events@.len(),
        flat_events(ts).len() == flat_events(us).len(),
        forall|k: int| 0 <= k < flat_events(ts).len() ==> same_entry(#[trigger] flat_events(ts)[k], flat_events(us)[k]),
    ensures
        forall|i: int, j: int|
            0 <= i < ts.len() && 0 <= j < ts[i].events@.len() ==> same_entry(#[trigger] ts[i].events@[j], us[i].events@[j]),
    decreases ts.len(),
{
    if ts.len() > 0 {
        let a = ts.drop_last();
        let b = us.drop_last();
        let fa = flat_events(a);
        let fb = flat_events(b);
        let n = ts.len() - 1;
        assert(ts[n] == ts.last() && us[n] == us.last());
        assert(flat_events(ts) == fa + ts.last().events@);
        assert(flat_events(us) == fb + us.last().events@);
        assert(fa.len() == fb.len());
        assert forall|i: int| 0 <= i < a.len() implies (#[trigger] a[i]).events@.len() == b[i].events@.len() by {
            assert(a[i] == ts[i] && b[i] == us[i]);
        }
        assert forall|k: int| 0 <= k < fa.len() implies same_entry(#[trigger] fa[k], fb[k]) by {
            assert(flat_events(ts)[k] == fa[k]);
            assert(flat_events(us)[k] == fb[k]);
        }
        lemma_same_flat_same_timelines(a, b);
        assert forall|i: int, j: int| 0 <= i < ts.len() && 0 <= j < ts[i].events@.len() implies same_entry(
            #[trigger] ts[i].events@[j],
            us[i].events@[j],
        ) by {
            if i < n {
                assert(ts[i] == a[i] && us[i] == b[i]);
            } else {
                assert(flat_events(ts)[fa.len() + j] == ts.last().events@[j]);
                assert(flat_events(us)[fb.len() + j] == us.last().events@[j]);
            }
        }
    }
}

/// Timelines do not depend on the order the actions come in: when no two
/// actions share object, date, action id and action text, any reordering of
/// the actions gives the same timelines: as many, for the same objects in the
/// same order, each with the same entries (field by field) in the same order.
pub proof fn law_timelines_ignore_input_order(
    acts: Seq<NormalizedActionRecord>,
    other: Seq<NormalizedActionRecord>,
    q: Seq<usize>,
    ts: Seq<HistoricalTimeline>,
    other_ts: Seq<HistoricalTimeline>,
)
    requires
        distinct_keys(acts),
        reordering(acts, other, q),
        timelines_of(acts, ts),
        timelines_of(other, other_ts),
    ensures
        ts.len() == other_ts.len(),
        forall|i: int|
            0 <= i < ts.len() ==> (#[trigger] ts[i]).object_id@ == other_ts[i].object_id@ && ts[i].events@.len()
                == other_ts[i].events@.len(),
        flat_events(ts).len() == flat_events(other_ts).len(),
        forall|k: int|
            0 <= k < flat_events(ts).len() ==> same_entry(#[trigger] flat_events(ts)[k], flat_events(other_ts)[k]),
        forall|i: int, j: int|
            0 <= i < ts.len() && 0 <= j < ts[i].events@.len() ==> same_entry(
                #[trigger] ts[i].events@[j],
                other_ts[i].events@[j],
            ),
{
    let n = acts.len() as int;
    let p1 = choose|p: Seq<usize>| #[trigger] arranged_by(acts, flat_events(ts), p);
    let p2 = choose|p: Seq<usize>| #[trigger] arranged_by(other, flat_events(other_ts), p);
    assert(distinct_keys(other)) by {
        assert forall|i: int, j: int| 0 <= i < other.len() && 0 <= j < other.len() && i != j implies !same_key(
            #[trigger] other[i],
            #[trigger] other[j],
        ) by {
            assert(other[i] == acts[q[i] as int]);
            assert(other[j] == acts[q[j] as int]);
            if i < j {
                assert(q[i] != q[j]);
            } else {
                assert(q[j] != q[i]);
            }
        }
    }
    let s1 = in_order(acts, p1);
    let s2 = in_order(other, p2);
    lemma_arranged_key_sorted(acts, p1);
    lemma_arranged_key_sorted(other, p2);
    assert forall|k: int| 0 <= k < s1.len() implies s2.contains(#[trigger] s1[k]) by {
        let v = p1[k] as int;
        lemma_index_perm_onto(q, n, v);
        let j = choose|j: int| 0 <= j < q.len() && q[j] as int == v;
        assert(other[j] == acts[v]);
        lemma_index_perm_onto(p2, n, j);
        let m = choose|m: int| 0 <= m < p2.len() && p2[m] as int == j;
        assert(s2[m] == s1[k]);
    }
    assert forall|m: int| 0 <= m < s2.len() implies s1.contains(#[trigger] s2[m]) by {
        let j = p2[m] as int;
        assert(other[j] == acts[q[j] as int]);
        lemma_index_perm_onto(p1, n, q[j] as int);
        let k = choose|k: int| 0 <= k < p1.len() && p1[k] == q[j];
        assert(s1[k] == s2[m]);
    }
    lemma_sorted_unique(s1, s2);
    assert forall|k: int| 0 <= k < flat_events(ts).len() implies same_entry(
        #[trigger] flat_events(ts)[k],
        flat_events(other_ts)[k],
    ) by {
        assert(event_matches(flat_events(ts)[k], acts[p1[k] as int]));
        assert(event_matches(flat_events(other_ts)[k], other[p2[k] as int]));
        assert(s1[k] == s2[k]);
    }
    lemma_grouping_unique(ts, other_ts);
    lemma_same_flat_same_timelines(ts, other_ts);
}

} // verus!
