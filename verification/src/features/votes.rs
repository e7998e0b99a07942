//! Roll calls, party majorities and participation.

use vstd::prelude::*;
use crate::model::identity::Party;
use crate::model::records::{NormalizedVoteRecord, VotePosition};
use crate::util::order::{compare_text, lemma_text_order_basics, lemma_text_order_trans, text_order};
use crate::util::seqs::{lemma_filter_none, lemma_filter_prefix_step, lemma_filter_empty_prefix, lemma_filter_whole};

verus! {

/// The records behind a list of references.
pub open spec fn derefs(s: Seq<&NormalizedVoteRecord>) -> Seq<NormalizedVoteRecord> {
    s.map_values(|v: &NormalizedVoteRecord| *v)
}

/// Votes of the roll call `id`.
pub open spec fn on_roll_call(id: Seq<char>) -> spec_fn(NormalizedVoteRecord) -> bool {
    |v: NormalizedVoteRecord| v.vote_id@ == id
}

/// Votes by members of `party` that took `pos`.
pub open spec fn party_took(party: Party, pos: VotePosition) -> spec_fn(NormalizedVoteRecord) -> bool {
    |v: NormalizedVoteRecord| v.party_at_time.same_spec(party) && v.vote_position == pos
}

/// The position most members of `party` took (yea or nay), none on a tie.
pub open spec fn majority_spec(g: Seq<NormalizedVoteRecord>, party: Party) -> Option<VotePosition> {
    let yea = g.filter(party_took(party, VotePosition::Yea)).len();
    let nay = g.filter(party_took(party, VotePosition::Nay)).len();
    if yea > nay {
        Some(VotePosition::Yea)
    } else if yea < nay {
        Some(VotePosition::Nay)
    } else {
        None
    }
}

/// Groups votes by roll call: one entry per distinct roll-call id, ids in
/// increasing order, each holding that roll call's votes in input order.
pub fn group_votes_by_roll_call<'a>(votes: &[&'a NormalizedVoteRecord]) -> (r: Vec<(String, Vec<&'a NormalizedVoteRecord>)>)
    ensures
        forall|g1: int, g2: int|
            0 <= g1 < g2 < r@.len() ==> text_order(#[trigger] r@[g1].0@, #[trigger] r@[g2].0@) < 0,
        forall|g: int|
            0 <= g < r@.len() ==> derefs((#[trigger] r@[g]).1@) == derefs(votes@).filter(
                on_roll_call(r@[g].0@),
            ),
        forall|i: int|
            0 <= i < votes@.len() ==> exists|g: int|
                0 <= g < r@.len() && (#[trigger] r@[g]).0@ == (#[trigger] votes@[i]).vote_id@,
{
    let ghost all = derefs(votes@);
    let mut groups: Vec<(String, Vec<&'a NormalizedVoteRecord>)> = Vec::new();
    let mut i: usize = 0;
    while i < votes.len()
        invariant
            all == derefs(votes@),
            i <= votes@.len(),
            forall|g1: int, g2: int|
                0 <= g1 < g2 < groups@.len() ==> text_order(#[trigger] groups@[g1].0@, #[trigger] groups@[g2].0@)
                    < 0,
            forall|g: int|
                0 <= g < groups@.len() ==> derefs((#[trigger] groups@[g]).1@) == all.subrange(
                    0,
                    i as int,
                ).filter(on_roll_call(groups@[g].0@)),
            forall|j: int|
                0 <= j < i ==> exists|g: int|
                    0 <= g < groups@.len() && (#[trigger] groups@[g]).0@ == (#[trigger] votes@[j]).vote_id@,
        decreases votes.len() - i,
    {
        let v = votes[i];
        let mut g: usize = 0;
        while g < groups.len() && groups[g].0 != v.vote_id
            invariant
                g <= groups@.len(),
                forall|h: int| 0 <= h < g ==> groups@[h].0@ != v.vote_id@,
            decreases groups.len() - g,
        {
            g = g + 1;
        }
        let ghost before = groups@;
        proof {
            assert(all[i as int] == *v);
            assert forall|h: int| 0 <= h < before.len() implies derefs(before[h].1@).len() >= 0 by {}
        }
        if g < groups.len() {
            proof {
                assert(before[g as int].0@ == v.vote_id@);
            }
            let (key, mut members) = groups.remove(g);
            let ghost old_members = members@;
            members.push(v);
            groups.insert(g, (key, members));
            proof {
                assert(old_members == before[g as int].1@);
                assert(groups@.len() == before.len());
                assert(forall|h: int| 0 <= h < groups@.len() && h != g ==> groups@[h] == before[h]);
                assert(groups@[g as int].0@ == before[g as int].0@);
                assert(groups@[g as int].1@ == old_members.push(v));
                assert forall|h: int| 0 <= h < groups@.len() implies derefs((#[trigger] groups@[h]).1@)
                    == all.subrange(0, i + 1).filter(on_roll_call(groups@[h].0@)) by {
                    lemma_filter_prefix_step(all, i as int, on_roll_call(groups@[h].0@));
                    if h == g {
                        assert(derefs(old_members.push(v)) =~= derefs(old_members).push(*v));
                    } else {
                        if h < g {
                            assert(text_order(before[h].0@, before[g as int].0@) < 0);
                        } else {
                            assert(text_order(before[g as int].0@, before[h].0@) < 0);
                        }
                        lemma_text_order_basics(before[h].0@, before[g as int].0@);
                    }
                }
                assert forall|j: int| 0 <= j < i + 1 implies exists|h: int|
                    0 <= h < groups@.len() && (#[trigger] groups@[h]).0@ == (
                    #[trigger] votes@[j]).vote_id@ by {
                    if j == i {
                        assert(groups@[g as int].0@ == votes@[j].vote_id@);
                    } else {
                        let h = choose|h: int|
                            0 <= h < before.len() && (#[trigger] before[h]).0@ == votes@[j].vote_id@;
                        assert(groups@[h].0@ == votes@[j].vote_id@);
                    }
                }
            }
        } else {
            let mut pos: usize = 0;
            while pos < groups.len() && compare_text(groups[pos].0.as_str(), v.vote_id.as_str()) < 0
                invariant
                    pos <= groups@.len(),
                    forall|h: int| 0 <= h < pos ==> text_order(groups@[h].0@, v.vote_id@) < 0,
                decreases groups.len() - pos,
            {
                pos = pos + 1;
            }
            proof {
                if pos < groups@.len() {
                    lemma_text_order_basics(groups@[pos as int].0@, v.vote_id@);
                    assert forall|h: int| pos <= h < groups@.len() implies text_order(
                        v.vote_id@,
                        groups@[h].0@,
                    ) < 0 by {
                        if h > pos {
                            lemma_text_order_basics(groups@[pos as int].0@, groups@[h].0@);
                            lemma_text_order_trans(v.vote_id@, groups@[pos as int].0@, groups@[h].0@);
                        }
                    }
                }
            }
            let mut members: Vec<&'a NormalizedVoteRecord> = Vec::new();
            members.push(v);
            groups.insert(pos, (v.vote_id.clone(), members));
            proof {
                assert(groups@.len() == before.len() + 1);
                assert(forall|h: int| 0 <= h < pos ==> groups@[h] == before[h]);
                assert(forall|h: int| pos < h < groups@.len() ==> groups@[h] == before[h - 1]);
                assert(groups@[pos as int].0@ == v.vote_id@);
                assert(groups@[pos as int].1@ == members@);
                assert forall|g1: int, g2: int|
                    0 <= g1 < g2 < groups@.len() implies text_order(
                        #[trigger] groups@[g1].0@,
                        #[trigger] groups@[g2].0@,
                    ) < 0 by {
                    if g2 < pos {
                        assert(text_order(before[g1].0@, before[g2].0@) < 0);
                    } else if g2 == pos {
                    } else if g1 < pos {
                        assert(text_order(before[g1].0@, before[g2 - 1].0@) < 0);
                    } else if g1 == pos {
                    } else {
                        assert(text_order(before[g1 - 1].0@, before[g2 - 1].0@) < 0);
                    }
                }
                assert forall|j: int| 0 <= j < i implies all[j].vote_id@ != v.vote_id@ by {
                    let h = choose|h: int|
                        0 <= h < before.len() && (#[trigger] before[h]).0@ == votes@[j].vote_id@;
                    assert(all[j] == *votes@[j]);
                }
                assert forall|h: int| 0 <= h < groups@.len() implies derefs((#[trigger] groups@[h]).1@)
                    == all.subrange(0, i + 1).filter(on_roll_call(groups@[h].0@)) by {
                    lemma_filter_prefix_step(all, i as int, on_roll_call(groups@[h].0@));
                    if h == pos {
                        let pref = all.subrange(0, i as int);
                        assert forall|j: int| 0 <= j < pref.len() implies !on_roll_call(v.vote_id@)(
                            #[trigger] pref[j],
                        ) by {
                            assert(pref[j] == all[j]);
                        }
                        lemma_filter_none(pref, on_roll_call(v.vote_id@));
                        assert(derefs(members@) =~= seq![*v]);
                    } else if h < pos {
                        assert(groups@[h] == before[h]);
                    } else {
                        assert(groups@[h] == before[h - 1]);
                    }
                }
                assert forall|j: int| 0 <= j < i + 1 implies exists|h: int|
                    0 <= h < groups@.len() && (#[trigger] groups@[h]).0@ == (
                    #[trigger] votes@[j]).vote_id@ by {
                    if j == i {
                        assert(groups@[pos as int].0@ == votes@[j].vote_id@);
                    } else {
                        let h = choose|h: int|
                            0 <= h < before.len() && (#[trigger] before[h]).0@ == votes@[j].vote_id@;
                        if h < pos {
                            assert(groups@[h].0@ == votes@[j].vote_id@);
                        } else {
                            assert(groups@[h + 1].0@ == votes@[j].vote_id@);
                        }
                    }
                }
            }
        }
        i = i + 1;
    }
    proof {
        lemma_filter_whole_all(all, groups@);
    }
    groups
}

proof fn lemma_filter_whole_all<'a>(all: Seq<NormalizedVoteRecord>, groups: Seq<(String, Vec<&'a NormalizedVoteRecord>)>)
    ensures
        forall|g: int|
            0 <= g < groups.len() ==> all.subrange(0, all.len() as int).filter(
                on_roll_call(#[trigger] groups[g].0@),
            ) == all.filter(on_roll_call(groups[g].0@)),
{
    assert(all.subrange(0, all.len() as int) =~= all);
}

/// Counts the votes that pass `p`.
fn count_party_position(votes: &[&NormalizedVoteRecord], party: &Party, pos: VotePosition) -> (r: usize)
    ensures
        r == derefs(votes@).filter(party_took(*party, pos)).len(),
{
    let ghost all = derefs(votes@);
    let mut n: usize = 0;
    let mut i: usize = 0;
    proof {
        lemma_filter_empty_prefix(all, party_took(*party, pos));
    }
    while i < votes.len()
        invariant
            all == derefs(votes@),
            i <= votes@.len(),
            n == all.subrange(0, i as int).filter(party_took(*party, pos)).len(),
            n <= i,
        decreases votes.len() - i,
    {
        proof {
            lemma_filter_prefix_step(all, i as int, party_took(*party, pos));
            assert(all[i as int] == *votes@[i as int]);
        }
        if votes[i].party_at_time.same(party) && votes[i].vote_position == pos {
            n = n + 1;
        }
        i = i + 1;
    }
    proof {
        lemma_filter_whole(all, party_took(*party, pos));
    }
    n
}

/// The position most members of `party` took on these votes: yea or nay,
/// none on a tie (present and absent members are not counted).
pub fn party_majority_position(votes: &[&NormalizedVoteRecord], party: &Party) -> (r: Option<VotePosition>)
    ensures
        r == majority_spec(derefs(votes@), *party),
{
    let yea = count_party_position(votes, party, VotePosition::Yea);
    let nay = count_party_position(votes, party, VotePosition::Nay);
    if yea > nay {
        Some(VotePosition::Yea)
    } else if yea < nay {
        Some(VotePosition::Nay)
    } else {
        None
    }
}

pub open spec fn participated(v: NormalizedVoteRecord) -> bool {
    matches!(v.vote_position, VotePosition::Yea | VotePosition::Nay | VotePosition::Present)
}

/// A senator took part in a vote when voting yea, nay or present.
pub fn valid_participation(vote: &NormalizedVoteRecord) -> (r: bool)
    ensures
        r == participated(*vote),
{
    match vote.vote_position {
        VotePosition::Yea | VotePosition::Nay | VotePosition::Present => true,
        _ => false,
    }
}

/// Yea supports, nay opposes; other positions say nothing.
pub fn is_support_position(vote: &NormalizedVoteRecord) -> (r: Option<bool>)
    ensures
        r == (match vote.vote_position {
            VotePosition::Yea => Some(true),
            VotePosition::Nay => Some(false),
            _ => None,
        }),
{
    match vote.vote_position {
        VotePosition::Yea => Some(true),
        VotePosition::Nay => Some(false),
        _ => None,
    }
}

} // verus!
