//! Procedural vote subsets and support rates.

use vstd::prelude::*;
use crate::features::votes::derefs;
use crate::model::records::{NormalizedVoteRecord, ProceduralKind, VoteCategory, VotePosition};
use crate::util::score::{opt_score, ratio, ratio_spec, unit};
use crate::util::seqs::{lemma_filter_empty_prefix, lemma_filter_prefix_step, lemma_filter_whole};

verus! {

/// The procedural steps whose votes a feature reads.
#[derive(Debug, Clone, Copy, PartialEq, Eq, Structural)]
pub enum ProceduralStep {
    Cloture,
    MotionToProceed,
    Amendment,
}

/// A vote belongs to a step by its category or its procedural kind.
pub open spec fn of_step(v: NormalizedVoteRecord, step: ProceduralStep) -> bool {
    match step {
        ProceduralStep::Cloture => v.vote_category == VoteCategory::Cloture || v.procedural_kind
            == Some(ProceduralKind::Cloture),
        ProceduralStep::MotionToProceed => v.vote_category == VoteCategory::MotionToProceed
            || v.procedural_kind == Some(ProceduralKind::MotionToProceed),
        ProceduralStep::Amendment => v.vote_category == VoteCategory::Amendment || v.procedural_kind
            == Some(ProceduralKind::AmendmentProcess),
    }
}

pub open spec fn step_pred(step: ProceduralStep) -> spec_fn(NormalizedVoteRecord) -> bool {
    |v: NormalizedVoteRecord| of_step(v, step)
}

fn is_of_step(v: &NormalizedVoteRecord, step: ProceduralStep) -> (r: bool)
    ensures
        r == of_step(*v, step),
{
    match step {
        ProceduralStep::Cloture => v.vote_category == VoteCategory::Cloture || v.procedural_kind
            == Some(ProceduralKind::Cloture),
        ProceduralStep::MotionToProceed => v.vote_category == VoteCategory::MotionToProceed
            || v.procedural_kind == Some(ProceduralKind::MotionToProceed),
        ProceduralStep::Amendment => v.vote_category == VoteCategory::Amendment || v.procedural_kind
            == Some(ProceduralKind::AmendmentProcess),
    }
}

/// The votes of one procedural step, in input order.
pub fn votes_of_step<'a>(votes: &[&'a NormalizedVoteRecord], step: ProceduralStep) -> (r: Vec<&'a NormalizedVoteRecord>)
    ensures
        derefs(r@) == derefs(votes@).filter(step_pred(step)),
{
    let ghost all = derefs(votes@);
    let ghost p = step_pred(step);
    let mut out: Vec<&'a NormalizedVoteRecord> = Vec::new();
    let mut i: usize = 0;
    proof {
        lemma_filter_empty_prefix(all, p);
    }
    while i < votes.len()
        invariant
            all == derefs(votes@),
            p == step_pred(step),
            i <= votes@.len(),
            derefs(out@) == all.subrange(0, i as int).filter(p),
        decreases votes.len() - i,
    {
        proof {
            lemma_filter_prefix_step(all, i as int, p);
        }
        let ghost before = out@;
        if is_of_step(votes[i], step) {
            out.push(votes[i]);
            proof {
                assert(derefs(out@) =~= derefs(before).push(all[i as int]));
            }
        }
        i = i + 1;
    }
    proof {
        lemma_filter_whole(all, p);
    }
    out
}

/// Cloture votes (by category or procedural kind).
pub fn cloture_votes<'a>(votes: &[&'a NormalizedVoteRecord]) -> (r: Vec<&'a NormalizedVoteRecord>)
    ensures
        derefs(r@) == derefs(votes@).filter(step_pred(ProceduralStep::Cloture)),
{
    votes_of_step(votes, ProceduralStep::Cloture)
}

/// Motion-to-proceed votes (by category or procedural kind).
pub fn motion_to_proceed_votes<'a>(votes: &[&'a NormalizedVoteRecord]) -> (r: Vec<&'a NormalizedVoteRecord>)
    ensures
        derefs(r@) == derefs(votes@).filter(step_pred(ProceduralStep::MotionToProceed)),
{
    votes_of_step(votes, ProceduralStep::MotionToProceed)
}

/// Amendment votes (by category or procedural kind).
pub fn amendment_votes<'a>(votes: &[&'a NormalizedVoteRecord]) -> (r: Vec<&'a NormalizedVoteRecord>)
    ensures
        derefs(r@) == derefs(votes@).filter(step_pred(ProceduralStep::Amendment)),
{
    votes_of_step(votes, ProceduralStep::Amendment)
}

pub open spec fn position_pred(pos: VotePosition) -> spec_fn(NormalizedVoteRecord) -> bool {
    |v: NormalizedVoteRecord| v.vote_position == pos
}

pub open spec fn decided(v: NormalizedVoteRecord) -> bool {
    v.vote_position == VotePosition::Yea || v.vote_position == VotePosition::Nay
}

pub open spec fn decided_pred() -> spec_fn(NormalizedVoteRecord) -> bool {
    |v: NormalizedVoteRecord| decided(v)
}

/// Share of yea among yea and nay votes; none when there are neither.
pub open spec fn support_rate_spec(s: Seq<NormalizedVoteRecord>) -> Option<int> {
    let total = s.filter(decided_pred()).len();
    if total == 0 {
        None
    } else {
        Some(ratio_spec(s.filter(position_pred(VotePosition::Yea)).len() as int, total as int))
    }
}

/// The share of yea votes among the yea and nay votes (unit score, rounded
/// down); none when no vote was yea or nay.
pub fn support_rate(votes: &[&NormalizedVoteRecord]) -> (r: Option<i64>)
    ensures
        opt_score(r) == support_rate_spec(derefs(votes@)),
        r matches Some(x) ==> unit(x as int),
{
    let ghost all = derefs(votes@);
    let mut support: usize = 0;
    let mut total: usize = 0;
    let mut i: usize = 0;
    proof {
        lemma_filter_empty_prefix(all, decided_pred());
        lemma_filter_empty_prefix(all, position_pred(VotePosition::Yea));
    }
    while i < votes.len()
        invariant
            all == derefs(votes@),
            i <= votes@.len(),
            support == all.subrange(0, i as int).filter(position_pred(VotePosition::Yea)).len(),
            total == all.subrange(0, i as int).filter(decided_pred()).len(),
            support <= i,
            total <= i,
        decreases votes.len() - i,
    {
        proof {
            lemma_filter_prefix_step(all, i as int, decided_pred());
            lemma_filter_prefix_step(all, i as int, position_pred(VotePosition::Yea));
        }
        match votes[i].vote_position {
            VotePosition::Yea => {
                support = support + 1;
                total = total + 1;
            },
            VotePosition::Nay => {
                total = total + 1;
            },
            _ => {},
        }
        i = i + 1;
    }
    proof {
        lemma_filter_whole(all, decided_pred());
        lemma_filter_whole(all, position_pred(VotePosition::Yea));
    }
    if total == 0 {
        None
    } else {
        Some(ratio(support, total))
    }
}

} // verus!
