//! Look-back windows over the vote history.

use vstd::prelude::*;
use crate::features::votes::derefs;
use crate::model::records::NormalizedVoteRecord;
use crate::util::calendar::CalendarDate;
use crate::util::seqs::{lemma_filter_empty_prefix, lemma_filter_prefix_step, lemma_filter_whole};

verus! {

/// How far back the baseline and recent feature windows reach, in days
/// (`None`: the whole history).
#[derive(Debug, Clone, Copy, PartialEq, Eq, Structural)]
pub struct FeatureWindowConfig {
    pub baseline_lookback_days: Option<i64>,
    pub recent_lookback_days: i64,
}

impl Default for FeatureWindowConfig {
    /// Four years of baseline, one year of recent history.
    fn default() -> (r: Self)
        ensures
            r.baseline_lookback_days == Some(1460i64),
            r.recent_lookback_days == 365,
    {
        FeatureWindowConfig { baseline_lookback_days: Some(365 * 4), recent_lookback_days: 365 }
    }
}

/// A vote on or before `date`, and no more than `lookback` days before it.
pub open spec fn in_window(v: NormalizedVoteRecord, date: int, lookback: Option<i64>) -> bool {
    &&& v.vote_date.day_number <= date
    &&& (lookback matches Some(d) ==> date - v.vote_date.day_number <= d)
}

pub open spec fn window_pred(date: int, lookback: Option<i64>) -> spec_fn(NormalizedVoteRecord) -> bool {
    |v: NormalizedVoteRecord| in_window(v, date, lookback)
}

/// The votes cast on or before the snapshot date and within the look-back,
/// in input order.
pub fn filter_votes_for_window<'a>(
    votes: &'a [NormalizedVoteRecord],
    snapshot_date: CalendarDate,
    lookback_days: Option<i64>,
) -> (r: Vec<&'a NormalizedVoteRecord>)
    ensures
        derefs(r@) == votes@.filter(window_pred(snapshot_date.day_number as int, lookback_days)),
{
    let date = snapshot_date.day_number;
    let ghost p = window_pred(date as int, lookback_days);
    let mut out: Vec<&'a NormalizedVoteRecord> = Vec::new();
    let mut i: usize = 0;
    proof {
        lemma_filter_empty_prefix(votes@, p);
    }
    while i < votes.len()
        invariant
            i <= votes@.len(),
            p == window_pred(date as int, lookback_days),
            derefs(out@) == votes@.subrange(0, i as int).filter(p),
        decreases votes.len() - i,
    {
        let v = &votes[i];
        let keep = v.vote_date.day_number <= date && match lookback_days {
            Some(days) => (date as i64) - (v.vote_date.day_number as i64) <= days,
            None => true,
        };
        proof {
            lemma_filter_prefix_step(votes@, i as int, p);
        }
        let ghost before = out@;
        if keep {
            out.push(v);
            proof {
                assert(derefs(out@) =~= derefs(before).push(votes@[i as int]));
            }
        }
        i = i + 1;
    }
    proof {
        lemma_filter_whole(votes@, p);
    }
    out
}

} // verus!
