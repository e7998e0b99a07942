//! Issue-domain scores from vote history, with party fallbacks.

use vstd::prelude::*;
use crate::features::votes::derefs;
use crate::model::identity::Party;
use crate::model::legislative::PolicyDomain;
use crate::model::records::{NormalizedVoteRecord, VotePosition};
use crate::util::score::{floor_div, signed_unit};
use crate::util::seqs::{lemma_filter_empty_prefix, lemma_filter_prefix_step, lemma_filter_whole};

verus! {

/// A vote on a bill of `domain` that took `pos`.
pub open spec fn domain_vote(v: NormalizedVoteRecord, domain: PolicyDomain, pos: VotePosition) -> bool {
    &&& v.policy_domain matches Some(d) && d.same_spec(domain)
    &&& v.vote_position == pos
}

pub open spec fn domain_vote_pred(domain: PolicyDomain, pos: VotePosition) -> spec_fn(NormalizedVoteRecord) -> bool {
    |v: NormalizedVoteRecord| domain_vote(v, domain, pos)
}

/// The party's typical position on a domain (signed, ten-thousandths).
pub open spec fn fallback_domain_spec(domain: PolicyDomain, party: Party) -> int {
    match party {
        Party::Democrat => match domain {
            PolicyDomain::Defense => 1000,
            PolicyDomain::BudgetTax => -1500,
            PolicyDomain::Healthcare => 3000,
            PolicyDomain::Immigration => 2000,
            PolicyDomain::EnergyClimate => 3500,
            PolicyDomain::Judiciary => -500,
            PolicyDomain::Technology => 1500,
            PolicyDomain::ForeignPolicy => 1000,
            PolicyDomain::Labor => 3000,
            PolicyDomain::Education => 2500,
            PolicyDomain::Other(_) => 0,
        },
        Party::Republican => match domain {
            PolicyDomain::Defense => 2500,
            PolicyDomain::BudgetTax => 2500,
            PolicyDomain::Healthcare => -2000,
            PolicyDomain::Immigration => -1000,
            PolicyDomain::EnergyClimate => -3000,
            PolicyDomain::Judiciary => 2000,
            PolicyDomain::Technology => -500,
            PolicyDomain::ForeignPolicy => 2000,
            PolicyDomain::Labor => -2000,
            PolicyDomain::Education => -1000,
            PolicyDomain::Other(_) => 0,
        },
        _ => 0,
    }
}

/// The party's typical position on a domain (signed, ten-thousandths).
pub fn fallback_domain_score(domain: &PolicyDomain, party: &Party) -> (r: i64)
    ensures
        r == fallback_domain_spec(*domain, *party),
        signed_unit(r as int),
{
    match party {
        Party::Democrat => match domain {
            PolicyDomain::Defense => 1000,
            PolicyDomain::BudgetTax => -1500,
            PolicyDomain::Healthcare => 3000,
            PolicyDomain::Immigration => 2000,
            PolicyDomain::EnergyClimate => 3500,
            PolicyDomain::Judiciary => -500,
            PolicyDomain::Technology => 1500,
            PolicyDomain::ForeignPolicy => 1000,
            PolicyDomain::Labor => 3000,
            PolicyDomain::Education => 2500,
            PolicyDomain::Other(_) => 0,
        },
        Party::Republican => match domain {
            PolicyDomain::Defense => 2500,
            PolicyDomain::BudgetTax => 2500,
            PolicyDomain::Healthcare => -2000,
            PolicyDomain::Immigration => -1000,
            PolicyDomain::EnergyClimate => -3000,
            PolicyDomain::Judiciary => 2000,
            PolicyDomain::Technology => -500,
            PolicyDomain::ForeignPolicy => 2000,
            PolicyDomain::Labor => -2000,
            PolicyDomain::Education => -1000,
            PolicyDomain::Other(_) => 0,
        },
        _ => 0,
    }
}

/// The score of a domain: (yea - nay) / (yea + nay) over the votes on the
/// domain (signed, rounded down), with the number of those votes; the party
/// fallback and 0 when there are none.
pub open spec fn domain_score_spec(s: Seq<NormalizedVoteRecord>, domain: PolicyDomain, party: Party) -> (int, int) {
    let yea = s.filter(domain_vote_pred(domain, VotePosition::Yea)).len() as int;
    let nay = s.filter(domain_vote_pred(domain, VotePosition::Nay)).len() as int;
    if yea + nay == 0 {
        (fallback_domain_spec(domain, party), 0)
    } else {
        (((yea - nay) * 10000) / (yea + nay), yea + nay)
    }
}

pub fn domain_score(votes: &[&NormalizedVoteRecord], domain: &PolicyDomain, party: &Party) -> (r: (i64, usize))
    ensures
        (r.0 as int, r.1 as int) == domain_score_spec(derefs(votes@), *domain, *party),
        signed_unit(r.0 as int),
{
    let ghost all = derefs(votes@);
    let ghost py = domain_vote_pred(*domain, VotePosition::Yea);
    let ghost pn = domain_vote_pred(*domain, VotePosition::Nay);
    let mut yea: usize = 0;
    let mut nay: usize = 0;
    let mut i: usize = 0;
    proof {
        lemma_filter_empty_prefix(all, py);
        lemma_filter_empty_prefix(all, pn);
    }
    while i < votes.len()
        invariant
            all == derefs(votes@),
            py == domain_vote_pred(*domain, VotePosition::Yea),
            pn == domain_vote_pred(*domain, VotePosition::Nay),
            i <= votes@.len(),
            yea == all.subrange(0, i as int).filter(py).len(),
            nay == all.subrange(0, i as int).filter(pn).len(),
            yea + nay <= i,
        decreases votes.len() - i,
    {
        proof {
            lemma_filter_prefix_step(all, i as int, py);
            lemma_filter_prefix_step(all, i as int, pn);
        }
        let on_domain = match &votes[i].policy_domain {
            Some(d) => d.same(domain),
            None => false,
        };
        if on_domain {
            match votes[i].vote_position {
                VotePosition::Yea => {
                    yea = yea + 1;
                },
                VotePosition::Nay => {
                    nay = nay + 1;
                },
                _ => {},
            }
        }
        i = i + 1;
    }
    proof {
        lemma_filter_whole(all, py);
        lemma_filter_whole(all, pn);
    }
    let total = yea + nay;
    if total == 0 {
        (fallback_domain_score(domain, party), 0)
    } else {
        let y = yea as i128;
        let n = nay as i128;
        let t = total as i128;
        proof {
            let yi = y as int;
            let ni = n as int;
            let ti = t as int;
            assert(-10000 <= ((yi - ni) * 10000) / ti <= 10000) by (nonlinear_arith)
                requires
                    ti == yi + ni,
                    ti > 0,
                    yi >= 0,
                    ni >= 0,
            ;
        }
        let q = floor_div((y - n) * 10000, t);
        (q as i64, total)
    }
}

} // verus!
