//! Senator features from the vote history visible at a snapshot date.

use vstd::prelude::*;
use crate::features::domains::{domain_score, domain_score_spec};
use crate::features::procedure::{
    amendment_votes, cloture_votes, decided, motion_to_proceed_votes, step_pred, support_rate,
    support_rate_spec, ProceduralStep,
};
use crate::features::votes::{
    derefs, majority_spec, on_roll_call, participated, party_majority_position, valid_participation,
};
use crate::features::windows::{filter_votes_for_window, window_pred, FeatureWindowConfig};
use crate::model::error::SenateSimError;
use crate::model::features::{FeatureReport, SenatorFeatureRecord};
use crate::model::identity::Party;
use crate::model::legislative::PolicyDomain;
use crate::model::records::{NormalizedSenatorRecord, NormalizedVoteRecord, VotePosition};
use crate::model::snapshot::DataSnapshot;
use crate::util::calendar::CalendarDate;
use crate::util::score::{
    clamp_signed, clamp_signed_spec, clamp_wide, clamp_wide_spec, floor_div, opt_score, ratio,
    ratio_spec, signed_unit, unit,
};
use crate::util::order::same_text;
use crate::util::seqs::{lemma_filter_empty_prefix, lemma_filter_prefix_step, lemma_filter_whole};
use crate::util::text::string_views;

verus! {

/// The first vote at or after `k` cast by `sid` (the length when none).
pub open spec fn senator_vote_from(g: Seq<NormalizedVoteRecord>, sid: Seq<char>, k: int) -> int
    decreases g.len() - k,
{
    if k < 0 || k >= g.len() {
        g.len() as int
    } else if g[k].senator_id@ == sid {
        k
    } else {
        senator_vote_from(g, sid, k + 1)
    }
}

/// Vote `i` is the first of its roll call.
pub open spec fn leads_roll_call(vs: Seq<NormalizedVoteRecord>, i: int) -> bool {
    forall|j: int| 0 <= j < i ==> vs[j].vote_id@ != vs[i].vote_id@
}

/// What the roll call led by vote `i` adds to (matches, counted): counted when
/// the senator voted yea or nay on it and the party had a majority position,
/// matching when the senator took that position.
pub open spec fn loyalty_step(vs: Seq<NormalizedVoteRecord>, i: int, sid: Seq<char>, party: Party) -> (int, int) {
    if !leads_roll_call(vs, i) {
        (0, 0)
    } else {
        let g = vs.filter(on_roll_call(vs[i].vote_id@));
        let k = senator_vote_from(g, sid, 0);
        if k >= g.len() || !decided(g[k]) {
            (0, 0)
        } else {
            match majority_spec(g, party) {
                Some(m) => (if g[k].vote_position == m {
                    1
                } else {
                    0
                }, 1),
                None => (0, 0),
            }
        }
    }
}

pub open spec fn loyalty_counts(vs: Seq<NormalizedVoteRecord>, n: int, sid: Seq<char>, party: Party) -> (int, int)
    decreases n,
{
    if n <= 0 {
        (0, 0)
    } else {
        let prev = loyalty_counts(vs, n - 1, sid, party);
        let step = loyalty_step(vs, n - 1, sid, party);
        (prev.0 + step.0, prev.1 + step.1)
    }
}

/// The share of roll calls on which the senator voted with the party
/// majority; none when no roll call counts.
pub open spec fn party_loyalty_spec(vs: Seq<NormalizedVoteRecord>, sid: Seq<char>, party: Party) -> Option<int> {
    let c = loyalty_counts(vs, vs.len() as int, sid, party);
    if c.1 == 0 {
        None
    } else {
        Some(ratio_spec(c.0, c.1))
    }
}

/// The other major party.
pub open spec fn opposite_party(party: Party) -> Option<Party> {
    match party {
        Party::Democrat => Some(Party::Republican),
        Party::Republican => Some(Party::Democrat),
        _ => None,
    }
}

/// What the roll call led by vote `i` adds to (cross-party, counted): counted
/// when the two parties' majorities split and the senator voted yea or nay,
/// cross-party when the senator sided with the other party.
pub open spec fn crossover_step(vs: Seq<NormalizedVoteRecord>, i: int, sid: Seq<char>, party: Party, other: Party) -> (int, int) {
    if !leads_roll_call(vs, i) {
        (0, 0)
    } else {
        let g = vs.filter(on_roll_call(vs[i].vote_id@));
        let k = senator_vote_from(g, sid, 0);
        if k >= g.len() || !decided(g[k]) {
            (0, 0)
        } else {
            match (majority_spec(g, party), majority_spec(g, other)) {
                (Some(own), Some(opp)) => if own == opp {
                    (0, 0)
                } else {
                    (if g[k].vote_position == opp {
                        1
                    } else {
                        0
                    }, 1)
                },
                _ => (0, 0),
            }
        }
    }
}

pub open spec fn crossover_counts(vs: Seq<NormalizedVoteRecord>, n: int, sid: Seq<char>, party: Party, other: Party) -> (int, int)
    decreases n,
{
    if n <= 0 {
        (0, 0)
    } else {
        let prev = crossover_counts(vs, n - 1, sid, party, other);
        let step = crossover_step(vs, n - 1, sid, party, other);
        (prev.0 + step.0, prev.1 + step.1)
    }
}

/// The share of party-splitting roll calls on which the senator sided with
/// the other major party; none for senators outside the two major parties or
/// when no roll call counts.
pub open spec fn bipartisanship_spec(vs: Seq<NormalizedVoteRecord>, sid: Seq<char>, party: Party) -> Option<int> {
    match opposite_party(party) {
        Some(other) => {
            let c = crossover_counts(vs, vs.len() as int, sid, party, other);
            if c.1 == 0 {
                None
            } else {
                Some(ratio_spec(c.0, c.1))
            }
        },
        None => None,
    }
}

fn leads(votes: &[&NormalizedVoteRecord], i: usize) -> (r: bool)
    requires
        i < votes@.len(),
    ensures
        r == leads_roll_call(derefs(votes@), i as int),
{
    let mut j: usize = 0;
    while j < i
        invariant
            j <= i,
            i < votes@.len(),
            forall|h: int| 0 <= h < j ==> votes@[h].vote_id@ != votes@[i as int].vote_id@,
        decreases i - j,
    {
        if votes[j].vote_id == votes[i].vote_id {
            proof {
                assert(derefs(votes@)[j as int].vote_id@ == derefs(votes@)[i as int].vote_id@);
            }
            return false;
        }
        j = j + 1;
    }
    true
}

fn roll_call_votes<'a>(votes: &[&'a NormalizedVoteRecord], id: &String) -> (r: Vec<&'a NormalizedVoteRecord>)
    ensures
        derefs(r@) == derefs(votes@).filter(on_roll_call(id@)),
{
    let ghost all = derefs(votes@);
    let ghost p = on_roll_call(id@);
    let mut out: Vec<&'a NormalizedVoteRecord> = Vec::new();
    let mut i: usize = 0;
    proof {
        lemma_filter_empty_prefix(all, p);
    }
    while i < votes.len()
        invariant
            all == derefs(votes@),
            p == on_roll_call(id@),
            i <= votes@.len(),
            derefs(out@) == all.subrange(0, i as int).filter(p),
        decreases votes.len() - i,
    {
        proof {
            lemma_filter_prefix_step(all, i as int, p);
        }
        let ghost before = out@;
        if votes[i].vote_id == *id {
            out.push(votes[i]);
            proof {
                assert(derefs(out@) =~= derefs(before).push(all[i as int]));
            }
        }
        i = i + 1;
    }
    proof {
        lemma_filter_whole(all, p);
    }
    out
}

fn find_senator_vote(g: &Vec<&NormalizedVoteRecord>, sid: &str) -> (r: usize)
    ensures
        r == senator_vote_from(derefs(g@), sid@, 0),
{
    let mut k: usize = 0;
    while k < g.len()
        invariant
            k <= g@.len(),
            senator_vote_from(derefs(g@), sid@, 0) == senator_vote_from(derefs(g@), sid@, k as int),
        decreases g.len() - k,
    {
        if same_text(g[k].senator_id.as_str(), sid) {
            return k;
        }
        k = k + 1;
    }
    k
}

fn is_decided(v: &NormalizedVoteRecord) -> (r: bool)
    ensures
        r == decided(*v),
{
    match v.vote_position {
        VotePosition::Yea | VotePosition::Nay => true,
        _ => false,
    }
}

/// The share of roll calls on which the senator voted with the party majority.
fn party_loyalty(all_votes: &[&NormalizedVoteRecord], senator_id: &str, party: &Party) -> (r: Option<i64>)
    ensures
        opt_score(r) == party_loyalty_spec(derefs(all_votes@), senator_id@, *party),
        r matches Some(x) ==> unit(x as int),
{
    let ghost vs = derefs(all_votes@);
    let mut matches: usize = 0;
    let mut total: usize = 0;
    let mut i: usize = 0;
    while i < all_votes.len()
        invariant
            vs == derefs(all_votes@),
            i <= all_votes@.len(),
            (matches as int, total as int) == loyalty_counts(vs, i as int, senator_id@, *party),
            matches <= total,
            total <= i,
        decreases all_votes.len() - i,
    {
        if leads(all_votes, i) {
            let group = roll_call_votes(all_votes, &all_votes[i].vote_id);
            let k = find_senator_vote(&group, senator_id);
            if k < group.len() && is_decided(group[k]) {
                match party_majority_position(group.as_slice(), party) {
                    Some(majority) => {
                        total = total + 1;
                        if group[k].vote_position == majority {
                            matches = matches + 1;
                        }
                    },
                    None => {},
                }
            }
        }
        i = i + 1;
    }
    if total == 0 {
        None
    } else {
        Some(ratio(matches, total))
    }
}

/// The share of party-splitting roll calls on which the senator sided with the
/// other major party.
fn bipartisanship(all_votes: &[&NormalizedVoteRecord], senator_id: &str, party: &Party) -> (r: Option<i64>)
    ensures
        opt_score(r) == bipartisanship_spec(derefs(all_votes@), senator_id@, *party),
        r matches Some(x) ==> unit(x as int),
{
    let opposite = match party {
        Party::Democrat => Party::Republican,
        Party::Republican => Party::Democrat,
        _ => {
            return None;
        },
    };
    let ghost vs = derefs(all_votes@);
    let mut cross: usize = 0;
    let mut total: usize = 0;
    let mut i: usize = 0;
    while i < all_votes.len()
        invariant
            vs == derefs(all_votes@),
            opposite_party(*party) == Some(opposite),
            i <= all_votes@.len(),
            (cross as int, total as int) == crossover_counts(vs, i as int, senator_id@, *party, opposite),
            cross <= total,
            total <= i,
        decreases all_votes.len() - i,
    {
        if leads(all_votes, i) {
            let group = roll_call_votes(all_votes, &all_votes[i].vote_id);
            let k = find_senator_vote(&group, senator_id);
            if k < group.len() && is_decided(group[k]) {
                let own = party_majority_position(group.as_slice(), party);
                let opp = party_majority_position(group.as_slice(), &opposite);
                match (own, opp) {
                    (Some(o), Some(x)) => {
                        if o != x {
                            total = total + 1;
                            if group[k].vote_position == x {
                                cross = cross + 1;
                            }
                        }
                    },
                    _ => {},
                }
            }
        }
        i = i + 1;
    }
    if total == 0 {
        None
    } else {
        Some(ratio(cross, total))
    }
}

pub open spec fn participated_pred() -> spec_fn(NormalizedVoteRecord) -> bool {
    |v: NormalizedVoteRecord| participated(v)
}

/// The share of votes the senator took part in; none without votes.
pub open spec fn attendance_spec(s: Seq<NormalizedVoteRecord>) -> Option<int> {
    if s.len() == 0 {
        None
    } else {
        Some(ratio_spec(s.filter(participated_pred()).len() as int, s.len() as int))
    }
}

fn attendance(votes: &[&NormalizedVoteRecord]) -> (r: Option<i64>)
    ensures
        opt_score(r) == attendance_spec(derefs(votes@)),
        r matches Some(x) ==> unit(x as int),
{
    let ghost all = derefs(votes@);
    let total = votes.len();
    if total == 0 {
        return None;
    }
    let mut participated_count: usize = 0;
    let mut i: usize = 0;
    proof {
        lemma_filter_empty_prefix(all, participated_pred());
    }
    while i < votes.len()
        invariant
            all == derefs(votes@),
            i <= votes@.len(),
            participated_count == all.subrange(0, i as int).filter(participated_pred()).len(),
            participated_count <= i,
        decreases votes.len() - i,
    {
        proof {
            lemma_filter_prefix_step(all, i as int, participated_pred());
        }
        if valid_participation(votes[i]) {
            participated_count = participated_count + 1;
        }
        i = i + 1;
    }
    proof {
        lemma_filter_whole(all, participated_pred());
    }
    Some(ratio(participated_count, total))
}

pub open spec fn or_default(o: Option<int>, d: int) -> int {
    match o {
        Some(x) => x,
        None => d,
    }
}

/// Loyalty assumed without history: 0.82 in a major party, 0.55 otherwise.
pub open spec fn loyalty_fallback(party: Party) -> int {
    match party {
        Party::Democrat | Party::Republican => 8200,
        _ => 5500,
    }
}

/// Bipartisanship assumed without history: 0.22 in a major party, 0.45
/// otherwise.
pub open spec fn bipartisanship_fallback(party: Party) -> int {
    match party {
        Party::Democrat | Party::Republican => 2200,
        _ => 4500,
    }
}

/// Procedural support assumed without history, by party and step.
pub open spec fn procedural_fallback_spec(party: Party, step: ProceduralStep) -> int {
    match (party, step) {
        (Party::Democrat, ProceduralStep::Cloture) => 6800,
        (Party::Republican, ProceduralStep::Cloture) => 4200,
        (Party::Democrat, ProceduralStep::MotionToProceed) => 7400,
        (Party::Republican, ProceduralStep::MotionToProceed) => 5500,
        (Party::Democrat, ProceduralStep::Amendment) => 6200,
        (Party::Republican, ProceduralStep::Amendment) => 4800,
        _ => 5000,
    }
}

fn loyalty_fallback_score(party: &Party) -> (r: i64)
    ensures
        r == loyalty_fallback(*party),
{
    match party {
        Party::Democrat | Party::Republican => 8200,
        _ => 5500,
    }
}

fn bipartisanship_fallback_score(party: &Party) -> (r: i64)
    ensures
        r == bipartisanship_fallback(*party),
{
    match party {
        Party::Democrat | Party::Republican => 2200,
        _ => 4500,
    }
}

fn procedural_fallback(party: &Party, step: ProceduralStep) -> (r: i64)
    ensures
        r == procedural_fallback_spec(*party, step),
{
    match (party, step) {
        (Party::Democrat, ProceduralStep::Cloture) => 6800,
        (Party::Republican, ProceduralStep::Cloture) => 4200,
        (Party::Democrat, ProceduralStep::MotionToProceed) => 7400,
        (Party::Republican, ProceduralStep::MotionToProceed) => 5500,
        (Party::Democrat, ProceduralStep::Amendment) => 6200,
        (Party::Republican, ProceduralStep::Amendment) => 4800,
        _ => 5000,
    }
}

/// Ideology proxy: a party anchor (-0.45 / 0.45), party discipline (0.7 times
/// loyalty above one half, toward the party's side), crossover (0.2 times
/// bipartisanship, toward the other side) and an issue mix (0.15 times
/// budget + judiciary - labor - energy), rounded down and clamped to [-1, 1].
pub open spec fn ideology_spec(party: Party, loyalty: int, bip: int, budget: int, labor: int, judiciary: int, energy: int) -> int {
    let side: int = match party {
        Party::Democrat => -1,
        Party::Republican => 1,
        _ => 0,
    };
    clamp_signed_spec(
        (side * 4500 * 10000 + side * (loyalty - 5000) * 7000 - side * bip * 2000 + (budget
            + judiciary - labor - energy) * 1500) / 10000,
    )
}

fn ideology_proxy(party: &Party, loyalty: i64, bip: i64, budget: i64, labor: i64, judiciary: i64, energy: i64) -> (r: i64)
    requires
        unit(loyalty as int),
        unit(bip as int),
        signed_unit(budget as int),
        signed_unit(labor as int),
        signed_unit(judiciary as int),
        signed_unit(energy as int),
    ensures
        r == ideology_spec(*party, loyalty as int, bip as int, budget as int, labor as int, judiciary as int, energy as int),
        signed_unit(r as int),
{
    let side: i64 = match party {
        Party::Democrat => -1,
        Party::Republican => 1,
        _ => 0,
    };
    let n = side * 4500 * 10000 + side * (loyalty - 5000) * 7000 - side * bip * 2000 + (budget
        + judiciary - labor - energy) * 1500;
    let q = floor_div(n as i128, 10000) as i64;
    proof {
        assert(-20000 <= (n as int) / 10000 <= 20000);
    }
    clamp_signed(q)
}

/// Procedural rigidity: 0.40 loyalty + 0.25 (1 - bipartisanship) + 0.20
/// (1 - amendment openness) + 0.15 recent loyalty, clamped.
pub open spec fn rigidity_spec(loyalty: int, bip: int, amendment: int, recent_loyalty: int) -> int {
    clamp_wide_spec(
        loyalty * 4000 + (10000 - bip) * 2500 + (10000 - amendment) * 2000 + recent_loyalty * 1500,
    )
}

pub open spec fn sparse_history_note() -> Seq<char> {
    "limited historical vote coverage; using party-level fallbacks"@
}

pub open spec fn sparse_procedure_note() -> Seq<char> {
    "limited procedural vote history; cloture support uses fallback"@
}

/// The notes of a feature record: sparse history below five votes, and no
/// cloture vote in the baseline window.
pub open spec fn feature_notes_spec(historical: int, cloture_count: int) -> Seq<Seq<char>> {
    let n0: Seq<Seq<char>> = if historical < 5 {
        seq![sparse_history_note()]
    } else {
        seq![]
    };
    if cloture_count == 0 {
        n0.push(sparse_procedure_note())
    } else {
        n0
    }
}

pub open spec fn by_senator(sid: Seq<char>) -> spec_fn(NormalizedVoteRecord) -> bool {
    |v: NormalizedVoteRecord| v.senator_id@ == sid
}

/// `rec` holds the features of `sen` from the baseline and recent windows of
/// the vote history.
pub open spec fn feature_matches(rec: SenatorFeatureRecord, date: CalendarDate, sen: NormalizedSenatorRecord, base: Seq<NormalizedVoteRecord>, recent: Seq<NormalizedVoteRecord>) -> bool {
    let sid = sen.senator_id@;
    let party = sen.party;
    let sb = base.filter(by_senator(sid));
    let sr = recent.filter(by_senator(sid));
    let loy = or_default(party_loyalty_spec(base, sid, party), loyalty_fallback(party));
    let rloy = or_default(party_loyalty_spec(recent, sid, party), loy);
    let bip = or_default(bipartisanship_spec(base, sid, party), bipartisanship_fallback(party));
    let rbip = or_default(bipartisanship_spec(recent, sid, party), bip);
    let att = or_default(attendance_spec(sb), 9500);
    let clo = or_default(
        support_rate_spec(sb.filter(step_pred(ProceduralStep::Cloture))),
        procedural_fallback_spec(party, ProceduralStep::Cloture),
    );
    let mtp = or_default(
        support_rate_spec(sb.filter(step_pred(ProceduralStep::MotionToProceed))),
        procedural_fallback_spec(party, ProceduralStep::MotionToProceed),
    );
    let am = or_default(
        support_rate_spec(sb.filter(step_pred(ProceduralStep::Amendment))),
        procedural_fallback_spec(party, ProceduralStep::Amendment),
    );
    &&& rec.snapshot_date == date
    &&& rec.senator_id@ == sid
    &&& rec.full_name@ == sen.full_name@
    &&& rec.party == party
    &&& rec.state@ == sen.state@
    &&& rec.party_loyalty_baseline == loy
    &&& rec.recent_party_loyalty == rloy
    &&& rec.bipartisanship_baseline == bip
    &&& rec.recent_bipartisanship == rbip
    &&& rec.attendance_reliability == att
    &&& rec.recent_attendance_reliability == or_default(attendance_spec(sr), att)
    &&& rec.cloture_support_baseline == clo
    &&& rec.recent_cloture_support == or_default(
        support_rate_spec(sr.filter(step_pred(ProceduralStep::Cloture))),
        clo,
    )
    &&& rec.motion_to_proceed_baseline == mtp
    &&& rec.amendment_openness == am
    &&& rec.procedural_rigidity == rigidity_spec(loy, bip, am, rloy)
    &&& rec.defense_score == domain_score_spec(sb, PolicyDomain::Defense, party).0
    &&& rec.budget_tax_score == domain_score_spec(sb, PolicyDomain::BudgetTax, party).0
    &&& rec.healthcare_score == domain_score_spec(sb, PolicyDomain::Healthcare, party).0
    &&& rec.immigration_score == domain_score_spec(sb, PolicyDomain::Immigration, party).0
    &&& rec.energy_climate_score == domain_score_spec(sb, PolicyDomain::EnergyClimate, party).0
    &&& rec.judiciary_score == domain_score_spec(sb, PolicyDomain::Judiciary, party).0
    &&& rec.technology_score == domain_score_spec(sb, PolicyDomain::Technology, party).0
    &&& rec.foreign_policy_score == domain_score_spec(sb, PolicyDomain::ForeignPolicy, party).0
    &&& rec.labor_score == domain_score_spec(sb, PolicyDomain::Labor, party).0
    &&& rec.education_score == domain_score_spec(sb, PolicyDomain::Education, party).0
    &&& rec.ideology_proxy == ideology_spec(
        party,
        loy,
        bip,
        domain_score_spec(sb, PolicyDomain::BudgetTax, party).0,
        domain_score_spec(sb, PolicyDomain::Labor, party).0,
        domain_score_spec(sb, PolicyDomain::Judiciary, party).0,
        domain_score_spec(sb, PolicyDomain::EnergyClimate, party).0,
    )
    &&& rec.historical_vote_count == sb.len()
    &&& rec.recent_vote_count == sr.len()
    &&& rec.coverage_score == ratio_spec(sb.len() as int, 12)
    &&& string_views(rec.notes@) == feature_notes_spec(
        sb.len() as int,
        sb.filter(step_pred(ProceduralStep::Cloture)).len() as int,
    )
}

fn votes_by_senator<'a>(votes: &[&'a NormalizedVoteRecord], sid: &str) -> (r: Vec<&'a NormalizedVoteRecord>)
    ensures
        derefs(r@) == derefs(votes@).filter(by_senator(sid@)),
{
    let ghost all = derefs(votes@);
    let ghost p = by_senator(sid@);
    let mut out: Vec<&'a NormalizedVoteRecord> = Vec::new();
    let mut i: usize = 0;
    proof {
        lemma_filter_empty_prefix(all, p);
    }
    while i < votes.len()
        invariant
            all == derefs(votes@),
            p == by_senator(sid@),
            i <= votes@.len(),
            derefs(out@) == all.subrange(0, i as int).filter(p),
        decreases votes.len() - i,
    {
        proof {
            lemma_filter_prefix_step(all, i as int, p);
        }
        let ghost before = out@;
        if same_text(votes[i].senator_id.as_str(), sid) {
            out.push(votes[i]);
            proof {
                assert(derefs(out@) =~= derefs(before).push(all[i as int]));
            }
        }
        i = i + 1;
    }
    proof {
        lemma_filter_whole(all, p);
    }
    out
}

fn unwrap_score(o: Option<i64>, d: i64) -> (r: i64)
    ensures
        r == or_default(opt_score(o), d as int),
{
    match o {
        Some(x) => x,
        None => d,
    }
}

fn push_note(v: &mut Vec<String>, s: &str)
    ensures
        string_views(final(v)@) == string_views(old(v)@).push(s@),
{
    v.push(String::from_str(s));
    proof {
        assert(string_views(v@) =~= string_views(old(v)@).push(s@));
    }
}

/// The features of one senator from the baseline and recent windows.
#[verifier::rlimit(40)]
fn senator_features(
    date: &CalendarDate,
    senator: &NormalizedSenatorRecord,
    baseline: &Vec<&NormalizedVoteRecord>,
    recent: &Vec<&NormalizedVoteRecord>,
) -> (rec: SenatorFeatureRecord)
    requires
        senator.wf(),
    ensures
        feature_matches(rec, *date, *senator, derefs(baseline@), derefs(recent@)),
        rec.wf(),
{
    let sid = senator.senator_id.as_str();
    let party = &senator.party;
    let sb = votes_by_senator(baseline.as_slice(), sid);
    let sr = votes_by_senator(recent.as_slice(), sid);

    let loyalty = unwrap_score(party_loyalty(baseline.as_slice(), sid, party), loyalty_fallback_score(party));
    let recent_loyalty = unwrap_score(party_loyalty(recent.as_slice(), sid, party), loyalty);
    let bip = unwrap_score(bipartisanship(baseline.as_slice(), sid, party), bipartisanship_fallback_score(party));
    let recent_bip = unwrap_score(bipartisanship(recent.as_slice(), sid, party), bip);
    let att = unwrap_score(attendance(sb.as_slice()), 9500);
    let recent_att = unwrap_score(attendance(sr.as_slice()), att);

    let sb_cloture = cloture_votes(sb.as_slice());
    let cloture = unwrap_score(support_rate(sb_cloture.as_slice()), procedural_fallback(party, ProceduralStep::Cloture));
    let recent_cloture = unwrap_score(support_rate(cloture_votes(sr.as_slice()).as_slice()), cloture);
    let motion = unwrap_score(
        support_rate(motion_to_proceed_votes(sb.as_slice()).as_slice()),
        procedural_fallback(party, ProceduralStep::MotionToProceed),
    );
    let amendment = unwrap_score(
        support_rate(amendment_votes(sb.as_slice()).as_slice()),
        procedural_fallback(party, ProceduralStep::Amendment),
    );
    let rigidity = clamp_wide(
        loyalty * 4000 + (10000 - bip) * 2500 + (10000 - amendment) * 2000 + recent_loyalty * 1500,
    );

    let (defense, defense_n) = domain_score(sb.as_slice(), &PolicyDomain::Defense, party);
    let (budget, budget_n) = domain_score(sb.as_slice(), &PolicyDomain::BudgetTax, party);
    let (healthcare, healthcare_n) = domain_score(sb.as_slice(), &PolicyDomain::Healthcare, party);
    let (immigration, immigration_n) = domain_score(sb.as_slice(), &PolicyDomain::Immigration, party);
    let (energy, energy_n) = domain_score(sb.as_slice(), &PolicyDomain::EnergyClimate, party);
    let (judiciary, judiciary_n) = domain_score(sb.as_slice(), &PolicyDomain::Judiciary, party);
    let (technology, technology_n) = domain_score(sb.as_slice(), &PolicyDomain::Technology, party);
    let (foreign, foreign_n) = domain_score(sb.as_slice(), &PolicyDomain::ForeignPolicy, party);
    let (labor, labor_n) = domain_score(sb.as_slice(), &PolicyDomain::Labor, party);
    let (education, education_n) = domain_score(sb.as_slice(), &PolicyDomain::Education, party);

    let ideology = ideology_proxy(party, loyalty, bip, budget, labor, judiciary, energy);
    let historical = sb.len();
    let coverage = ratio(historical, 12);

    let mut notes: Vec<String> = Vec::new();
    if historical < 5 {
        push_note(&mut notes, "limited historical vote coverage; using party-level fallbacks");
    }
    if sb_cloture.len() == 0 {
        push_note(&mut notes, "limited procedural vote history; cloture support uses fallback");
    }
    // The domain coverages are compared as a set of distinct counts, so at
    // most one of them can be zero.
    let any_empty_domain = defense_n == 0 || budget_n == 0 || healthcare_n == 0 || immigration_n == 0
        || energy_n == 0 || judiciary_n == 0 || technology_n == 0 || foreign_n == 0 || labor_n == 0
        || education_n == 0;
    let distinct_empty_counts: usize = if any_empty_domain {
        1
    } else {
        0
    };
    if distinct_empty_counts > 5 {
        push_note(&mut notes, "multiple issue-domain scores use party fallback due to sparse coverage");
    }
    proof {
        let n0: Seq<Seq<char>> = if historical < 5 {
            seq![sparse_history_note()]
        } else {
            seq![]
        };
        assert(string_views(notes@) =~= feature_notes_spec(historical as int, sb_cloture@.len() as int));
    }

    SenatorFeatureRecord {
        snapshot_date: date.copy(),
        senator_id: senator.senator_id.clone(),
        full_name: senator.full_name.clone(),
        party: senator.party.copy(),
        state: senator.state.clone(),
        party_loyalty_baseline: loyalty,
        bipartisanship_baseline: bip,
        attendance_reliability: att,
        ideology_proxy: ideology,
        cloture_support_baseline: cloture,
        motion_to_proceed_baseline: motion,
        amendment_openness: amendment,
        procedural_rigidity: rigidity,
        defense_score: defense,
        budget_tax_score: budget,
        healthcare_score: healthcare,
        immigration_score: immigration,
        energy_climate_score: energy,
        judiciary_score: judiciary,
        technology_score: technology,
        foreign_policy_score: foreign,
        labor_score: labor,
        education_score: education,
        recent_party_loyalty: recent_loyalty,
        recent_bipartisanship: recent_bip,
        recent_cloture_support: recent_cloture,
        recent_attendance_reliability: recent_att,
        historical_vote_count: historical,
        recent_vote_count: sr.len(),
        coverage_score: coverage,
        notes,
    }
}

/// `recs` are the features of the snapshot's roster, in roster order, from
/// the votes inside the configured windows.
pub open spec fn features_match(recs: Seq<SenatorFeatureRecord>, snap: DataSnapshot, votes: Seq<NormalizedVoteRecord>, cfg: FeatureWindowConfig) -> bool {
    let date = snap.snapshot_date.day_number as int;
    let base = votes.filter(window_pred(date, cfg.baseline_lookback_days));
    let recent = votes.filter(window_pred(date, Some(cfg.recent_lookback_days)));
    &&& recs.len() == snap.roster_records@.len()
    &&& forall|i: int|
        0 <= i < recs.len() ==> feature_matches(
            #[trigger] recs[i],
            snap.snapshot_date,
            snap.roster_records@[i],
            base,
            recent,
        )
}

/// Features for every senator of the snapshot's roster, from the votes cast
/// on or before the snapshot date: the baseline window (`config`'s baseline
/// look-back) and the recent window (its recent look-back).
pub fn build_senator_features_for_snapshot(
    snapshot: &DataSnapshot,
    votes: &[NormalizedVoteRecord],
    config: &FeatureWindowConfig,
) -> (r: Result<Vec<SenatorFeatureRecord>, SenateSimError>)
    ensures
        r is Ok <==> snapshot.wf(),
        r matches Ok(recs) ==> features_match(recs@, *snapshot, votes@, *config),
        r matches Ok(recs) ==> forall|i: int| 0 <= i < recs@.len() ==> (#[trigger] recs@[i]).wf(),
{
    snapshot.validate()?;
    let baseline = filter_votes_for_window(votes, snapshot.snapshot_date.copy(), config.baseline_lookback_days);
    let recent = filter_votes_for_window(votes, snapshot.snapshot_date.copy(), Some(config.recent_lookback_days));
    let mut records: Vec<SenatorFeatureRecord> = Vec::new();
    let mut i: usize = 0;
    while i < snapshot.roster_records.len()
        invariant
            snapshot.wf(),
            i <= snapshot.roster_records@.len(),
            records@.len() == i,
            derefs(baseline@) == votes@.filter(
                window_pred(snapshot.snapshot_date.day_number as int, config.baseline_lookback_days),
            ),
            derefs(recent@) == votes@.filter(
                window_pred(snapshot.snapshot_date.day_number as int, Some(config.recent_lookback_days)),
            ),
            forall|k: int|
                0 <= k < i ==> feature_matches(
                    #[trigger] records@[k],
                    snapshot.snapshot_date,
                    snapshot.roster_records@[k],
                    derefs(baseline@),
                    derefs(recent@),
                ),
            forall|k: int| 0 <= k < i ==> (#[trigger] records@[k]).wf(),
        decreases snapshot.roster_records.len() - i,
    {
        let record = senator_features(&snapshot.snapshot_date, &snapshot.roster_records[i], &baseline, &recent);
        match record.validate() {
            Ok(()) => {},
            Err(e) => return Err(e),
        }
        records.push(record);
        i = i + 1;
    }
    Ok(records)
}

/// A vote cast on or before the day.
pub open spec fn cast_by(date: int) -> spec_fn(NormalizedVoteRecord) -> bool {
    |v: NormalizedVoteRecord| v.vote_date.day_number <= date
}

/// Features depend only on the votes cast on or before the snapshot date: two
/// vote lists that hold the same such votes, in the same order, give the same
/// features, however the votes after that date are added, removed or changed.
pub proof fn law_features_ignore_later_votes(
    recs: Seq<SenatorFeatureRecord>,
    snap: DataSnapshot,
    votes: Seq<NormalizedVoteRecord>,
    other_votes: Seq<NormalizedVoteRecord>,
    cfg: FeatureWindowConfig,
)
    requires
        votes.filter(cast_by(snap.snapshot_date.day_number as int)) == other_votes.filter(
            cast_by(snap.snapshot_date.day_number as int),
        ),
    ensures
        features_match(recs, snap, votes, cfg) == features_match(recs, snap, other_votes, cfg),
{
    let date = snap.snapshot_date.day_number as int;
    let base = window_pred(date, cfg.baseline_lookback_days);
    let recent = window_pred(date, Some(cfg.recent_lookback_days));
    crate::util::seqs::lemma_filter_nested(votes, base, cast_by(date));
    crate::util::seqs::lemma_filter_nested(other_votes, base, cast_by(date));
    crate::util::seqs::lemma_filter_nested(votes, recent, cast_by(date));
    crate::util::seqs::lemma_filter_nested(other_votes, recent, cast_by(date));
    assert(votes.filter(base) == other_votes.filter(base));
    assert(votes.filter(recent) == other_votes.filter(recent));
}

/// The two feature records hold the same values.
pub open spec fn same_features(a: SenatorFeatureRecord, b: SenatorFeatureRecord) -> bool {
    &&& a.snapshot_date == b.snapshot_date
    &&& a.senator_id@ == b.senator_id@
    &&& a.full_name@ == b.full_name@
    &&& a.party == b.party
    &&& a.state@ == b.state@
    &&& a.party_loyalty_baseline == b.party_loyalty_baseline
    &&& a.bipartisanship_baseline == b.bipartisanship_baseline
    &&& a.attendance_reliability == b.attendance_reliability
    &&& a.ideology_proxy == b.ideology_proxy
    &&& a.cloture_support_baseline == b.cloture_support_baseline
    &&& a.motion_to_proceed_baseline == b.motion_to_proceed_baseline
    &&& a.amendment_openness == b.amendment_openness
    &&& a.procedural_rigidity == b.procedural_rigidity
    &&& a.defense_score == b.defense_score
    &&& a.budget_tax_score == b.budget_tax_score
    &&& a.healthcare_score == b.healthcare_score
    &&& a.immigration_score == b.immigration_score
    &&& a.energy_climate_score == b.energy_climate_score
    &&& a.judiciary_score == b.judiciary_score
    &&& a.technology_score == b.technology_score
    &&& a.foreign_policy_score == b.foreign_policy_score
    &&& a.labor_score == b.labor_score
    &&& a.education_score == b.education_score
    &&& a.recent_party_loyalty == b.recent_party_loyalty
    &&& a.recent_bipartisanship == b.recent_bipartisanship
    &&& a.recent_cloture_support == b.recent_cloture_support
    &&& a.recent_attendance_reliability == b.recent_attendance_reliability
    &&& a.historical_vote_count == b.historical_vote_count
    &&& a.recent_vote_count == b.recent_vote_count
    &&& a.coverage_score == b.coverage_score
    &&& string_views(a.notes@) == string_views(b.notes@)
}

/// Two feature builds for one snapshot and windows, from vote lists that hold
/// the same votes on or before the snapshot date, give the same features for
/// every senator, whatever the votes after that date.
pub proof fn law_feature_builds_agree(
    recs: Seq<SenatorFeatureRecord>,
    other_recs: Seq<SenatorFeatureRecord>,
    snap: DataSnapshot,
    votes: Seq<NormalizedVoteRecord>,
    other_votes: Seq<NormalizedVoteRecord>,
    cfg: FeatureWindowConfig,
)
    requires
        votes.filter(cast_by(snap.snapshot_date.day_number as int)) == other_votes.filter(
            cast_by(snap.snapshot_date.day_number as int),
        ),
        features_match(recs, snap, votes, cfg),
        features_match(other_recs, snap, other_votes, cfg),
    ensures
        recs.len() == other_recs.len(),
        forall|i: int| 0 <= i < recs.len() ==> same_features(#[trigger] recs[i], other_recs[i]),
{
    law_features_ignore_later_votes(other_recs, snap, votes, other_votes, cfg);
    let date = snap.snapshot_date.day_number as int;
    let base = votes.filter(window_pred(date, cfg.baseline_lookback_days));
    let recent = votes.filter(window_pred(date, Some(cfg.recent_lookback_days)));
    assert forall|i: int| 0 <= i < recs.len() implies same_features(#[trigger] recs[i], other_recs[i]) by {
        assert(feature_matches(recs[i], snap.snapshot_date, snap.roster_records@[i], base, recent));
        assert(feature_matches(other_recs[i], snap.snapshot_date, snap.roster_records@[i], base, recent));
    }
}

pub open spec fn coverage_sum(recs: Seq<SenatorFeatureRecord>) -> int
    decreases recs.len(),
{
    if recs.len() == 0 {
        0
    } else {
        coverage_sum(recs.drop_last()) + recs.last().coverage_score
    }
}

pub open spec fn sparse_pred() -> spec_fn(SenatorFeatureRecord) -> bool {
    |f: SenatorFeatureRecord| f.historical_vote_count < 5
}

/// The report's notes.
pub open spec fn feature_report_notes() -> Seq<Seq<char>> {
    seq![
        "feature records use only votes on or before the snapshot date"@,
        "sparse-history senators fall back to party baselines with explicit notes"@,
    ]
}

/// Counts the senators processed and those with fewer than five historical
/// votes, and averages the coverage scores (rounded down; 0 without records).
pub fn build_feature_report(snapshot_date: CalendarDate, features: &[SenatorFeatureRecord]) -> (r: FeatureReport)
    requires
        forall|i: int| 0 <= i < features@.len() ==> unit((#[trigger] features@[i]).coverage_score as int),
    ensures
        r.snapshot_date == snapshot_date,
        r.senators_processed == features@.len(),
        r.senators_with_sparse_history == features@.filter(sparse_pred()).len(),
        r.average_coverage_score == (if features@.len() == 0 {
            0
        } else {
            coverage_sum(features@) / (features@.len() as int)
        }),
        unit(r.average_coverage_score as int),
        string_views(r.notes@) == feature_report_notes(),
{
    let mut sparse: usize = 0;
    let mut sum: u128 = 0;
    let mut i: usize = 0;
    proof {
        lemma_filter_empty_prefix(features@, sparse_pred());
        assert(features@.subrange(0, 0) =~= Seq::<SenatorFeatureRecord>::empty());
    }
    while i < features.len()
        invariant
            i <= features@.len(),
            forall|k: int| 0 <= k < features@.len() ==> unit((#[trigger] features@[k]).coverage_score as int),
            sparse == features@.subrange(0, i as int).filter(sparse_pred()).len(),
            sparse <= i,
            sum == coverage_sum(features@.subrange(0, i as int)),
            0 <= sum <= 10000 * i,
        decreases features.len() - i,
    {
        proof {
            lemma_filter_prefix_step(features@, i as int, sparse_pred());
            assert(features@.subrange(0, i + 1).drop_last() =~= features@.subrange(0, i as int));
        }
        if features[i].historical_vote_count < 5 {
            sparse = sparse + 1;
        }
        sum = sum + features[i].coverage_score as u128;
        i = i + 1;
    }
    proof {
        lemma_filter_whole(features@, sparse_pred());
        assert(features@.subrange(0, features@.len() as int) =~= features@);
    }
    let average: i64 = if features.len() == 0 {
        0
    } else {
        let n = features.len() as u128;
        proof {
            assert(0 <= (sum as int) / (n as int) <= 10000) by (nonlinear_arith)
                requires
                    0 <= sum <= 10000 * n,
                    n > 0,
            ;
        }
        (sum / n) as i64
    };
    let mut notes: Vec<String> = Vec::new();
    notes.push(String::from_str("feature records use only votes on or before the snapshot date"));
    notes.push(String::from_str("sparse-history senators fall back to party baselines with explicit notes"));
    proof {
        assert(string_views(notes@) =~= feature_report_notes());
    }
    FeatureReport {
        snapshot_date,
        senators_processed: features.len(),
        senators_with_sparse_history: sparse,
        average_coverage_score: average,
        notes,
    }
}

} // verus!
