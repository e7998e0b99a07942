//! Normalization of raw source records, and the default procedural context.

use vstd::prelude::*;
use crate::model::context::{Chamber, CongressionalSession, LegislativeContext, ProceduralStage};
use crate::model::error::SenateSimError;
use crate::model::identity::{Party, SenateClass};
use crate::model::legislative::{BudgetaryImpact, LegislativeObjectType, PolicyDomain};
use crate::model::records::{
    NormalizedActionCategory, NormalizedActionRecord, NormalizedLegislativeRecord,
    NormalizedSenatorRecord, NormalizedVoteRecord, ProceduralKind, RawActionRecord,
    RawLegislativeRecord, RawRosterRecord, RawVoteRecord, VoteCategory, VotePosition,
};
use crate::util::calendar::{day_month, CalendarDate};
use crate::util::text::{
    chars_of, eq_ignore_case, eq_ignore_case_text, has_text, lower_chars, lower_seq, sanitize_identifier,
    sanitized, seq_contains, starts_with, starts_with_text, trim_seq, trimmed,
};

verus! {

/// The context assumed for an object at `stage` on `date`: the 119th
/// Congress in the Senate, first session before July, Democratic majority,
/// an election 300 days and a deadline 21 days away, leadership priority 0.62
/// and media attention 0.55.
pub open spec fn default_context_spec(c: LegislativeContext, date: CalendarDate, stage: ProceduralStage) -> bool {
    &&& c.congress_number == 119
    &&& c.session == (if day_month(date.day_number as int) < 7 {
        CongressionalSession::First
    } else {
        CongressionalSession::Second
    })
    &&& c.current_chamber == Chamber::Senate
    &&& c.procedural_stage == stage
    &&& c.majority_party == Party::Democrat
    &&& c.minority_party == Party::Republican
    &&& c.president_party == Party::Democrat
    &&& c.days_until_election == Some(300i32)
    &&& c.days_until_deadline == Some(21i32)
    &&& !c.under_unanimous_consent
    &&& !c.under_reconciliation
    &&& c.leadership_priority == 6200
    &&& c.media_attention == 5500
}

pub fn default_context_for_stage(snapshot_date: &CalendarDate, stage: ProceduralStage) -> (r: LegislativeContext)
    ensures
        default_context_spec(r, *snapshot_date, stage),
        r.wf(),
{
    let session = if snapshot_date.month() < 7 {
        CongressionalSession::First
    } else {
        CongressionalSession::Second
    };
    LegislativeContext {
        congress_number: 119,
        session,
        current_chamber: Chamber::Senate,
        procedural_stage: stage,
        majority_party: Party::Democrat,
        minority_party: Party::Republican,
        president_party: Party::Democrat,
        days_until_election: Some(300),
        days_until_deadline: Some(21),
        under_unanimous_consent: false,
        under_reconciliation: false,
        leadership_priority: 6200,
        media_attention: 5500,
    }
}

/// Unicode uppercase of a text, as `str::to_uppercase` computes it.
pub uninterp spec fn unicode_upper(s: Seq<char>) -> Seq<char>;

/// Trusted: `str::to_uppercase`. Every character maps to one or more
/// characters, so only the empty text has an empty uppercase; an ASCII
/// character maps to its ASCII uppercase, so an all-ASCII text is uppercased
/// letter by letter.
#[verifier::external_body]
fn to_uppercase_text(s: &str) -> (r: String)
    ensures
        r@ == unicode_upper(s@),
        r@.len() == 0 <==> s@.len() == 0,
        (forall|i: int| 0 <= i < s@.len() ==> (s@[i] as u32) < 128) ==> r@ == crate::util::text::upper_seq(s@),
{
    s.to_uppercase()
}

/// The party a raw party label names (ignoring ASCII case).
pub open spec fn party_named(p: Party, v: Seq<char>) -> bool {
    if eq_ignore_case(v, "D"@) || eq_ignore_case(v, "Democrat"@) || eq_ignore_case(v, "Democratic"@) {
        p == Party::Democrat
    } else if eq_ignore_case(v, "R"@) || eq_ignore_case(v, "Republican"@) {
        p == Party::Republican
    } else if eq_ignore_case(v, "I"@) || eq_ignore_case(v, "Independent"@) {
        p == Party::Independent
    } else {
        p matches Party::Other(s) && s@ == trim_seq(v)
    }
}

pub fn parse_party(value: &str) -> (r: Party)
    ensures
        party_named(r, value@),
{
    if eq_ignore_case_text(value, "D") || eq_ignore_case_text(value, "Democrat") || eq_ignore_case_text(
        value,
        "Democratic",
    ) {
        Party::Democrat
    } else if eq_ignore_case_text(value, "R") || eq_ignore_case_text(value, "Republican") {
        Party::Republican
    } else if eq_ignore_case_text(value, "I") || eq_ignore_case_text(value, "Independent") {
        Party::Independent
    } else {
        Party::Other(trimmed(value))
    }
}

pub open spec fn vote_position_spec(v: Seq<char>) -> VotePosition {
    if eq_ignore_case(v, "yea"@) || eq_ignore_case(v, "yes"@) {
        VotePosition::Yea
    } else if eq_ignore_case(v, "nay"@) || eq_ignore_case(v, "no"@) {
        VotePosition::Nay
    } else if eq_ignore_case(v, "present"@) {
        VotePosition::Present
    } else if eq_ignore_case(v, "notvoting"@) || eq_ignore_case(v, "not_voting"@) || eq_ignore_case(
        v,
        "absent"@,
    ) {
        VotePosition::NotVoting
    } else {
        VotePosition::Unknown
    }
}

pub fn parse_vote_position(value: &str) -> (r: VotePosition)
    ensures
        r == vote_position_spec(value@),
{
    if eq_ignore_case_text(value, "yea") || eq_ignore_case_text(value, "yes") {
        VotePosition::Yea
    } else if eq_ignore_case_text(value, "nay") || eq_ignore_case_text(value, "no") {
        VotePosition::Nay
    } else if eq_ignore_case_text(value, "present") {
        VotePosition::Present
    } else if eq_ignore_case_text(value, "notvoting") || eq_ignore_case_text(value, "not_voting")
        || eq_ignore_case_text(value, "absent") {
        VotePosition::NotVoting
    } else {
        VotePosition::Unknown
    }
}

pub open spec fn vote_category_spec(v: Seq<char>) -> VoteCategory {
    if eq_ignore_case(v, "passage"@) {
        VoteCategory::Passage
    } else if eq_ignore_case(v, "cloture"@) {
        VoteCategory::Cloture
    } else if eq_ignore_case(v, "motiontoproceed"@) || eq_ignore_case(v, "motion_to_proceed"@) {
        VoteCategory::MotionToProceed
    } else if eq_ignore_case(v, "amendment"@) {
        VoteCategory::Amendment
    } else if eq_ignore_case(v, "nomination"@) {
        VoteCategory::Nomination
    } else if eq_ignore_case(v, "procedural"@) {
        VoteCategory::Procedural
    } else {
        VoteCategory::Other
    }
}

pub fn parse_vote_category(value: &str) -> (r: VoteCategory)
    ensures
        r == vote_category_spec(value@),
{
    if eq_ignore_case_text(value, "passage") {
        VoteCategory::Passage
    } else if eq_ignore_case_text(value, "cloture") {
        VoteCategory::Cloture
    } else if eq_ignore_case_text(value, "motiontoproceed") || eq_ignore_case_text(
        value,
        "motion_to_proceed",
    ) {
        VoteCategory::MotionToProceed
    } else if eq_ignore_case_text(value, "amendment") {
        VoteCategory::Amendment
    } else if eq_ignore_case_text(value, "nomination") {
        VoteCategory::Nomination
    } else if eq_ignore_case_text(value, "procedural") {
        VoteCategory::Procedural
    } else {
        VoteCategory::Other
    }
}

pub open spec fn procedural_kind_spec(v: Seq<char>) -> ProceduralKind {
    if eq_ignore_case(v, "cloture"@) {
        ProceduralKind::Cloture
    } else if eq_ignore_case(v, "motiontoproceed"@) || eq_ignore_case(v, "motion_to_proceed"@) {
        ProceduralKind::MotionToProceed
    } else if eq_ignore_case(v, "amendmentprocess"@) || eq_ignore_case(v, "amendment_process"@) {
        ProceduralKind::AmendmentProcess
    } else if eq_ignore_case(v, "table"@) {
        ProceduralKind::Table
    } else if eq_ignore_case(v, "recommit"@) {
        ProceduralKind::Recommit
    } else {
        ProceduralKind::Other
    }
}

pub fn parse_procedural_kind(value: &str) -> (r: ProceduralKind)
    ensures
        r == procedural_kind_spec(value@),
{
    if eq_ignore_case_text(value, "cloture") {
        ProceduralKind::Cloture
    } else if eq_ignore_case_text(value, "motiontoproceed") || eq_ignore_case_text(
        value,
        "motion_to_proceed",
    ) {
        ProceduralKind::MotionToProceed
    } else if eq_ignore_case_text(value, "amendmentprocess") || eq_ignore_case_text(
        value,
        "amendment_process",
    ) {
        ProceduralKind::AmendmentProcess
    } else if eq_ignore_case_text(value, "table") {
        ProceduralKind::Table
    } else if eq_ignore_case_text(value, "recommit") {
        ProceduralKind::Recommit
    } else {
        ProceduralKind::Other
    }
}

/// The text of an optional text, empty when absent.
pub open spec fn text_or_empty(o: Option<String>) -> Seq<char> {
    match o {
        Some(s) => s@,
        None => Seq::empty(),
    }
}

/// Lowercased title, a space, and the lowercased summary.
pub open spec fn haystack_spec(title: Seq<char>, summary: Option<String>) -> Seq<char> {
    lower_seq(title) + seq![' '] + lower_seq(text_or_empty(summary))
}

fn haystack(title: &str, summary: &Option<String>) -> (r: Vec<char>)
    ensures
        r@ == haystack_spec(title@, *summary),
{
    let mut h = lower_chars(title);
    h.push(' ');
    let tail = match summary {
        Some(s) => lower_chars(s.as_str()),
        None => Vec::new(),
    };
    let ghost before = h@;
    let mut i: usize = 0;
    while i < tail.len()
        invariant
            i <= tail@.len(),
            h@ == before + tail@.subrange(0, i as int),
        decreases tail.len() - i,
    {
        h.push(tail[i]);
        proof {
            assert(tail@.subrange(0, i + 1) =~= tail@.subrange(0, i as int).push(tail@[i as int]));
        }
        i = i + 1;
    }
    proof {
        assert(tail@.subrange(0, tail@.len() as int) =~= tail@);
        assert(lower_seq(Seq::<char>::empty()) =~= Seq::<char>::empty());
        assert(h@ =~= haystack_spec(title@, *summary));
    }
    h
}

/// The object type an id and status text suggest.
pub open spec fn object_type_inferred(t: LegislativeObjectType, id: Seq<char>, status: Option<String>) -> bool {
    let lid = lower_seq(id);
    let st = lower_seq(text_or_empty(status));
    if starts_with(lid, "s"@) || starts_with(lid, "hr"@) || seq_contains(st, "bill"@) {
        t == LegislativeObjectType::Bill
    } else if seq_contains(st, "amendment"@) {
        t == LegislativeObjectType::Amendment
    } else if seq_contains(st, "cloture"@) {
        t == LegislativeObjectType::ClotureVote
    } else {
        t matches LegislativeObjectType::Other(s) && s@ == "unknown"@
    }
}

fn lower_option(o: &Option<String>) -> (r: Vec<char>)
    ensures
        r@ == lower_seq(text_or_empty(*o)),
{
    match o {
        Some(s) => lower_chars(s.as_str()),
        None => {
            proof {
                assert(lower_seq(Seq::<char>::empty()) =~= Seq::<char>::empty());
            }
            Vec::new()
        },
    }
}

fn infer_object_type(id: &str, status_text: &Option<String>) -> (r: LegislativeObjectType)
    ensures
        object_type_inferred(r, id@, *status_text),
{
    let lid = lower_chars(id);
    let st = lower_option(status_text);
    if starts_with_text(&lid, "s") || starts_with_text(&lid, "hr") || has_text(&st, "bill") {
        LegislativeObjectType::Bill
    } else if has_text(&st, "amendment") {
        LegislativeObjectType::Amendment
    } else if has_text(&st, "cloture") {
        LegislativeObjectType::ClotureVote
    } else {
        LegislativeObjectType::Other(String::from_str("unknown"))
    }
}

/// The policy domain keywords in the haystack suggest.
pub open spec fn domain_inferred(d: PolicyDomain, h: Seq<char>) -> bool {
    if seq_contains(h, "energy"@) || seq_contains(h, "climate"@) || seq_contains(h, "permitting"@) {
        d == PolicyDomain::EnergyClimate
    } else if seq_contains(h, "health"@) {
        d == PolicyDomain::Healthcare
    } else if seq_contains(h, "border"@) || seq_contains(h, "immigration"@) {
        d == PolicyDomain::Immigration
    } else if seq_contains(h, "defense"@) || seq_contains(h, "armed forces"@) {
        d == PolicyDomain::Defense
    } else if seq_contains(h, "privacy"@) || seq_contains(h, "technology"@) || seq_contains(h, "ai"@) {
        d == PolicyDomain::Technology
    } else if seq_contains(h, "tax"@) || seq_contains(h, "budget"@) || seq_contains(h, "appropriation"@) {
        d == PolicyDomain::BudgetTax
    } else if seq_contains(h, "labor"@) || seq_contains(h, "union"@) || seq_contains(h, "worker"@) {
        d == PolicyDomain::Labor
    } else if seq_contains(h, "court"@) || seq_contains(h, "judge"@) || seq_contains(h, "judiciary"@) {
        d == PolicyDomain::Judiciary
    } else {
        d matches PolicyDomain::Other(s) && s@ == "general"@
    }
}

fn infer_policy_domain(h: &Vec<char>) -> (r: PolicyDomain)
    ensures
        domain_inferred(r, h@),
{
    if has_text(h, "energy") || has_text(h, "climate") || has_text(h, "permitting") {
        PolicyDomain::EnergyClimate
    } else if has_text(h, "health") {
        PolicyDomain::Healthcare
    } else if has_text(h, "border") || has_text(h, "immigration") {
        PolicyDomain::Immigration
    } else if has_text(h, "defense") || has_text(h, "armed forces") {
        PolicyDomain::Defense
    } else if has_text(h, "privacy") || has_text(h, "technology") || has_text(h, "ai") {
        PolicyDomain::Technology
    } else if has_text(h, "tax") || has_text(h, "budget") || has_text(h, "appropriation") {
        PolicyDomain::BudgetTax
    } else if has_text(h, "labor") || has_text(h, "union") || has_text(h, "worker") {
        PolicyDomain::Labor
    } else if has_text(h, "court") || has_text(h, "judge") || has_text(h, "judiciary") {
        PolicyDomain::Judiciary
    } else {
        PolicyDomain::Other(String::from_str("general"))
    }
}

/// The procedural stage a lowercased status text suggests.
pub open spec fn stage_spec(t: Seq<char>) -> ProceduralStage {
    if seq_contains(t, "cloture vote"@) {
        ProceduralStage::ClotureVote
    } else if seq_contains(t, "cloture filed"@) {
        ProceduralStage::ClotureFiled
    } else if seq_contains(t, "amendment"@) {
        ProceduralStage::AmendmentPending
    } else if seq_contains(t, "debate"@) {
        ProceduralStage::Debate
    } else if seq_contains(t, "motion to proceed"@) {
        ProceduralStage::MotionToProceed
    } else if seq_contains(t, "calendar"@) {
        ProceduralStage::OnCalendar
    } else if seq_contains(t, "reported"@) {
        ProceduralStage::Reported
    } else if seq_contains(t, "committee"@) || seq_contains(t, "referred"@) {
        ProceduralStage::InCommittee
    } else if seq_contains(t, "stalled"@) {
        ProceduralStage::Stalled
    } else {
        ProceduralStage::Introduced
    }
}

fn infer_stage(status_text: &Option<String>) -> (r: ProceduralStage)
    ensures
        r == stage_spec(lower_seq(text_or_empty(*status_text))),
{
    let t = lower_option(status_text);
    if has_text(&t, "cloture vote") {
        ProceduralStage::ClotureVote
    } else if has_text(&t, "cloture filed") {
        ProceduralStage::ClotureFiled
    } else if has_text(&t, "amendment") {
        ProceduralStage::AmendmentPending
    } else if has_text(&t, "debate") {
        ProceduralStage::Debate
    } else if has_text(&t, "motion to proceed") {
        ProceduralStage::MotionToProceed
    } else if has_text(&t, "calendar") {
        ProceduralStage::OnCalendar
    } else if has_text(&t, "reported") {
        ProceduralStage::Reported
    } else if has_text(&t, "committee") || has_text(&t, "referred") {
        ProceduralStage::InCommittee
    } else if has_text(&t, "stalled") {
        ProceduralStage::Stalled
    } else {
        ProceduralStage::Introduced
    }
}

pub open spec fn budgetary_spec(h: Seq<char>) -> BudgetaryImpact {
    if seq_contains(h, "billion"@) || seq_contains(h, "appropriation"@) || seq_contains(h, "funding"@) {
        BudgetaryImpact::High
    } else if seq_contains(h, "grant"@) || seq_contains(h, "program"@) {
        BudgetaryImpact::Moderate
    } else {
        BudgetaryImpact::Unknown
    }
}

fn infer_budgetary_impact(h: &Vec<char>) -> (r: BudgetaryImpact)
    ensures
        r == budgetary_spec(h@),
{
    if has_text(h, "billion") || has_text(h, "appropriation") || has_text(h, "funding") {
        BudgetaryImpact::High
    } else if has_text(h, "grant") || has_text(h, "program") {
        BudgetaryImpact::Moderate
    } else {
        BudgetaryImpact::Unknown
    }
}

pub open spec fn hit(h: Seq<char>, k: Seq<char>) -> int {
    if seq_contains(h, k) {
        1
    } else {
        0
    }
}

/// Salience: 0.45 plus 0.08 for each of six high-profile keywords.
pub open spec fn salience_spec(h: Seq<char>) -> int {
    4500 + 800 * (hit(h, "security"@) + hit(h, "energy"@) + hit(h, "health"@) + hit(h, "climate"@)
        + hit(h, "budget"@) + hit(h, "border"@))
}

fn keyword_hit(h: &Vec<char>, k: &str) -> (r: i64)
    ensures
        r == hit(h@, k@),
{
    if has_text(h, k) {
        1
    } else {
        0
    }
}

fn infer_salience(h: &Vec<char>) -> (r: i64)
    ensures
        r == salience_spec(h@),
        4500 <= r <= 9300,
{
    4500 + 800 * (keyword_hit(h, "security") + keyword_hit(h, "energy") + keyword_hit(h, "health")
        + keyword_hit(h, "climate") + keyword_hit(h, "budget") + keyword_hit(h, "border"))
}

/// Controversy: 0.30 plus 0.10 for each of five divisive keywords.
pub open spec fn controversy_spec(h: Seq<char>) -> int {
    3000 + 1000 * (hit(h, "controversial"@) + hit(h, "border"@) + hit(h, "filibuster"@) + hit(
        h,
        "climate"@,
    ) + hit(h, "privacy"@))
}

fn infer_controversy(h: &Vec<char>) -> (r: i64)
    ensures
        r == controversy_spec(h@),
        3000 <= r <= 8000,
{
    3000 + 1000 * (keyword_hit(h, "controversial") + keyword_hit(h, "border") + keyword_hit(
        h,
        "filibuster",
    ) + keyword_hit(h, "climate") + keyword_hit(h, "privacy"))
}

/// The action category the lowercased type-and-text haystack suggests.
pub open spec fn action_category_spec(h: Seq<char>) -> NormalizedActionCategory {
    if seq_contains(h, "introduced"@) {
        NormalizedActionCategory::Introduced
    } else if seq_contains(h, "referred"@) || seq_contains(h, "committee"@) {
        NormalizedActionCategory::Referred
    } else if seq_contains(h, "reported"@) {
        NormalizedActionCategory::Reported
    } else if seq_contains(h, "motion to proceed"@) {
        NormalizedActionCategory::MotionToProceed
    } else if seq_contains(h, "debate"@) {
        NormalizedActionCategory::Debate
    } else if seq_contains(h, "amendment"@) {
        NormalizedActionCategory::Amendment
    } else if seq_contains(h, "cloture"@) {
        NormalizedActionCategory::Cloture
    } else if seq_contains(h, "pass"@) || seq_contains(h, "agreed to"@) {
        NormalizedActionCategory::Passage
    } else if seq_contains(h, "stalled"@) || seq_contains(h, "block"@) {
        NormalizedActionCategory::Stall
    } else {
        NormalizedActionCategory::Other
    }
}

fn infer_action_category(action_type: &Option<String>, action_text: &str) -> (r: NormalizedActionCategory)
    ensures
        r == action_category_spec(
            lower_seq(text_or_empty(*action_type)) + seq![' '] + lower_seq(action_text@),
        ),
{
    let mut h = lower_option(action_type);
    h.push(' ');
    let tail = lower_chars(action_text);
    let ghost before = h@;
    let mut i: usize = 0;
    while i < tail.len()
        invariant
            i <= tail@.len(),
            h@ == before + tail@.subrange(0, i as int),
        decreases tail.len() - i,
    {
        h.push(tail[i]);
        proof {
            assert(tail@.subrange(0, i + 1) =~= tail@.subrange(0, i as int).push(tail@[i as int]));
        }
        i = i + 1;
    }
    proof {
        assert(tail@.subrange(0, tail@.len() as int) =~= tail@);
        assert(h@ =~= lower_seq(text_or_empty(*action_type)) + seq![' '] + lower_seq(action_text@));
    }
    if has_text(&h, "introduced") {
        NormalizedActionCategory::Introduced
    } else if has_text(&h, "referred") || has_text(&h, "committee") {
        NormalizedActionCategory::Referred
    } else if has_text(&h, "reported") {
        NormalizedActionCategory::Reported
    } else if has_text(&h, "motion to proceed") {
        NormalizedActionCategory::MotionToProceed
    } else if has_text(&h, "debate") {
        NormalizedActionCategory::Debate
    } else if has_text(&h, "amendment") {
        NormalizedActionCategory::Amendment
    } else if has_text(&h, "cloture") {
        NormalizedActionCategory::Cloture
    } else if has_text(&h, "pass") || has_text(&h, "agreed to") {
        NormalizedActionCategory::Passage
    } else if has_text(&h, "stalled") || has_text(&h, "block") {
        NormalizedActionCategory::Stall
    } else {
        NormalizedActionCategory::Other
    }
}

pub open spec fn class_for_index(index: int) -> SenateClass {
    if index % 3 == 0 {
        SenateClass::I
    } else if index % 3 == 1 {
        SenateClass::II
    } else {
        SenateClass::III
    }
}

pub open spec fn date_or(o: Option<CalendarDate>, d: CalendarDate) -> CalendarDate {
    match o {
        Some(x) => x,
        None => d,
    }
}

/// `n` is roster entry `r` (at position `index`) normalized.
pub open spec fn roster_normalized(n: NormalizedSenatorRecord, r: RawRosterRecord, index: int) -> bool {
    &&& n.senator_id@ == "real_"@ + sanitized(r.source_member_id@)
    &&& n.full_name@ == trim_seq(r.name@)
    &&& party_named(n.party, r.party@)
    &&& n.state@ == unicode_upper(trim_seq(r.state@))
    &&& n.class == class_for_index(index)
    &&& n.start_date == date_or(r.start_date, r.as_of_date)
    &&& n.end_date == r.end_date
    &&& n.source_member_id@ == r.source_member_id@
    &&& n.as_of_date == r.as_of_date
}

/// A roster entry normalizes when its trimmed name and state are not empty.
pub open spec fn roster_ok(r: RawRosterRecord) -> bool {
    trim_seq(r.name@).len() > 0 && trim_seq(r.state@).len() > 0
}

fn copy_date_option(o: &Option<CalendarDate>) -> (r: Option<CalendarDate>)
    ensures
        r == *o,
{
    match o {
        Some(d) => Some(d.copy()),
        None => None,
    }
}

fn normalize_roster_record(record: &RawRosterRecord, index: usize) -> (r: Result<NormalizedSenatorRecord, SenateSimError>)
    ensures
        r is Ok <==> roster_ok(*record),
        r matches Ok(n) ==> roster_normalized(n, *record, index as int),
{
    let mut senator_id = String::from_str("real_");
    senator_id.append(sanitize_identifier(record.source_member_id.as_str()).as_str());
    proof {
        reveal_strlit("real_");
    }
    let state = trimmed(record.state.as_str());
    let class = if index % 3 == 0 {
        SenateClass::I
    } else if index % 3 == 1 {
        SenateClass::II
    } else {
        SenateClass::III
    };
    let normalized = NormalizedSenatorRecord {
        senator_id,
        full_name: trimmed(record.name.as_str()),
        party: parse_party(record.party.as_str()),
        state: to_uppercase_text(state.as_str()),
        class,
        start_date: match &record.start_date {
            Some(d) => d.copy(),
            None => record.as_of_date.copy(),
        },
        end_date: copy_date_option(&record.end_date),
        source_member_id: record.source_member_id.clone(),
        as_of_date: record.as_of_date.copy(),
    };
    normalized.validate()?;
    Ok(normalized)
}

/// Normalizes a roster: ids prefixed `real_` and sanitized, names trimmed,
/// parties parsed, states uppercased, senate classes cycled by position.
pub fn normalize_roster(raw_records: &[RawRosterRecord]) -> (r: Result<Vec<NormalizedSenatorRecord>, SenateSimError>)
    ensures
        r is Ok <==> forall|i: int| 0 <= i < raw_records@.len() ==> roster_ok(#[trigger] raw_records@[i]),
        r matches Ok(ns) ==> ns@.len() == raw_records@.len() && forall|i: int|
            0 <= i < ns@.len() ==> roster_normalized(#[trigger] ns@[i], raw_records@[i], i),
{
    let mut out: Vec<NormalizedSenatorRecord> = Vec::new();
    let mut i: usize = 0;
    while i < raw_records.len()
        invariant
            i <= raw_records@.len(),
            out@.len() == i,
            forall|k: int| 0 <= k < i ==> roster_ok(#[trigger] raw_records@[k]),
            forall|k: int| 0 <= k < i ==> roster_normalized(#[trigger] out@[k], raw_records@[k], k),
        decreases raw_records.len() - i,
    {
        let n = normalize_roster_record(&raw_records[i], i)?;
        out.push(n);
        i = i + 1;
    }
    Ok(out)
}

pub open spec fn summary_text(summary: Option<String>) -> Seq<char> {
    match summary {
        Some(s) => s@,
        None => "Summary unavailable in source payload"@,
    }
}

/// `n` is legislation `r` normalized: sanitized id, trimmed title, and type,
/// domain, stage, budget impact, salience and controversy inferred from the
/// texts.
pub open spec fn legislation_normalized(n: NormalizedLegislativeRecord, r: RawLegislativeRecord) -> bool {
    let h = haystack_spec(r.title@, r.summary);
    &&& n.object_id@ == sanitized(r.source_object_id@)
    &&& n.title@ == trim_seq(r.title@)
    &&& n.summary@ == summary_text(r.summary)
    &&& object_type_inferred(n.object_type, r.source_object_id@, r.latest_status_text)
    &&& domain_inferred(n.policy_domain, h)
    &&& n.sponsor == r.sponsor
    &&& n.introduced_date == date_or(r.introduced_date, r.as_of_date)
    &&& n.latest_status_text == r.latest_status_text
    &&& n.current_stage == stage_spec(lower_seq(text_or_empty(r.latest_status_text)))
    &&& n.origin_chamber == Chamber::Senate
    &&& n.budgetary_impact == budgetary_spec(h)
    &&& n.salience == salience_spec(h)
    &&& n.controversy == controversy_spec(h)
    &&& n.as_of_date == r.as_of_date
}

pub open spec fn legislation_ok(r: RawLegislativeRecord) -> bool {
    sanitized(r.source_object_id@).len() > 0 && trim_seq(r.title@).len() > 0
}

pub fn copy_text_option(o: &Option<String>) -> (r: Option<String>)
    ensures
        r == *o,
{
    match o {
        Some(s) => Some(s.clone()),
        None => None,
    }
}

fn normalize_legislative_record(record: &RawLegislativeRecord) -> (r: Result<NormalizedLegislativeRecord, SenateSimError>)
    ensures
        r is Ok <==> legislation_ok(*record),
        r matches Ok(n) ==> legislation_normalized(n, *record),
{
    let summary = match &record.summary {
        Some(s) => s.clone(),
        None => String::from_str("Summary unavailable in source payload"),
    };
    let h = haystack(record.title.as_str(), &record.summary);
    let normalized = NormalizedLegislativeRecord {
        object_id: sanitize_identifier(record.source_object_id.as_str()),
        title: trimmed(record.title.as_str()),
        summary,
        object_type: infer_object_type(record.source_object_id.as_str(), &record.latest_status_text),
        policy_domain: infer_policy_domain(&h),
        sponsor: copy_text_option(&record.sponsor),
        introduced_date: match &record.introduced_date {
            Some(d) => d.copy(),
            None => record.as_of_date.copy(),
        },
        latest_status_text: copy_text_option(&record.latest_status_text),
        current_stage: infer_stage(&record.latest_status_text),
        origin_chamber: Chamber::Senate,
        budgetary_impact: infer_budgetary_impact(&h),
        salience: infer_salience(&h),
        controversy: infer_controversy(&h),
        as_of_date: record.as_of_date.copy(),
    };
    normalized.validate()?;
    Ok(normalized)
}

/// Normalizes legislation records in order.
pub fn normalize_legislation(raw_records: &[RawLegislativeRecord]) -> (r: Result<Vec<NormalizedLegislativeRecord>, SenateSimError>)
    ensures
        r is Ok <==> forall|i: int| 0 <= i < raw_records@.len() ==> legislation_ok(#[trigger] raw_records@[i]),
        r matches Ok(ns) ==> ns@.len() == raw_records@.len() && forall|i: int|
            0 <= i < ns@.len() ==> legislation_normalized(#[trigger] ns@[i], raw_records@[i]),
{
    let mut out: Vec<NormalizedLegislativeRecord> = Vec::new();
    let mut i: usize = 0;
    while i < raw_records.len()
        invariant
            i <= raw_records@.len(),
            out@.len() == i,
            forall|k: int| 0 <= k < i ==> legislation_ok(#[trigger] raw_records@[k]),
            forall|k: int| 0 <= k < i ==> legislation_normalized(#[trigger] out@[k], raw_records@[k]),
        decreases raw_records.len() - i,
    {
        let n = normalize_legislative_record(&raw_records[i])?;
        out.push(n);
        i = i + 1;
    }
    Ok(out)
}

/// `n` is action `r` normalized: sanitized ids and a category inferred from
/// the action type and text.
pub open spec fn action_normalized(n: NormalizedActionRecord, r: RawActionRecord) -> bool {
    &&& n.action_id@ == sanitized(r.source_action_id@)
    &&& n.object_id@ == sanitized(r.object_id@)
    &&& n.action_date == r.action_date
    &&& n.chamber == r.chamber
    &&& n.action_text@ == r.action_text@
    &&& n.category == action_category_spec(
        lower_seq(text_or_empty(r.action_type)) + seq![' '] + lower_seq(r.action_text@),
    )
    &&& n.as_of_date == r.as_of_date
}

pub open spec fn action_ok(r: RawActionRecord) -> bool {
    sanitized(r.source_action_id@).len() > 0 && sanitized(r.object_id@).len() > 0
}

fn normalize_action_record(record: &RawActionRecord) -> (r: Result<NormalizedActionRecord, SenateSimError>)
    ensures
        r is Ok <==> action_ok(*record),
        r matches Ok(n) ==> action_normalized(n, *record),
{
    let normalized = NormalizedActionRecord {
        action_id: sanitize_identifier(record.source_action_id.as_str()),
        object_id: sanitize_identifier(record.object_id.as_str()),
        action_date: record.action_date.copy(),
        chamber: record.chamber,
        action_text: record.action_text.clone(),
        category: infer_action_category(&record.action_type, record.action_text.as_str()),
        as_of_date: record.as_of_date.copy(),
    };
    normalized.validate()?;
    Ok(normalized)
}

/// Normalizes action records in order.
pub fn normalize_actions(raw_records: &[RawActionRecord]) -> (r: Result<Vec<NormalizedActionRecord>, SenateSimError>)
    ensures
        r is Ok <==> forall|i: int| 0 <= i < raw_records@.len() ==> action_ok(#[trigger] raw_records@[i]),
        r matches Ok(ns) ==> ns@.len() == raw_records@.len() && forall|i: int|
            0 <= i < ns@.len() ==> action_normalized(#[trigger] ns@[i], raw_records@[i]),
{
    let mut out: Vec<NormalizedActionRecord> = Vec::new();
    let mut i: usize = 0;
    while i < raw_records.len()
        invariant
            i <= raw_records@.len(),
            out@.len() == i,
            forall|k: int| 0 <= k < i ==> action_ok(#[trigger] raw_records@[k]),
            forall|k: int| 0 <= k < i ==> action_normalized(#[trigger] out@[k], raw_records@[k]),
        decreases raw_records.len() - i,
    {
        let n = normalize_action_record(&raw_records[i])?;
        out.push(n);
        i = i + 1;
    }
    Ok(out)
}

/// `n` is vote `r` normalized: sanitized ids (the senator's prefixed
/// `real_`) and parsed category, position and procedural kind.
pub open spec fn vote_normalized(n: NormalizedVoteRecord, r: RawVoteRecord) -> bool {
    &&& n.vote_id@ == sanitized(r.source_vote_id@)
    &&& n.vote_date == r.vote_date
    &&& n.senator_id@ == "real_"@ + sanitized(r.senator_id@)
    &&& n.senator_name@ == r.senator_name@
    &&& match r.object_id {
        Some(o) => n.object_id matches Some(x) && x@ == sanitized(o@),
        None => n.object_id is None,
    }
    &&& n.vote_category == vote_category_spec(r.vote_category@)
    &&& n.vote_position == vote_position_spec(r.vote_position@)
    &&& n.party_at_time == r.party_at_time
    &&& n.policy_domain == r.policy_domain
    &&& n.is_procedural == r.is_procedural
    &&& n.procedural_kind == match r.procedural_kind {
        Some(k) => Some(procedural_kind_spec(k@)),
        None => None,
    }
    &&& n.as_of_date == r.as_of_date
}

pub open spec fn vote_ok(r: RawVoteRecord) -> bool {
    sanitized(r.source_vote_id@).len() > 0
}

fn normalize_vote_record(record: &RawVoteRecord) -> (r: Result<NormalizedVoteRecord, SenateSimError>)
    ensures
        r is Ok <==> vote_ok(*record),
        r matches Ok(n) ==> vote_normalized(n, *record),
{
    let mut senator_id = String::from_str("real_");
    senator_id.append(sanitize_identifier(record.senator_id.as_str()).as_str());
    proof {
        reveal_strlit("real_");
    }
    let normalized = NormalizedVoteRecord {
        vote_id: sanitize_identifier(record.source_vote_id.as_str()),
        vote_date: record.vote_date.copy(),
        senator_id,
        senator_name: record.senator_name.clone(),
        object_id: match &record.object_id {
            Some(o) => Some(sanitize_identifier(o.as_str())),
            None => None,
        },
        vote_category: parse_vote_category(record.vote_category.as_str()),
        vote_position: parse_vote_position(record.vote_position.as_str()),
        party_at_time: record.party_at_time.copy(),
        policy_domain: match &record.policy_domain {
            Some(d) => Some(d.copy()),
            None => None,
        },
        is_procedural: record.is_procedural,
        procedural_kind: match &record.procedural_kind {
            Some(k) => Some(parse_procedural_kind(k.as_str())),
            None => None,
        },
        as_of_date: record.as_of_date.copy(),
    };
    normalized.validate()?;
    Ok(normalized)
}

/// Normalizes vote records in order.
pub fn normalize_votes(raw_records: &[RawVoteRecord]) -> (r: Result<Vec<NormalizedVoteRecord>, SenateSimError>)
    ensures
        r is Ok <==> forall|i: int| 0 <= i < raw_records@.len() ==> vote_ok(#[trigger] raw_records@[i]),
        r matches Ok(ns) ==> ns@.len() == raw_records@.len() && forall|i: int|
            0 <= i < ns@.len() ==> vote_normalized(#[trigger] ns@[i], raw_records@[i]),
{
    let mut out: Vec<NormalizedVoteRecord> = Vec::new();
    let mut i: usize = 0;
    while i < raw_records.len()
        invariant
            i <= raw_records@.len(),
            out@.len() == i,
            forall|k: int| 0 <= k < i ==> vote_ok(#[trigger] raw_records@[k]),
            forall|k: int| 0 <= k < i ==> vote_normalized(#[trigger] out@[k], raw_records@[k]),
        decreases raw_records.len() - i,
    {
        let n = normalize_vote_record(&raw_records[i])?;
        out.push(n);
        i = i + 1;
    }
    Ok(out)
}

} // verus!
