//! Senator profiles built from feature records.

use vstd::prelude::*;
use crate::features::senator::{build_feature_report, build_senator_features_for_snapshot, features_match};
use crate::features::windows::FeatureWindowConfig;
use crate::ingest::snapshot::snapshot_to_senators;
use crate::model::error::SenateSimError;
use crate::model::features::{FeatureReport, SenatorFeatureRecord};
use crate::model::identity::SenateClass;
use crate::model::senator::{
    DynamicState, Identity, IssuePreferences, Procedural, Senator, StructuralProfile,
};
use crate::model::snapshot::{DataSnapshot, PublicSignalSummary};
use crate::model::stance::PublicPosition;
use crate::util::calendar::{day_year, CalendarDate, MIN_DAY};
use crate::util::score::{clamp_wide_big, clamp_wide_spec, floor_div, max_spec, signed_unit, unit, SCALE};
use crate::util::text::{hundredths_digits, score_hundredths, score_text, string_views};

verus! {

/// Where senator profiles come from.
#[derive(Debug, Clone, Copy, PartialEq, Eq, Structural)]
pub enum SenatorProfileMode {
    Synthetic,
    HistoricalFeatures,
}

/// The sum of the bytes, wrapping at 256.
pub open spec fn byte_sum(bs: Seq<u8>) -> int
    decreases bs.len(),
{
    if bs.len() == 0 {
        0
    } else {
        (byte_sum(bs.drop_last()) + bs.last()) % 256
    }
}

pub open spec fn class_for(sum: int) -> SenateClass {
    if sum % 3 == 0 {
        SenateClass::I
    } else if sum % 3 == 1 {
        SenateClass::II
    } else {
        SenateClass::III
    }
}

/// A senate class picked from the id's UTF-8 bytes: their wrapping byte sum
/// modulo 3.
pub fn default_class(senator_id: &str) -> (r: SenateClass)
    ensures
        r == class_for(byte_sum(vstd::utf8::encode_utf8(senator_id@))),
{
    let bytes = senator_id.as_bytes();
    let mut acc: u8 = 0;
    let mut i: usize = 0;
    while i < bytes.len()
        invariant
            i <= bytes@.len(),
            bytes@ == vstd::utf8::encode_utf8(senator_id@),
            acc == byte_sum(bytes@.subrange(0, i as int)),
        decreases bytes.len() - i,
    {
        proof {
            assert(bytes@.subrange(0, i + 1).drop_last() =~= bytes@.subrange(0, i as int));
        }
        acc = ((acc as u16 + bytes[i] as u16) % 256) as u8;
        i = i + 1;
    }
    proof {
        assert(bytes@.subrange(0, bytes@.len() as int) =~= bytes@);
    }
    if acc % 3 == 0 {
        SenateClass::I
    } else if acc % 3 == 1 {
        SenateClass::II
    } else {
        SenateClass::III
    }
}

/// The feature-record fields copied into a senator are in range and the id is
/// present, so the senator validates.
pub open spec fn materializable(rec: SenatorFeatureRecord) -> bool {
    &&& rec.senator_id@.len() > 0
    &&& signed_unit(rec.ideology_proxy as int)
    &&& unit(rec.party_loyalty_baseline as int)
    &&& unit(rec.bipartisanship_baseline as int)
    &&& signed_unit(rec.defense_score as int)
    &&& signed_unit(rec.immigration_score as int)
    &&& signed_unit(rec.energy_climate_score as int)
    &&& signed_unit(rec.labor_score as int)
    &&& signed_unit(rec.healthcare_score as int)
    &&& signed_unit(rec.budget_tax_score as int)
    &&& signed_unit(rec.judiciary_score as int)
    &&& signed_unit(rec.technology_score as int)
    &&& signed_unit(rec.foreign_policy_score as int)
    &&& unit(rec.cloture_support_baseline as int)
    &&& unit(rec.motion_to_proceed_baseline as int)
    &&& unit(rec.amendment_openness as int)
    &&& unit(rec.attendance_reliability as int)
    &&& unit(rec.recent_cloture_support as int)
    &&& unit(rec.recent_party_loyalty as int)
    &&& unit(rec.coverage_score as int)
}

/// `s` is the senator profile built from feature record `rec`.
pub open spec fn materializes(s: Senator, rec: SenatorFeatureRecord) -> bool {
    &&& materializes_core(s, rec)
    &&& s.dynamic_state.current_issue_salience_in_state == 5000
    &&& s.feature_notes@ == rec.notes@
}

/// Everything `materializes` says but the issue salience and the notes.
pub open spec fn materializes_core(s: Senator, rec: SenatorFeatureRecord) -> bool {
    &&& s.identity.senator_id@ == rec.senator_id@
    &&& s.identity.full_name@ == rec.full_name@
    &&& s.identity.party == rec.party
    &&& s.identity.state@ == rec.state@
    &&& s.identity.class == class_for(byte_sum(vstd::utf8::encode_utf8(rec.senator_id@)))
    &&& s.identity.start_date.day_number == rec.snapshot_date.day_number - 365
    &&& s.identity.end_date is None
    &&& s.structural.ideology_score == rec.ideology_proxy
    &&& s.structural.party_loyalty_baseline == rec.party_loyalty_baseline
    &&& s.structural.bipartisanship_baseline == rec.bipartisanship_baseline
    &&& string_views(s.structural.committee_assignments@) == seq!["Feature-Derived Committee"@]
    &&& s.structural.reelection_year == Some((day_year(rec.snapshot_date.day_number as int) + 2) as i32)
    &&& s.structural.electoral_vulnerability == clamp_wide_spec(
        100000000 - rec.party_loyalty_baseline * 4000 + rec.recent_bipartisanship * 2000,
    )
    &&& s.issue_preferences.defense == rec.defense_score
    &&& s.issue_preferences.immigration == rec.immigration_score
    &&& s.issue_preferences.energy_climate == rec.energy_climate_score
    &&& s.issue_preferences.labor == rec.labor_score
    &&& s.issue_preferences.healthcare == rec.healthcare_score
    &&& s.issue_preferences.tax_spending == rec.budget_tax_score
    &&& s.issue_preferences.judiciary == rec.judiciary_score
    &&& s.issue_preferences.trade == 0
    &&& s.issue_preferences.tech_privacy == rec.technology_score
    &&& s.issue_preferences.foreign_policy == rec.foreign_policy_score
    &&& s.procedural.cloture_support_baseline == rec.cloture_support_baseline
    &&& s.procedural.motion_to_proceed_baseline == rec.motion_to_proceed_baseline
    &&& s.procedural.uc_objection_tendency == clamp_wide_spec(
        100000000 - rec.bipartisanship_baseline * 6000 - rec.amendment_openness * 2000,
    )
    &&& s.procedural.leadership_deference == clamp_wide_spec(
        rec.party_loyalty_baseline * 7000 + (10000 - rec.bipartisanship_baseline) * 2000,
    )
    &&& s.procedural.amendment_openness == rec.amendment_openness
    &&& s.procedural.attendance_reliability == rec.attendance_reliability
    &&& s.dynamic_state.current_public_position == PublicPosition::Undeclared
    &&& s.dynamic_state.current_substantive_support == 5000
    &&& s.dynamic_state.current_procedural_support == rec.recent_cloture_support
    &&& s.dynamic_state.current_negotiability == clamp_wide_spec(
        rec.recent_bipartisanship * 6000 + (10000 - rec.procedural_rigidity) * 3000,
    )
    &&& s.dynamic_state.current_party_pressure == rec.recent_party_loyalty
    &&& s.feature_coverage_score == Some(rec.coverage_score)
}

fn materializable_exec(rec: &SenatorFeatureRecord) -> (r: bool)
    ensures
        r == materializable(*rec),
{
    let u = |x: i64| -> (b: bool)
        ensures
            b == unit(x as int),
        { 0 <= x && x <= SCALE };
    let sg = |x: i64| -> (b: bool)
        ensures
            b == signed_unit(x as int),
        { -SCALE <= x && x <= SCALE };
    rec.senator_id.as_str().unicode_len() > 0 && sg(rec.ideology_proxy) && u(rec.party_loyalty_baseline)
        && u(rec.bipartisanship_baseline) && sg(rec.defense_score) && sg(rec.immigration_score) && sg(
        rec.energy_climate_score,
    ) && sg(rec.labor_score) && sg(rec.healthcare_score) && sg(rec.budget_tax_score) && sg(
        rec.judiciary_score,
    ) && sg(rec.technology_score) && sg(rec.foreign_policy_score) && u(rec.cloture_support_baseline)
        && u(rec.motion_to_proceed_baseline) && u(rec.amendment_openness) && u(
        rec.attendance_reliability,
    ) && u(rec.recent_cloture_support) && u(rec.recent_party_loyalty) && u(rec.coverage_score)
}

/// A senator profile from a feature record: issue preferences from the domain
/// scores, procedural tendencies from the procedural rates, a neutral current
/// position, and derived vulnerability, objection tendency, deference and
/// negotiability. Fails when the copied fields are out of range or the id is
/// empty.
pub fn feature_record_to_senator(record: &SenatorFeatureRecord) -> (r: Result<Senator, SenateSimError>)
    requires
        record.snapshot_date.wf(),
        MIN_DAY <= record.snapshot_date.day_number - 365,
    ensures
        r is Ok <==> materializable(*record),
        r matches Ok(s) ==> materializes(s, *record) && s.wf(),
{
    let mut committees: Vec<String> = Vec::new();
    committees.push(String::from_str("Feature-Derived Committee"));
    proof {
        assert(string_views(committees@) =~= seq!["Feature-Derived Committee"@]);
    }
    let year = record.snapshot_date.year();
    let senator = Senator {
        identity: Identity {
            senator_id: record.senator_id.clone(),
            full_name: record.full_name.clone(),
            party: record.party.copy(),
            state: record.state.clone(),
            class: default_class(record.senator_id.as_str()),
            start_date: record.snapshot_date.minus_days(365),
            end_date: None,
        },
        structural: StructuralProfile {
            ideology_score: record.ideology_proxy,
            party_loyalty_baseline: record.party_loyalty_baseline,
            bipartisanship_baseline: record.bipartisanship_baseline,
            committee_assignments: committees,
            reelection_year: Some(year + 2),
            electoral_vulnerability: clamp_wide_big(
                100000000 - (record.party_loyalty_baseline as i128) * 4000
                    + (record.recent_bipartisanship as i128) * 2000,
            ),
        },
        issue_preferences: IssuePreferences {
            defense: record.defense_score,
            immigration: record.immigration_score,
            energy_climate: record.energy_climate_score,
            labor: record.labor_score,
            healthcare: record.healthcare_score,
            tax_spending: record.budget_tax_score,
            judiciary: record.judiciary_score,
            trade: 0,
            tech_privacy: record.technology_score,
            foreign_policy: record.foreign_policy_score,
        },
        procedural: Procedural {
            cloture_support_baseline: record.cloture_support_baseline,
            motion_to_proceed_baseline: record.motion_to_proceed_baseline,
            uc_objection_tendency: clamp_wide_big(
                100000000 - (record.bipartisanship_baseline as i128) * 6000
                    - (record.amendment_openness as i128) * 2000,
            ),
            leadership_deference: clamp_wide_big(
                (record.party_loyalty_baseline as i128) * 7000 + (10000
                    - (record.bipartisanship_baseline as i128)) * 2000,
            ),
            amendment_openness: record.amendment_openness,
            attendance_reliability: record.attendance_reliability,
        },
        dynamic_state: DynamicState {
            current_public_position: PublicPosition::Undeclared,
            current_substantive_support: 5000,
            current_procedural_support: record.recent_cloture_support,
            current_negotiability: clamp_wide_big(
                (record.recent_bipartisanship as i128) * 6000 + (10000
                    - (record.procedural_rigidity as i128)) * 3000,
            ),
            current_party_pressure: record.recent_party_loyalty,
            current_issue_salience_in_state: 5000,
        },
        feature_coverage_score: Some(record.coverage_score),
        feature_notes: record.notes.clone(),
    };
    senator.validate()?;
    Ok(senator)
}

/// The attention score listed for `id` (the first entry), 0 when none is.
pub open spec fn attention_for(entries: Seq<(String, i64)>, id: Seq<char>) -> int
    decreases entries.len(),
{
    if entries.len() == 0 {
        0
    } else if entries[0].0@ == id {
        entries[0].1 as int
    } else {
        attention_for(entries.drop_first(), id)
    }
}

/// The strongest public association of `id` with any object, at least 0.
pub open spec fn strongest_link(links: Seq<crate::model::snapshot::SenatorObjectSignalLink>, id: Seq<char>) -> int
    decreases links.len(),
{
    if links.len() == 0 {
        0
    } else {
        let prev = strongest_link(links.drop_last(), id);
        if links.last().senator_id@ == id {
            max_spec(prev, links.last().public_association_score as int)
        } else {
            prev
        }
    }
}

/// Issue salience from public attention: 0.7 attention + 0.3 strongest link,
/// rounded down.
pub open spec fn public_salience(summary: PublicSignalSummary, id: Seq<char>) -> int {
    (attention_for(summary.senator_attention@, id) * 7000
        + strongest_link(summary.senator_object_link_strength@, id) * 3000) / 10000
}

pub open spec fn attention_note(att: int) -> Seq<char> {
    "public narrative attention score "@ + hundredths_digits(score_hundredths(att))
}

/// `s` is the profile of `rec` with the public signals of `summary` applied:
/// issue salience raised to the public salience when that is higher, and a
/// note of the senator's attention score when it is positive.
pub open spec fn enriched(s: Senator, rec: SenatorFeatureRecord, summary: Option<PublicSignalSummary>) -> bool {
    match summary {
        None => materializes(s, rec),
        Some(sm) => {
            let att = attention_for(sm.senator_attention@, rec.senator_id@);
            &&& materializes_core(s, rec)
            &&& s.dynamic_state.current_issue_salience_in_state == max_spec(
                5000,
                public_salience(sm, rec.senator_id@),
            )
            &&& string_views(s.feature_notes@) == if att > 0 {
                string_views(rec.notes@).push(attention_note(att))
            } else {
                string_views(rec.notes@)
            }
        },
    }
}

/// A feature record's profile can be enriched with the summary and still
/// validate.
pub open spec fn enrichable(rec: SenatorFeatureRecord, summary: Option<PublicSignalSummary>) -> bool {
    &&& materializable(rec)
    &&& (summary matches Some(sm) ==> public_salience(sm, rec.senator_id@) <= 10000)
}

pub open spec fn dated_ok(rec: SenatorFeatureRecord) -> bool {
    rec.snapshot_date.wf() && MIN_DAY <= rec.snapshot_date.day_number - 365
}

fn attention_lookup(entries: &Vec<(String, i64)>, id: &str) -> (r: i64)
    ensures
        r == attention_for(entries@, id@),
{
    let mut i: usize = 0;
    proof {
        assert(entries@.subrange(0, entries@.len() as int) =~= entries@);
    }
    while i < entries.len()
        invariant
            i <= entries@.len(),
            attention_for(entries@, id@) == attention_for(entries@.subrange(i as int, entries@.len() as int), id@),
        decreases entries.len() - i,
    {
        let ghost rest = entries@.subrange(i as int, entries@.len() as int);
        proof {
            assert(rest.drop_first() =~= entries@.subrange(i + 1, entries@.len() as int));
            assert(rest[0] == entries@[i as int]);
        }
        if crate::util::order::same_text(entries[i].0.as_str(), id) {
            return entries[i].1;
        }
        i = i + 1;
    }
    proof {
        assert(entries@.subrange(i as int, entries@.len() as int) =~= Seq::<(String, i64)>::empty());
    }
    0
}

fn strongest_link_score(links: &Vec<crate::model::snapshot::SenatorObjectSignalLink>, id: &str) -> (r: i64)
    ensures
        r == strongest_link(links@, id@),
{
    let mut best: i64 = 0;
    let mut i: usize = 0;
    proof {
        assert(links@.subrange(0, 0) =~= Seq::<crate::model::snapshot::SenatorObjectSignalLink>::empty());
    }
    while i < links.len()
        invariant
            i <= links@.len(),
            best == strongest_link(links@.subrange(0, i as int), id@),
        decreases links.len() - i,
    {
        proof {
            assert(links@.subrange(0, i + 1).drop_last() =~= links@.subrange(0, i as int));
        }
        if crate::util::order::same_text(links[i].senator_id.as_str(), id) {
            if links[i].public_association_score > best {
                best = links[i].public_association_score;
            }
        }
        i = i + 1;
    }
    proof {
        assert(links@.subrange(0, links@.len() as int) =~= links@);
    }
    best
}

fn public_salience_score(summary: &PublicSignalSummary, id: &str) -> (r: (i64, i64))
    ensures
        r.0 == attention_for(summary.senator_attention@, id@),
        r.1 == public_salience(*summary, id@),
{
    let att = attention_lookup(&summary.senator_attention, id);
    let link = strongest_link_score(&summary.senator_object_link_strength, id);
    let n = (att as i128) * 7000 + (link as i128) * 3000;
    proof {
        let a = att as int;
        let l = link as int;
        assert(-0x8000_0000_0000_0000 * 10000 <= a * 7000 + l * 3000 <= 0x7fff_ffff_ffff_ffff * 10000)
            by (nonlinear_arith)
            requires
                -0x8000_0000_0000_0000 <= a <= 0x7fff_ffff_ffff_ffff,
                -0x8000_0000_0000_0000 <= l <= 0x7fff_ffff_ffff_ffff,
        ;
        assert(-0x8000_0000_0000_0000 <= (a * 7000 + l * 3000) / 10000 <= 0x7fff_ffff_ffff_ffff);
    }
    let q = floor_div(n, 10000);
    (att, q as i64)
}

/// Senator profiles from feature records, in record order, raised to the
/// public attention of the snapshot's signal summary when it has one.
pub fn snapshot_with_features_to_senators(snapshot: &DataSnapshot, features: &[SenatorFeatureRecord]) -> (r: Result<Vec<Senator>, SenateSimError>)
    requires
        forall|i: int| 0 <= i < features@.len() ==> dated_ok(#[trigger] features@[i]),
    ensures
        r is Ok <==> forall|i: int|
            0 <= i < features@.len() ==> enrichable(#[trigger] features@[i], snapshot.public_signal_summary),
        r matches Ok(ss) ==> ss@.len() == features@.len() && forall|i: int|
            0 <= i < ss@.len() ==> enriched(#[trigger] ss@[i], features@[i], snapshot.public_signal_summary)
                && ss@[i].wf(),
{
    let mut senators: Vec<Senator> = Vec::new();
    let mut i: usize = 0;
    while i < features.len()
        invariant
            i <= features@.len(),
            forall|k: int| 0 <= k < features@.len() ==> dated_ok(#[trigger] features@[k]),
            senators@.len() == i,
            forall|k: int| 0 <= k < i ==> enrichable(#[trigger] features@[k], snapshot.public_signal_summary),
            forall|k: int|
                0 <= k < i ==> enriched(#[trigger] senators@[k], features@[k], snapshot.public_signal_summary)
                    && senators@[k].wf(),
        decreases features.len() - i,
    {
        let record = &features[i];
        let mut senator = feature_record_to_senator(record)?;
        match &snapshot.public_signal_summary {
            Some(summary) => {
                let (attention, salience) = public_salience_score(summary, record.senator_id.as_str());
                if salience > senator.dynamic_state.current_issue_salience_in_state {
                    senator.dynamic_state.current_issue_salience_in_state = salience;
                }
                if attention > 0 {
                    let ghost before = senator.feature_notes@;
                    let mut note = String::from_str("public narrative attention score ");
                    note.append(score_text(attention).as_str());
                    senator.feature_notes.push(note);
                    proof {
                        assert(string_views(senator.feature_notes@) =~= string_views(before).push(
                            attention_note(attention as int),
                        ));
                    }
                }
            },
            None => {},
        }
        senator.validate()?;
        senators.push(senator);
        i = i + 1;
    }
    Ok(senators)
}

/// Feature records and their report for a snapshot, from its own votes.
pub fn build_features_and_report(snapshot: &DataSnapshot, config: &FeatureWindowConfig) -> (r: Result<(Vec<SenatorFeatureRecord>, FeatureReport), SenateSimError>)
    ensures
        r is Ok <==> snapshot.wf(),
        r matches Ok(out) ==> features_match(out.0@, *snapshot, snapshot.vote_records@, *config)
            && out.1.snapshot_date == snapshot.snapshot_date && out.1.senators_processed
            == out.0@.len(),
{
    let features = build_senator_features_for_snapshot(snapshot, snapshot.vote_records.as_slice(), config)?;
    let report = build_feature_report(snapshot.snapshot_date.copy(), features.as_slice());
    Ok((features, report))
}

/// `ss` are the profiles built from `recs` with the snapshot's signals.
pub open spec fn senators_from_features(ss: Seq<Senator>, recs: Seq<SenatorFeatureRecord>, snap: DataSnapshot) -> bool {
    &&& ss.len() == recs.len()
    &&& forall|i: int| 0 <= i < ss.len() ==> enriched(#[trigger] ss[i], recs[i], snap.public_signal_summary)
}

/// The snapshot's public-signal summary, if any, raises no rostered senator's
/// salience above one.
pub open spec fn signals_in_range(snap: DataSnapshot) -> bool {
    forall|i: int|
        0 <= i < snap.roster_records@.len() ==> (snap.public_signal_summary matches Some(sm) ==> public_salience(
            sm,
            (#[trigger] snap.roster_records@[i]).senator_id@,
        ) <= 10000)
}

/// Valid features built for a snapshot's roster can all be enriched exactly
/// when the snapshot's signals stay in range.
pub proof fn lemma_built_features_enrichable(snapshot: &DataSnapshot, features: Seq<SenatorFeatureRecord>, config: FeatureWindowConfig)
    requires
        features_match(features, *snapshot, snapshot.vote_records@, config),
        forall|i: int| 0 <= i < features.len() ==> (#[trigger] features[i]).wf(),
    ensures
        signals_in_range(*snapshot) <==> forall|i: int|
            0 <= i < features.len() ==> enrichable(#[trigger] features[i], snapshot.public_signal_summary),
{
    assert forall|i: int| 0 <= i < features.len() implies materializable(#[trigger] features[i])
        && features[i].senator_id@ == snapshot.roster_records@[i].senator_id@ by {
        assert(features[i].wf());
        let date = snapshot.snapshot_date.day_number as int;
        let votes = snapshot.vote_records@;
        assert(crate::features::senator::feature_matches(
            features[i],
            snapshot.snapshot_date,
            snapshot.roster_records@[i],
            votes.filter(crate::features::windows::window_pred(date, config.baseline_lookback_days)),
            votes.filter(crate::features::windows::window_pred(date, Some(config.recent_lookback_days))),
        ));
    }
    if signals_in_range(*snapshot) {
        assert forall|i: int| 0 <= i < features.len() implies enrichable(
            #[trigger] features[i],
            snapshot.public_signal_summary,
        ) by {
            assert(snapshot.roster_records@[i].senator_id@ == features[i].senator_id@);
        }
    }
    if forall|i: int| 0 <= i < features.len() ==> enrichable(#[trigger] features[i], snapshot.public_signal_summary) {
        assert forall|i: int| 0 <= i < snapshot.roster_records@.len() implies (
        snapshot.public_signal_summary matches Some(sm) ==> public_salience(
            sm,
            (#[trigger] snapshot.roster_records@[i]).senator_id@,
        ) <= 10000) by {
            assert(enrichable(features[i], snapshot.public_signal_summary));
        }
    }
}

/// The senators to simulate for a snapshot: synthetic profiles, or profiles
/// from historical features (the `stored` records when given, else features
/// built from the snapshot's own votes with the default windows).
pub fn senators_for_snapshot(snapshot: &DataSnapshot, stored: Option<Vec<SenatorFeatureRecord>>, mode: SenatorProfileMode) -> (r: Result<Vec<Senator>, SenateSimError>)
    requires
        snapshot.snapshot_date.wf(),
        MIN_DAY <= snapshot.snapshot_date.day_number - 365,
        stored matches Some(f) ==> forall|i: int| 0 <= i < f@.len() ==> dated_ok(#[trigger] f@[i]),
    ensures
        mode == SenatorProfileMode::Synthetic ==> (r is Ok <==> forall|i: int|
            0 <= i < snapshot.roster_records@.len() ==> (
            #[trigger] snapshot.roster_records@[i]).senator_id@.len() > 0),
        mode == SenatorProfileMode::Synthetic ==> (r matches Ok(ss) ==> ss@.len()
            == snapshot.roster_records@.len() && forall|i: int|
            0 <= i < ss@.len() ==> crate::ingest::snapshot::synthetic_senator(
                #[trigger] ss@[i],
                snapshot.roster_records@[i],
                i,
            )),
        mode == SenatorProfileMode::HistoricalFeatures ==> (stored matches Some(f) ==> (r is Ok <==> forall|i: int|
            0 <= i < f@.len() ==> enrichable(#[trigger] f@[i], snapshot.public_signal_summary))),
        mode == SenatorProfileMode::HistoricalFeatures ==> (stored is None ==> (r is Ok <==> (snapshot.wf()
            && signals_in_range(*snapshot)))),
        mode == SenatorProfileMode::HistoricalFeatures ==> (stored matches Some(f) ==> (r matches Ok(
            ss,
        ) ==> senators_from_features(ss@, f@, *snapshot))),
        mode == SenatorProfileMode::HistoricalFeatures ==> (stored is None ==> (r matches Ok(ss)
            ==> exists|recs: Seq<SenatorFeatureRecord>|
            features_match(recs, *snapshot, snapshot.vote_records@, FeatureWindowConfig {
                baseline_lookback_days: Some(1460i64),
                recent_lookback_days: 365,
            }) && #[trigger] senators_from_features(ss@, recs, *snapshot))),
{
    match mode {
        SenatorProfileMode::Synthetic => snapshot_to_senators(snapshot),
        SenatorProfileMode::HistoricalFeatures => {
            let features = match stored {
                Some(f) => f,
                None => {
                    let config = FeatureWindowConfig::default();
                    let built = build_senator_features_for_snapshot(snapshot, snapshot.vote_records.as_slice(), &config)?;
                    proof {
                        assert forall|i: int| 0 <= i < built@.len() implies dated_ok(#[trigger] built@[i]) by {
                            assert(built@[i].snapshot_date == snapshot.snapshot_date);
                        }
                        lemma_built_features_enrichable(snapshot, built@, config);
                    }
                    built
                },
            };
            let senators = snapshot_with_features_to_senators(snapshot, features.as_slice())?;
            proof {
                assert(senators_from_features(senators@, features@, *snapshot));
            }
            Ok(senators)
        },
    }
}

} // verus!
