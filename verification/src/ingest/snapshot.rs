//! Simulator inputs materialized from a snapshot: synthetic senator profiles
//! seeded from each senator's id, legislative objects and default contexts.

use vstd::prelude::*;
use crate::ingest::normalize::{default_context_for_stage, default_context_spec};
use crate::ingest::sources::fnv_fold;
use crate::model::context::LegislativeContext;
use crate::model::error::SenateSimError;
use crate::model::identity::Party;
use crate::model::legislative::LegislativeObject;
use crate::model::records::{NormalizedLegislativeRecord, NormalizedSenatorRecord};
use crate::model::senator::{
    DynamicState, Identity, IssuePreferences, Procedural, Senator, StructuralProfile,
};
use crate::model::records::NormalizedActionRecord;
use crate::model::snapshot::{DataSnapshot, SourceManifest};
use crate::ingest::sources::{content_hash_string, hex_digits, FNV_OFFSET};
use crate::util::calendar::{compact_date_text, CalendarDate};
use crate::model::stance::PublicPosition;
use crate::util::score::{clamp_signed, clamp_signed_spec, signed_unit, unit};
use crate::util::text::{decimal_digits, decimal_text, string_views};

verus! {

/// The seed of the id hashes.
pub const HASH_SEED: u64 = 14695981039346656037;

/// A number of ten-thousandths in 0..10000 drawn from the id and a salt:
/// FNV-1a of the id's UTF-8 bytes, seeded with `HASH_SEED ^ salt`, modulo
/// 10000.
pub open spec fn hash_fraction_spec(id: Seq<char>, salt: u64) -> int {
    (fnv_fold(vstd::utf8::encode_utf8(id), HASH_SEED ^ salt) % 10000) as int
}

/// A value between `min` and `max` (ten-thousandths) placed by the hash.
pub open spec fn probability_spec(id: Seq<char>, salt: u64, min: int, max: int) -> int {
    (min * 10000 + (max - min) * hash_fraction_spec(id, salt)) / 10000
}

/// A signed value in -1..1 placed by the hash.
pub open spec fn signed_spec(id: Seq<char>, salt: u64) -> int {
    2 * hash_fraction_spec(id, salt) - 10000
}

fn hash_fraction(id: &str, salt: u64) -> (r: i64)
    ensures
        r == hash_fraction_spec(id@, salt),
        0 <= r < 10000,
{
    let h = crate::ingest::sources::fnv_hash(id, HASH_SEED ^ salt);
    (h % 10000) as i64
}

fn probability_from_hash(id: &str, salt: u64, min: i64, max: i64) -> (r: i64)
    requires
        0 <= min <= max <= 10000,
    ensures
        r == probability_spec(id@, salt, min as int, max as int),
        min <= r <= max,
{
    let f = hash_fraction(id, salt);
    proof {
        assert(0 <= (max - min) * f <= (max - min) * 10000) by (nonlinear_arith)
            requires
                0 <= max - min,
                0 <= f <= 10000,
        ;
        assert(min <= (min * 10000 + (max - min) * f) / 10000 <= max) by (nonlinear_arith)
            requires
                0 <= (max - min) * f <= (max - min) * 10000,
                0 <= min <= max,
        ;
    }
    (min * 10000 + (max - min) * f) / 10000
}

fn signed_from_hash(id: &str, salt: u64) -> (r: i64)
    ensures
        r == signed_spec(id@, salt),
        signed_unit(r as int),
{
    2 * hash_fraction(id, salt) - 10000
}

/// The ideology seed moved toward the party's side by 0.35, clamped.
pub open spec fn party_adjusted_spec(party: Party, base: int) -> int {
    match party {
        Party::Democrat => clamp_signed_spec(base - 3500),
        Party::Republican => clamp_signed_spec(base + 3500),
        _ => clamp_signed_spec(base),
    }
}

fn party_adjusted_ideology(party: &Party, base: i64) -> (r: i64)
    requires
        signed_unit(base as int),
    ensures
        r == party_adjusted_spec(*party, base as int),
        signed_unit(r as int),
{
    match party {
        Party::Democrat => clamp_signed(base - 3500),
        Party::Republican => clamp_signed(base + 3500),
        _ => clamp_signed(base),
    }
}

/// An issue seed moved by the party's shift, clamped.
pub open spec fn issue_shift_spec(party: Party, base: int, dem: int, rep: int) -> int {
    match party {
        Party::Democrat => clamp_signed_spec(base + dem),
        Party::Republican => clamp_signed_spec(base + rep),
        _ => clamp_signed_spec(base),
    }
}

fn party_issue_shift(party: &Party, base: i64, dem: i64, rep: i64) -> (r: i64)
    requires
        signed_unit(base as int),
        signed_unit(dem as int),
        signed_unit(rep as int),
    ensures
        r == issue_shift_spec(*party, base as int, dem as int, rep as int),
        signed_unit(r as int),
{
    match party {
        Party::Democrat => clamp_signed(base + dem),
        Party::Republican => clamp_signed(base + rep),
        _ => clamp_signed(base),
    }
}

/// `s` is the synthetic profile of roster entry `rec` at roster position
/// `index`.
pub open spec fn synthetic_senator(s: Senator, rec: NormalizedSenatorRecord, index: int) -> bool {
    let id = rec.senator_id@;
    let party = rec.party;
    &&& s.identity.senator_id@ == id
    &&& s.identity.full_name@ == rec.full_name@
    &&& s.identity.party == party
    &&& s.identity.state@ == rec.state@
    &&& s.identity.class == rec.class
    &&& s.identity.start_date == rec.start_date
    &&& s.identity.end_date == rec.end_date
    &&& s.structural.ideology_score == party_adjusted_spec(party, signed_spec(id, 0))
    &&& s.structural.party_loyalty_baseline == probability_spec(id, 5, 5800, 9400)
    &&& s.structural.bipartisanship_baseline == probability_spec(id, 6, 1800, 7400)
    &&& string_views(s.structural.committee_assignments@) == seq![
        "Synthetic Committee "@ + decimal_digits(((index % 8) + 1) as nat),
    ]
    &&& s.structural.reelection_year == Some((2026 + (index % 3) * 2) as i32)
    &&& s.structural.electoral_vulnerability == probability_spec(id, 7, 1200, 7800)
    &&& s.issue_preferences.defense == issue_shift_spec(party, signed_spec(id, 8), 1500, -1500)
    &&& s.issue_preferences.immigration == issue_shift_spec(party, signed_spec(id, 3), -1000, 2000)
    &&& s.issue_preferences.energy_climate == issue_shift_spec(party, signed_spec(id, 2), 2500, -2500)
    &&& s.issue_preferences.labor == issue_shift_spec(party, signed_spec(id, 9), 2000, -1000)
    &&& s.issue_preferences.healthcare == issue_shift_spec(party, signed_spec(id, 10), 1800, -1200)
    &&& s.issue_preferences.tax_spending == issue_shift_spec(party, signed_spec(id, 1), -1000, 2000)
    &&& s.issue_preferences.judiciary == issue_shift_spec(party, signed_spec(id, 4), -500, 1200)
    &&& s.issue_preferences.trade == signed_spec(id, 11)
    &&& s.issue_preferences.tech_privacy == signed_spec(id, 12)
    &&& s.issue_preferences.foreign_policy == signed_spec(id, 13)
    &&& s.procedural.cloture_support_baseline == probability_spec(id, 14, 3800, 8800)
    &&& s.procedural.motion_to_proceed_baseline == probability_spec(id, 15, 4500, 9200)
    &&& s.procedural.uc_objection_tendency == probability_spec(id, 16, 500, 4800)
    &&& s.procedural.leadership_deference == probability_spec(id, 17, 2500, 8800)
    &&& s.procedural.amendment_openness == probability_spec(id, 18, 2800, 8600)
    &&& s.procedural.attendance_reliability == probability_spec(id, 19, 8500, 9900)
    &&& s.dynamic_state.current_public_position == PublicPosition::Undeclared
    &&& s.dynamic_state.current_substantive_support == probability_spec(id, 20, 3500, 6500)
    &&& s.dynamic_state.current_procedural_support == probability_spec(id, 21, 3500, 6500)
    &&& s.dynamic_state.current_negotiability == probability_spec(id, 22, 2200, 8200)
    &&& s.dynamic_state.current_party_pressure == probability_spec(id, 23, 3000, 8800)
    &&& s.dynamic_state.current_issue_salience_in_state == probability_spec(id, 24, 2500, 8000)
    &&& s.feature_coverage_score is None
    &&& s.feature_notes@.len() == 0
}

/// A synthetic profile for a roster entry, every trait drawn from the
/// senator id's hash and shifted toward the senator's party.
#[verifier::rlimit(30)]
fn materialize_senator(record: &NormalizedSenatorRecord, index: usize) -> (r: Result<Senator, SenateSimError>)
    ensures
        r is Ok <==> record.senator_id@.len() > 0,
        r matches Ok(s) ==> synthetic_senator(s, *record, index as int) && s.wf(),
{
    let id = record.senator_id.as_str();
    let party = &record.party;
    let ideology = signed_from_hash(id, 0);
    let tax = signed_from_hash(id, 1);
    let energy = signed_from_hash(id, 2);
    let immigration = signed_from_hash(id, 3);
    let judiciary = signed_from_hash(id, 4);
    let mut committee = String::from_str("Synthetic Committee ");
    committee.append(decimal_text(((index % 8) + 1) as u128).as_str());
    let mut committees: Vec<String> = Vec::new();
    committees.push(committee);
    proof {
        assert(string_views(committees@) =~= seq![
            "Synthetic Committee "@ + decimal_digits(((index % 8) + 1) as nat),
        ]);
    }
    let senator = Senator {
        identity: Identity {
            senator_id: record.senator_id.clone(),
            full_name: record.full_name.clone(),
            party: record.party.copy(),
            state: record.state.clone(),
            class: record.class,
            start_date: record.start_date.copy(),
            end_date: match &record.end_date {
                Some(d) => Some(d.copy()),
                None => None,
            },
        },
        structural: StructuralProfile {
            ideology_score: party_adjusted_ideology(party, ideology),
            party_loyalty_baseline: probability_from_hash(id, 5, 5800, 9400),
            bipartisanship_baseline: probability_from_hash(id, 6, 1800, 7400),
            committee_assignments: committees,
            reelection_year: Some(2026 + ((index % 3) as i32 * 2)),
            electoral_vulnerability: probability_from_hash(id, 7, 1200, 7800),
        },
        issue_preferences: IssuePreferences {
            defense: party_issue_shift(party, signed_from_hash(id, 8), 1500, -1500),
            immigration: party_issue_shift(party, immigration, -1000, 2000),
            energy_climate: party_issue_shift(party, energy, 2500, -2500),
            labor: party_issue_shift(party, signed_from_hash(id, 9), 2000, -1000),
            healthcare: party_issue_shift(party, signed_from_hash(id, 10), 1800, -1200),
            tax_spending: party_issue_shift(party, tax, -1000, 2000),
            judiciary: party_issue_shift(party, judiciary, -500, 1200),
            trade: signed_from_hash(id, 11),
            tech_privacy: signed_from_hash(id, 12),
            foreign_policy: signed_from_hash(id, 13),
        },
        procedural: Procedural {
            cloture_support_baseline: probability_from_hash(id, 14, 3800, 8800),
            motion_to_proceed_baseline: probability_from_hash(id, 15, 4500, 9200),
            uc_objection_tendency: probability_from_hash(id, 16, 500, 4800),
            leadership_deference: probability_from_hash(id, 17, 2500, 8800),
            amendment_openness: probability_from_hash(id, 18, 2800, 8600),
            attendance_reliability: probability_from_hash(id, 19, 8500, 9900),
        },
        dynamic_state: DynamicState {
            current_public_position: PublicPosition::Undeclared,
            current_substantive_support: probability_from_hash(id, 20, 3500, 6500),
            current_procedural_support: probability_from_hash(id, 21, 3500, 6500),
            current_negotiability: probability_from_hash(id, 22, 2200, 8200),
            current_party_pressure: probability_from_hash(id, 23, 3000, 8800),
            current_issue_salience_in_state: probability_from_hash(id, 24, 2500, 8000),
        },
        feature_coverage_score: None,
        feature_notes: Vec::new(),
    };
    senator.validate()?;
    Ok(senator)
}

/// Synthetic senator profiles for the snapshot's roster, in roster order;
/// fails when a roster entry has no id.
pub fn snapshot_to_senators(snapshot: &DataSnapshot) -> (r: Result<Vec<Senator>, SenateSimError>)
    ensures
        r is Ok <==> forall|i: int|
            0 <= i < snapshot.roster_records@.len() ==> (
            #[trigger] snapshot.roster_records@[i]).senator_id@.len() > 0,
        r matches Ok(ss) ==> ss@.len() == snapshot.roster_records@.len() && forall|i: int|
            0 <= i < ss@.len() ==> synthetic_senator(#[trigger] ss@[i], snapshot.roster_records@[i], i)
                && ss@[i].wf(),
{
    let mut senators: Vec<Senator> = Vec::new();
    let mut i: usize = 0;
    while i < snapshot.roster_records.len()
        invariant
            i <= snapshot.roster_records@.len(),
            senators@.len() == i,
            forall|k: int| 0 <= k < i ==> (#[trigger] snapshot.roster_records@[k]).senator_id@.len() > 0,
            forall|k: int|
                0 <= k < i ==> synthetic_senator(#[trigger] senators@[k], snapshot.roster_records@[k], k)
                    && senators@[k].wf(),
        decreases snapshot.roster_records.len() - i,
    {
        let s = materialize_senator(&snapshot.roster_records[i], i)?;
        senators.push(s);
        i = i + 1;
    }
    Ok(senators)
}

/// `obj` is the legislative object built from record `rec`.
pub open spec fn object_from_record(obj: LegislativeObject, rec: NormalizedLegislativeRecord) -> bool {
    &&& obj.object_id@ == rec.object_id@
    &&& obj.title@ == rec.title@
    &&& obj.object_type == rec.object_type
    &&& obj.policy_domain == rec.policy_domain
    &&& obj.summary@ == rec.summary@
    &&& obj.sponsor == rec.sponsor
    &&& obj.cosponsors@.len() == 0
    &&& obj.origin_chamber == rec.origin_chamber
    &&& obj.introduced_date == rec.introduced_date
    &&& obj.current_version_label == rec.latest_status_text
    &&& obj.budgetary_impact == rec.budgetary_impact
    &&& obj.salience == rec.salience
    &&& obj.controversy == rec.controversy
}

fn copy_text_option(o: &Option<String>) -> (r: Option<String>)
    ensures
        r == *o,
{
    match o {
        Some(s) => Some(s.clone()),
        None => None,
    }
}

/// The snapshot's legislative records as legislative objects, in order;
/// fails on the first record that does not validate.
pub fn snapshot_to_legislative_objects(snapshot: &DataSnapshot) -> (r: Result<Vec<LegislativeObject>, SenateSimError>)
    ensures
        r is Ok <==> forall|i: int|
            0 <= i < snapshot.legislative_records@.len() ==> (
            #[trigger] snapshot.legislative_records@[i]).wf(),
        r matches Ok(objs) ==> objs@.len() == snapshot.legislative_records@.len() && forall|i: int|
            0 <= i < objs@.len() ==> object_from_record(
                #[trigger] objs@[i],
                snapshot.legislative_records@[i],
            ) && objs@[i].wf(),
{
    let mut objects: Vec<LegislativeObject> = Vec::new();
    let mut i: usize = 0;
    while i < snapshot.legislative_records.len()
        invariant
            i <= snapshot.legislative_records@.len(),
            objects@.len() == i,
            forall|k: int| 0 <= k < i ==> (#[trigger] snapshot.legislative_records@[k]).wf(),
            forall|k: int|
                0 <= k < i ==> object_from_record(
                    #[trigger] objects@[k],
                    snapshot.legislative_records@[k],
                ) && objects@[k].wf(),
        decreases snapshot.legislative_records.len() - i,
    {
        let record = &snapshot.legislative_records[i];
        let object = LegislativeObject {
            object_id: record.object_id.clone(),
            title: record.title.clone(),
            object_type: record.object_type.copy(),
            policy_domain: record.policy_domain.copy(),
            summary: record.summary.clone(),
            sponsor: copy_text_option(&record.sponsor),
            cosponsors: Vec::new(),
            origin_chamber: record.origin_chamber,
            introduced_date: record.introduced_date.copy(),
            current_version_label: copy_text_option(&record.latest_status_text),
            budgetary_impact: record.budgetary_impact,
            salience: record.salience,
            controversy: record.controversy,
        };
        object.validate()?;
        objects.push(object);
        i = i + 1;
    }
    Ok(objects)
}

/// A default context for every legislative record of the snapshot, at the
/// record's current stage.
pub fn snapshot_to_contexts(snapshot: &DataSnapshot) -> (r: Result<Vec<LegislativeContext>, SenateSimError>)
    ensures
        r matches Ok(ctxs) && ctxs@.len() == snapshot.legislative_records@.len() && forall|i: int|
            0 <= i < ctxs@.len() ==> default_context_spec(
                #[trigger] ctxs@[i],
                snapshot.snapshot_date,
                snapshot.legislative_records@[i].current_stage,
            ) && ctxs@[i].wf(),
{
    let mut contexts: Vec<LegislativeContext> = Vec::new();
    let mut i: usize = 0;
    while i < snapshot.legislative_records.len()
        invariant
            i <= snapshot.legislative_records@.len(),
            contexts@.len() == i,
            forall|k: int|
                0 <= k < i ==> default_context_spec(
                    #[trigger] contexts@[k],
                    snapshot.snapshot_date,
                    snapshot.legislative_records@[k].current_stage,
                ) && contexts@[k].wf(),
        decreases snapshot.legislative_records.len() - i,
    {
        let context = default_context_for_stage(
            &snapshot.snapshot_date,
            snapshot.legislative_records[i].current_stage.copy(),
        );
        match context.validate() {
            Ok(()) => {},
            Err(e) => return Err(e),
        }
        contexts.push(context);
        i = i + 1;
    }
    Ok(contexts)
}

/// The day number of 1970-01-01.
pub const UNIX_EPOCH_DAY: i64 = 719163;

/// Noon UTC of the date, as Unix seconds: when records fetched for a run date
/// are stamped.
pub open spec fn fetched_at_spec(day_number: int) -> int {
    (day_number - UNIX_EPOCH_DAY) * 86400 + 43200
}

pub fn fetched_at_for(run_date: &CalendarDate) -> (r: i64)
    requires
        run_date.wf(),
    ensures
        r == fetched_at_spec(run_date.day_number as int),
{
    (run_date.day_number as i64 - UNIX_EPOCH_DAY) * 86400 + 43200
}

/// The manifest of one source's records for a run date; `payload` is the
/// records serialized as JSON.
pub open spec fn manifest_of(
    m: SourceManifest,
    source_name: Seq<char>,
    run_date: CalendarDate,
    payload: Seq<char>,
    record_count: usize,
) -> bool {
    &&& m.source_name@ == source_name
    &&& m.fetched_at == fetched_at_spec(run_date.day_number as int)
    &&& m.as_of_date == run_date
    &&& m.source_identifier@ == source_name + "-"@ + compact_date_text(run_date.day_number as int)
    &&& m.content_hash@ == hex_digits(fnv_fold(vstd::utf8::encode_utf8(payload), FNV_OFFSET) as nat, 16)
    &&& m.record_count == record_count
}

pub fn manifest_for(source_name: &str, run_date: &CalendarDate, payload: &str, record_count: usize) -> (r: SourceManifest)
    requires
        run_date.wf(),
    ensures
        manifest_of(r, source_name@, *run_date, payload@, record_count),
{
    let mut id = String::from_str(source_name);
    id.append("-");
    id.append(run_date.compact_text().as_str());
    SourceManifest {
        source_name: String::from_str(source_name),
        fetched_at: fetched_at_for(run_date),
        as_of_date: run_date.copy(),
        source_identifier: id,
        content_hash: content_hash_string(payload),
        record_count,
    }
}

/// The serialized records of one source and how many there are.
pub struct SourcePayload {
    pub json: String,
    pub record_count: usize,
}

/// The snapshot of a run date built from the normalized records, with a
/// manifest per source (roster, legislation, actions, in that order).
pub open spec fn snapshot_built(
    s: DataSnapshot,
    run_date: CalendarDate,
    payloads: (SourcePayload, SourcePayload, SourcePayload),
    roster: Seq<NormalizedSenatorRecord>,
    legislation: Seq<NormalizedLegislativeRecord>,
    actions: Seq<NormalizedActionRecord>,
    created_at: i64,
) -> bool {
    &&& s.snapshot_date == run_date
    &&& s.run_id@ == "snapshot-"@ + compact_date_text(run_date.day_number as int)
    &&& s.created_at == created_at
    &&& s.roster_records@ == roster
    &&& s.legislative_records@ == legislation
    &&& s.action_records@ == actions
    &&& s.vote_records@.len() == 0
    &&& s.public_signal_records@.len() == 0
    &&& s.public_signal_summary is None
    &&& s.source_manifests@.len() == 3
    &&& manifest_of(s.source_manifests@[0], "roster"@, run_date, payloads.0.json@, payloads.0.record_count)
    &&& manifest_of(s.source_manifests@[1], "legislation"@, run_date, payloads.1.json@, payloads.1.record_count)
    &&& manifest_of(s.source_manifests@[2], "actions"@, run_date, payloads.2.json@, payloads.2.record_count)
}

/// Builds and validates the snapshot of a run; refused when a record is not
/// valid. `created_at` is the Unix time of the build.
pub fn build_snapshot(
    run_date: &CalendarDate,
    roster_payload: SourcePayload,
    legislation_payload: SourcePayload,
    actions_payload: SourcePayload,
    roster_records: Vec<NormalizedSenatorRecord>,
    legislative_records: Vec<NormalizedLegislativeRecord>,
    action_records: Vec<NormalizedActionRecord>,
    created_at: i64,
) -> (r: Result<DataSnapshot, SenateSimError>)
    requires
        run_date.wf(),
    ensures
        r is Ok <==> {
            &&& forall|i: int| 0 <= i < roster_records@.len() ==> (#[trigger] roster_records@[i]).wf()
            &&& forall|i: int| 0 <= i < legislative_records@.len() ==> (#[trigger] legislative_records@[i]).wf()
            &&& forall|i: int| 0 <= i < action_records@.len() ==> (#[trigger] action_records@[i]).wf()
        },
        r matches Ok(s) ==> s.wf() && snapshot_built(
            s,
            *run_date,
            (roster_payload, legislation_payload, actions_payload),
            roster_records@,
            legislative_records@,
            action_records@,
            created_at,
        ),
{
    let ghost rr = roster_records@;
    let ghost lr = legislative_records@;
    let ghost ar = action_records@;
    let mut manifests: Vec<SourceManifest> = Vec::new();
    manifests.push(manifest_for("roster", run_date, roster_payload.json.as_str(), roster_payload.record_count));
    manifests.push(
        manifest_for("legislation", run_date, legislation_payload.json.as_str(), legislation_payload.record_count),
    );
    manifests.push(manifest_for("actions", run_date, actions_payload.json.as_str(), actions_payload.record_count));
    let mut run_id = String::from_str("snapshot-");
    run_id.append(run_date.compact_text().as_str());
    proof {
        reveal_strlit("snapshot-");
    }
    let snapshot = DataSnapshot {
        snapshot_date: run_date.copy(),
        run_id,
        created_at,
        roster_records,
        legislative_records,
        action_records,
        vote_records: Vec::new(),
        public_signal_records: Vec::new(),
        public_signal_summary: None,
        source_manifests: manifests,
    };
    proof {
        assert(snapshot.run_id@.len() > 0);
        assert(snapshot.vote_records@.len() == 0);
        assert(snapshot.roster_records@ == rr);
        assert(snapshot.legislative_records@ == lr);
        assert(snapshot.action_records@ == ar);
    }
    match snapshot.validate() {
        Ok(()) => Ok(snapshot),
        Err(e) => Err(e),
    }
}

/// The two manifests record the same source, fetch time, date, identifier,
/// content hash and record count.
pub open spec fn same_manifest(a: SourceManifest, b: SourceManifest) -> bool {
    &&& a.source_name@ == b.source_name@
    &&& a.fetched_at == b.fetched_at
    &&& a.as_of_date == b.as_of_date
    &&& a.source_identifier@ == b.source_identifier@
    &&& a.content_hash@ == b.content_hash@
    &&& a.record_count == b.record_count
}

/// A daily snapshot is repeatable: built twice for the same date from the same
/// payloads and records, at any two build times, it has the same run id,
/// records and source manifests.
pub proof fn law_snapshot_build_repeatable(
    first: DataSnapshot,
    second: DataSnapshot,
    run_date: CalendarDate,
    payloads: (SourcePayload, SourcePayload, SourcePayload),
    roster: Seq<NormalizedSenatorRecord>,
    legislation: Seq<NormalizedLegislativeRecord>,
    actions: Seq<NormalizedActionRecord>,
    first_created_at: i64,
    second_created_at: i64,
)
    requires
        snapshot_built(first, run_date, payloads, roster, legislation, actions, first_created_at),
        snapshot_built(second, run_date, payloads, roster, legislation, actions, second_created_at),
    ensures
        first.snapshot_date == second.snapshot_date,
        first.run_id@ == second.run_id@,
        first.roster_records@ == second.roster_records@,
        first.legislative_records@ == second.legislative_records@,
        first.action_records@ == second.action_records@,
        first.source_manifests@.len() == second.source_manifests@.len(),
        forall|i: int|
            0 <= i < first.source_manifests@.len() ==> same_manifest(
                #[trigger] first.source_manifests@[i],
                second.source_manifests@[i],
            ),
{
    assert forall|i: int| 0 <= i < first.source_manifests@.len() implies same_manifest(
        #[trigger] first.source_manifests@[i],
        second.source_manifests@[i],
    ) by {
        assert(0 <= i < 3);
    }
}

} // verus!
