use senate_simulator::backtest::runner::backtest_snapshot;
use senate_simulator::derive::StanceDerivationMode;
use senate_simulator::features::materialize::default_class;
use senate_simulator::ingest::normalize::normalize_roster;
use senate_simulator::ingest::snapshot::{
    build_snapshot, fetched_at_for, manifest_for, snapshot_to_contexts, snapshot_to_legislative_objects,
    snapshot_to_senators, SourcePayload,
};
use senate_simulator::ingest::sources::content_hash_string;
use senate_simulator::model::context::{Chamber, ProceduralStage};
use senate_simulator::model::events::SenateEvent;
use senate_simulator::model::identity::{Party, SenateClass};
use senate_simulator::model::legislative::{BudgetaryImpact, LegislativeObjectType, PolicyDomain};
use senate_simulator::model::records::{
    NormalizedActionCategory, NormalizedActionRecord, NormalizedLegislativeRecord, NormalizedSenatorRecord,
    RawRosterRecord,
};
use senate_simulator::model::snapshot::DataSnapshot;
use senate_simulator::util::calendar::CalendarDate;

fn date(y: i32, m: u32, d: u32) -> CalendarDate {
    CalendarDate::from_ymd(y, m, d).unwrap()
}

fn senator_record(id: &str, party: Party, state: &str, class: SenateClass) -> NormalizedSenatorRecord {
    NormalizedSenatorRecord {
        senator_id: id.to_string(),
        full_name: format!("{id} Example"),
        party,
        state: state.to_string(),
        class,
        start_date: date(2023, 1, 3),
        end_date: None,
        source_member_id: id.to_string(),
        as_of_date: date(2026, 3, 9),
    }
}

fn bill() -> NormalizedLegislativeRecord {
    NormalizedLegislativeRecord {
        object_id: "s_2100".to_string(),
        title: "Clean Grid Permitting Act".to_string(),
        summary: "Energy bill".to_string(),
        object_type: LegislativeObjectType::Bill,
        policy_domain: PolicyDomain::EnergyClimate,
        sponsor: Some("A Sponsor".to_string()),
        introduced_date: date(2026, 2, 10),
        latest_status_text: Some("Cloture filed in Senate.".to_string()),
        current_stage: ProceduralStage::ClotureFiled,
        origin_chamber: Chamber::Senate,
        budgetary_impact: BudgetaryImpact::Moderate,
        salience: 7000,
        controversy: 6000,
        as_of_date: date(2026, 3, 9),
    }
}

fn snapshot() -> DataSnapshot {
    DataSnapshot {
        snapshot_date: date(2026, 3, 9),
        run_id: "snapshot-20260309".to_string(),
        created_at: 1_773_057_600,
        roster_records: vec![
            senator_record("real_a", Party::Democrat, "CA", SenateClass::I),
            senator_record("real_b", Party::Republican, "TX", SenateClass::II),
            senator_record("real_c", Party::Democrat, "WA", SenateClass::III),
        ],
        legislative_records: vec![bill()],
        action_records: vec![],
        vote_records: vec![],
        public_signal_records: vec![],
        public_signal_summary: None,
        source_manifests: vec![],
    }
}

#[test]
fn calendar_dates_render_and_measure() {
    let d = date(2026, 3, 9);
    assert_eq!(d.year(), 2026);
    assert_eq!(d.month(), 3);
    assert_eq!(d.iso_text(), "2026-03-09");
    assert_eq!(d.compact_text(), "20260309");
    assert_eq!(d.days_since(&date(2026, 3, 1)), 8);
    assert!(CalendarDate::from_ymd(2026, 2, 30).is_none());
    assert_eq!(date(1, 1, 1).day_number, 1);
}

#[test]
fn calendar_dates_follow_the_civil_calendar_at_its_edges() {
    let far_past = date(-1, 1, 1);
    assert_eq!(far_past.iso_text(), "-0001-01-01");
    assert_eq!(far_past.compact_text(), "-00010101");
    let far_future = date(10000, 12, 31);
    assert_eq!(far_future.iso_text(), "+10000-12-31");
    assert_eq!(far_future.year(), 10000);
    assert_eq!(date(999, 2, 3).iso_text(), "0999-02-03");
    let leap_day = date(2024, 2, 29);
    assert_eq!(CalendarDate { day_number: leap_day.day_number + 1 }.month(), 3);
    assert_eq!(CalendarDate { day_number: 730000 }.iso_text(), "1999-09-03");
    assert_eq!(CalendarDate { day_number: 0 }.iso_text(), "0000-12-31");
    assert_eq!(CalendarDate { day_number: -95746129 }.iso_text(), "-262143-01-01");
    assert_eq!(CalendarDate { day_number: 95745399 }.iso_text(), "+262142-12-31");
    assert_eq!(CalendarDate { day_number: 95745400 }.iso_text(), "");
    assert_eq!(CalendarDate { day_number: 95745400 }.year(), 0);
}

#[test]
fn content_hashes_are_fnv1a_in_hex() {
    assert_eq!(content_hash_string(""), "cbf29ce484222325");
    assert_eq!(content_hash_string("a"), "af63dc4c8601ec8c");
    assert_eq!(content_hash_string("[]"), "09612b07b5ecb5a5");
}

#[test]
fn manifests_and_snapshots_are_stamped_at_noon_utc() {
    assert_eq!(fetched_at_for(&date(1970, 1, 1)), 43200);
    assert_eq!(fetched_at_for(&date(2026, 3, 9)), 1_773_057_600);
    let manifest = manifest_for("roster", &date(2026, 3, 9), "[]", 0);
    assert_eq!(manifest.source_identifier, "roster-20260309");
    assert_eq!(manifest.content_hash, "09612b07b5ecb5a5");
    assert_eq!(manifest.fetched_at, 1_773_057_600);
    let payload = |n: usize| SourcePayload { json: "[]".to_string(), record_count: n };
    let snap = build_snapshot(
        &date(2026, 3, 9),
        payload(1),
        payload(1),
        payload(0),
        vec![senator_record("real_a", Party::Democrat, "CA", SenateClass::I)],
        vec![bill()],
        vec![],
        42,
    )
    .unwrap();
    assert_eq!(snap.run_id, "snapshot-20260309");
    assert_eq!(snap.created_at, 42);
    assert_eq!(snap.source_manifests.len(), 3);
    assert_eq!(snap.source_manifests[1].source_name, "legislation");
    let invalid = build_snapshot(
        &date(2026, 3, 9),
        payload(1),
        payload(0),
        payload(0),
        vec![senator_record("", Party::Democrat, "CA", SenateClass::I)],
        vec![],
        vec![],
        42,
    );
    assert!(invalid.is_err());
}

#[test]
fn roster_normalization_cleans_ids_names_and_states() {
    let raw = RawRosterRecord {
        source_member_id: " A0001 ".to_string(),
        name: "  Adams, Alex ".to_string(),
        party: "democratic".to_string(),
        state: "wa ".to_string(),
        chamber: Chamber::Senate,
        start_date: None,
        end_date: None,
        as_of_date: date(2026, 3, 9),
        source_name: "congress_api".to_string(),
        source_identifier: "A0001".to_string(),
        source_url: None,
    };
    let normalized = normalize_roster(&[raw]).unwrap();
    assert_eq!(normalized[0].senator_id, "real_a0001");
    assert_eq!(normalized[0].full_name, "Adams, Alex");
    assert_eq!(normalized[0].party, Party::Democrat);
    assert_eq!(normalized[0].state, "WA");
    assert_eq!(normalized[0].class, SenateClass::I);
    assert_eq!(normalized[0].start_date, date(2026, 3, 9));
    let blank = RawRosterRecord {
        source_member_id: "B".to_string(),
        name: "   ".to_string(),
        party: "R".to_string(),
        state: "TX".to_string(),
        chamber: Chamber::Senate,
        start_date: None,
        end_date: None,
        as_of_date: date(2026, 3, 9),
        source_name: "congress_api".to_string(),
        source_identifier: "B".to_string(),
        source_url: None,
    };
    assert!(normalize_roster(&[blank]).is_err());
}

#[test]
fn default_classes_follow_the_id_byte_sum() {
    assert_eq!(default_class("a"), SenateClass::II);
    assert_eq!(default_class("c"), SenateClass::I);
    assert_eq!(default_class(""), SenateClass::I);
}

#[test]
fn snapshot_materialization_gives_valid_inputs() {
    let snap = snapshot();
    let senators = snapshot_to_senators(&snap).unwrap();
    assert_eq!(senators.len(), 3);
    assert!(senators.iter().all(|senator| senator.validate().is_ok()));
    let objects = snapshot_to_legislative_objects(&snap).unwrap();
    let contexts = snapshot_to_contexts(&snap).unwrap();
    assert_eq!(objects.len(), 1);
    assert_eq!(contexts.len(), 1);
    assert!(objects[0].validate().is_ok());
    assert!(contexts[0].validate().is_ok());
    assert_eq!(contexts[0].procedural_stage, ProceduralStage::ClotureFiled);
}

#[test]
fn backtest_prediction_does_not_depend_on_the_later_action() {
    let snap = snapshot();
    let senators = snapshot_to_senators(&snap).unwrap();
    let action = |id: &str, day: u32, text: &str, category: NormalizedActionCategory| NormalizedActionRecord {
        action_id: id.to_string(),
        object_id: "s_2100".to_string(),
        action_date: date(2026, 3, day),
        chamber: Chamber::Senate,
        action_text: text.to_string(),
        category,
        as_of_date: date(2026, 3, day),
    };
    let without = backtest_snapshot(&snap, &senators, "s_2100", StanceDerivationMode::Heuristic, &[]).unwrap();
    // Only the first consequential action after the snapshot date that aligns
    // with an event counts: not the earlier one on the snapshot date, nor the
    // later referral, which is no consequential step.
    let later = vec![
        action("act_8", 9, "Cloture filed.", NormalizedActionCategory::Cloture),
        action("act_10", 10, "Read twice and referred to committee.", NormalizedActionCategory::Referred),
        action("act_12", 12, "Cloture invoked.", NormalizedActionCategory::Cloture),
        action("act_14", 14, "Bill passed Senate.", NormalizedActionCategory::Passage),
    ];
    let with = backtest_snapshot(&snap, &senators, "s_2100", StanceDerivationMode::Heuristic, &later).unwrap();
    assert_eq!(without.predicted_next_event, with.predicted_next_event);
    assert_eq!(without.prediction_confidence, with.prediction_confidence);
    assert_eq!(without.actual_next_event, Some(SenateEvent::NoMeaningfulMovement));
    assert_eq!(without.match_top_1, without.predicted_next_event == Some(SenateEvent::NoMeaningfulMovement));
    assert_eq!(with.actual_next_event, Some(SenateEvent::ClotureInvoked));
    assert_eq!(with.match_top_1, with.predicted_next_event == Some(SenateEvent::ClotureInvoked));
    assert!(with.notes.iter().any(|note| note.contains("actual next action observed on 2026-03-12")));
    assert!(backtest_snapshot(&snap, &senators, "missing", StanceDerivationMode::Heuristic, &[]).is_err());
    assert!(backtest_snapshot(&snap, &[], "s_2100", StanceDerivationMode::Heuristic, &[]).is_err());
}

#[test]
fn snapshot_rebuilds_are_repeatable() {
    let payload = |text: &str, n: usize| SourcePayload { json: text.to_string(), record_count: n };
    let build = |created_at: i64| {
        build_snapshot(
            &date(2026, 3, 9),
            payload("[{\"id\":\"A0001\"}]", 1),
            payload("[{\"bill\":\"s2100\"}]", 1),
            payload("[]", 0),
            vec![senator_record("real_a", Party::Democrat, "CA", SenateClass::I)],
            vec![bill()],
            vec![],
            created_at,
        )
        .unwrap()
    };
    let first = build(42);
    let second = build(1_773_100_000);
    assert_ne!(first.created_at, second.created_at);
    assert_eq!(first.run_id, second.run_id);
    assert_eq!(first.roster_records.len(), second.roster_records.len());
    assert_eq!(first.roster_records[0].senator_id, second.roster_records[0].senator_id);
    assert_eq!(first.legislative_records[0].object_id, second.legislative_records[0].object_id);
    assert_eq!(first.source_manifests.len(), second.source_manifests.len());
    for (a, b) in first.source_manifests.iter().zip(second.source_manifests.iter()) {
        assert_eq!(a.source_name, b.source_name);
        assert_eq!(a.fetched_at, b.fetched_at);
        assert_eq!(a.source_identifier, b.source_identifier);
        assert_eq!(a.content_hash, b.content_hash);
        assert_eq!(a.record_count, b.record_count);
    }
    assert_ne!(first.source_manifests[0].content_hash, first.source_manifests[2].content_hash);
}

#[test]
fn calendar_covers_the_whole_chrono_range() {
    let last = CalendarDate::from_ymd(262142, 12, 31).unwrap();
    assert_eq!(last.day_number, 95_745_399);
    assert_eq!(last.year(), 262142);
    let first = CalendarDate::from_ymd(-262143, 1, 1).unwrap();
    assert_eq!(first.day_number, -95_746_129);
    assert_eq!(first.month(), 1);
    assert!(CalendarDate::from_ymd(262143, 1, 1).is_none());
    assert!(CalendarDate::from_ymd(-262144, 12, 31).is_none());
}
