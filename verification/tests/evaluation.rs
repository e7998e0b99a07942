use senate_simulator::eval::examples::{generate_actual_trajectory, generate_next_event_examples};
use senate_simulator::eval::runner::evaluate_snapshot_examples;
use senate_simulator::model::context::{Chamber, ProceduralStage};
use senate_simulator::model::evaluation::{EvaluationExample, EvaluationSummary, HistoricalActionEvent, HistoricalTimeline};
use senate_simulator::model::events::SenateEvent;
use senate_simulator::model::identity::{Party, SenateClass};
use senate_simulator::model::legislative::{BudgetaryImpact, LegislativeObjectType, PolicyDomain};
use senate_simulator::model::records::{NormalizedActionCategory, NormalizedLegislativeRecord, NormalizedSenatorRecord};
use senate_simulator::model::snapshot::{DataSnapshot, SourceManifest};
use senate_simulator::util::calendar::CalendarDate;

fn snapshot() -> DataSnapshot {
    DataSnapshot {
        snapshot_date: CalendarDate::from_ymd(2026, 3, 9).unwrap(),
        run_id: "snapshot-20260309".to_string(),
        created_at: 1_700_000_000,
        roster_records: vec![],
        legislative_records: vec![NormalizedLegislativeRecord {
            object_id: "obj_1".to_string(),
            title: "Test Bill".to_string(),
            summary: "Test summary".to_string(),
            object_type: LegislativeObjectType::Bill,
            policy_domain: PolicyDomain::EnergyClimate,
            sponsor: Some("A. Sponsor".to_string()),
            introduced_date: CalendarDate::from_ymd(2026, 2, 1).unwrap(),
            latest_status_text: Some("Cloture filed".to_string()),
            current_stage: ProceduralStage::ClotureFiled,
            origin_chamber: Chamber::Senate,
            budgetary_impact: BudgetaryImpact::Moderate,
            salience: 7000,
            controversy: 6000,
            as_of_date: CalendarDate::from_ymd(2026, 3, 9).unwrap(),
        }],
        action_records: vec![],
        vote_records: vec![],
        public_signal_records: vec![],
        public_signal_summary: None,
        source_manifests: vec![SourceManifest {
            source_name: "test".to_string(),
            fetched_at: 1_700_000_000,
            as_of_date: CalendarDate::from_ymd(2026, 3, 9).unwrap(),
            source_identifier: "test".to_string(),
            content_hash: "abc".to_string(),
            record_count: 1,
        }],
    }
}

fn timeline(events: Vec<HistoricalActionEvent>) -> HistoricalTimeline {
    HistoricalTimeline {
        object_id: "obj_1".to_string(),
        events,
    }
}

fn event(
    date: (i32, u32, u32),
    event: Option<SenateEvent>,
    consequential: bool,
) -> HistoricalActionEvent {
    HistoricalActionEvent {
        object_id: "obj_1".to_string(),
        action_date: CalendarDate::from_ymd(date.0, date.1, date.2).unwrap(),
        raw_action_text: "event".to_string(),
        normalized_action_category: NormalizedActionCategory::Cloture,
        aligned_senate_event: event,
        is_consequential: consequential,
        source_record_id: Some(format!("{}_{}_{}", date.0, date.1, date.2)),
    }
}

#[test]
fn next_event_label_generation_skips_same_day_or_past_events() {
    let examples = generate_next_event_examples(
        &snapshot(),
        &[timeline(vec![
            event((2026, 3, 8), Some(SenateEvent::ClotureFiled), true),
            event((2026, 3, 9), Some(SenateEvent::ClotureVoteScheduled), true),
            event((2026, 3, 10), Some(SenateEvent::ClotureInvoked), true),
        ])],
    )
    .unwrap();

    assert_eq!(
        examples[0].actual_next_event,
        Some(SenateEvent::ClotureInvoked)
    );
    assert_eq!(
        examples[0].actual_next_event_date,
        Some(CalendarDate::from_ymd(2026, 3, 10).unwrap())
    );
}

#[test]
fn no_event_case_labels_no_meaningful_movement() {
    let examples = generate_next_event_examples(&snapshot(), &[timeline(vec![])]).unwrap();
    assert_eq!(
        examples[0].actual_next_event,
        Some(SenateEvent::NoMeaningfulMovement)
    );
}

#[test]
fn actual_trajectory_generation_respects_horizon_and_terminal_event() {
    let trajectory = generate_actual_trajectory(
        &snapshot(),
        &timeline(vec![
            event((2026, 3, 10), Some(SenateEvent::ClotureVoteScheduled), true),
            event((2026, 3, 11), Some(SenateEvent::ClotureInvoked), true),
            event((2026, 3, 12), Some(SenateEvent::FinalPassageSucceeds), true),
            event((2026, 3, 13), Some(SenateEvent::ReturnedToCalendar), true),
        ]),
        5,
        Some(5),
    )
    .unwrap();

    assert_eq!(trajectory.events.len(), 3);
    assert_eq!(trajectory.events[2].event, SenateEvent::FinalPassageSucceeds);
}

fn scored_snapshot() -> DataSnapshot {
    DataSnapshot {
        snapshot_date: CalendarDate::from_ymd(2026, 3, 9).unwrap(),
        run_id: "snapshot-20260309".to_string(),
        created_at: 1_700_000_000,
        roster_records: vec![
            NormalizedSenatorRecord {
                senator_id: "real_a".to_string(),
                full_name: "A Example".to_string(),
                party: Party::Democrat,
                state: "CA".to_string(),
                class: SenateClass::I,
                start_date: CalendarDate::from_ymd(2023, 1, 3).unwrap(),
                end_date: None,
                source_member_id: "a".to_string(),
                as_of_date: CalendarDate::from_ymd(2026, 3, 9).unwrap(),
            },
            NormalizedSenatorRecord {
                senator_id: "real_b".to_string(),
                full_name: "B Example".to_string(),
                party: Party::Republican,
                state: "TX".to_string(),
                class: SenateClass::II,
                start_date: CalendarDate::from_ymd(2021, 1, 3).unwrap(),
                end_date: None,
                source_member_id: "b".to_string(),
                as_of_date: CalendarDate::from_ymd(2026, 3, 9).unwrap(),
            },
        ],
        legislative_records: vec![NormalizedLegislativeRecord {
            object_id: "s_2100".to_string(),
            title: "Clean Grid Permitting Act".to_string(),
            summary: "Energy bill".to_string(),
            object_type: LegislativeObjectType::Bill,
            policy_domain: PolicyDomain::EnergyClimate,
            sponsor: Some("A Sponsor".to_string()),
            introduced_date: CalendarDate::from_ymd(2026, 2, 10).unwrap(),
            latest_status_text: Some("Cloture filed in Senate after structured debate.".to_string()),
            current_stage: ProceduralStage::ClotureFiled,
            origin_chamber: Chamber::Senate,
            budgetary_impact: BudgetaryImpact::Moderate,
            salience: 7000,
            controversy: 6000,
            as_of_date: CalendarDate::from_ymd(2026, 3, 9).unwrap(),
        }],
        action_records: vec![],
        vote_records: vec![],
        public_signal_records: vec![],
        public_signal_summary: None,
        source_manifests: vec![SourceManifest {
            source_name: "test".to_string(),
            fetched_at: 1_700_000_000,
            as_of_date: CalendarDate::from_ymd(2026, 3, 9).unwrap(),
            source_identifier: "test".to_string(),
            content_hash: "abc".to_string(),
            record_count: 1,
        }],
    }
}

#[test]
fn evaluation_summary_metrics_are_computed() {
    let examples = vec![EvaluationExample {
        example_id: "ex_1".to_string(),
        snapshot_date: CalendarDate::from_ymd(2026, 3, 9).unwrap(),
        object_id: "s_2100".to_string(),
        current_stage: Some(ProceduralStage::ClotureFiled),
        actual_next_event: Some(SenateEvent::ClotureVoteScheduled),
        actual_next_event_date: Some(CalendarDate::from_ymd(2026, 3, 10).unwrap()),
        snapshot_path: "data/snapshots/2026-03-09/snapshot.json".to_string(),
        timeline_position: 0,
        notes: vec![],
    }];

    let summary: EvaluationSummary = evaluate_snapshot_examples(&scored_snapshot(), &examples).unwrap();
    assert_eq!(summary.total_examples, 1);
    assert!((0..=10000).contains(&summary.top_1_next_event_accuracy));
    assert!((0..=10000).contains(&summary.top_k_next_event_accuracy));
    assert!((0..=10000).contains(&summary.trajectory_prefix_match_rate));
}

#[test]
fn evaluation_needs_senators_only_for_labeled_examples() {
    let example = |object_id: &str| EvaluationExample {
        example_id: "ex_1".to_string(),
        snapshot_date: CalendarDate::from_ymd(2026, 3, 9).unwrap(),
        object_id: object_id.to_string(),
        current_stage: Some(ProceduralStage::ClotureFiled),
        actual_next_event: Some(SenateEvent::ClotureVoteScheduled),
        actual_next_event_date: Some(CalendarDate::from_ymd(2026, 3, 10).unwrap()),
        snapshot_path: "data/snapshots/2026-03-09/snapshot.json".to_string(),
        timeline_position: 0,
        notes: vec![],
    };
    let mut empty_roster = scored_snapshot();
    empty_roster.roster_records = vec![];
    assert!(evaluate_snapshot_examples(&empty_roster, &[example("s_2100")]).is_err());
    let summary = evaluate_snapshot_examples(&empty_roster, &[example("hr_1")]).unwrap();
    assert_eq!(summary.unscorable_examples, 1);
    assert_eq!(summary.top_1_next_event_accuracy, 0);
}
