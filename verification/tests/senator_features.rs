use senate_simulator::features::materialize::feature_record_to_senator;
use senate_simulator::features::procedure::{cloture_votes, support_rate};
use senate_simulator::features::senator::build_senator_features_for_snapshot;
use senate_simulator::features::windows::FeatureWindowConfig;
use senate_simulator::model::context::{Chamber, ProceduralStage};
use senate_simulator::model::identity::{Party, SenateClass};
use senate_simulator::model::legislative::{BudgetaryImpact, LegislativeObjectType, PolicyDomain};
use senate_simulator::model::records::{
    NormalizedLegislativeRecord, NormalizedSenatorRecord, NormalizedVoteRecord, ProceduralKind, VoteCategory,
    VotePosition,
};
use senate_simulator::model::snapshot::{DataSnapshot, SourceManifest};
use senate_simulator::util::calendar::CalendarDate;

fn snapshot() -> DataSnapshot {
    DataSnapshot {
        snapshot_date: CalendarDate::from_ymd(2026, 3, 9).unwrap(),
        run_id: "snapshot-20260309".to_string(),
        created_at: 1_700_000_000,
        roster_records: vec![
            NormalizedSenatorRecord {
                senator_id: "sen_a".to_string(),
                full_name: "Sen A".to_string(),
                party: Party::Democrat,
                state: "CA".to_string(),
                class: SenateClass::I,
                start_date: CalendarDate::from_ymd(2023, 1, 3).unwrap(),
                end_date: None,
                source_member_id: "a".to_string(),
                as_of_date: CalendarDate::from_ymd(2026, 3, 9).unwrap(),
            },
            NormalizedSenatorRecord {
                senator_id: "sen_b".to_string(),
                full_name: "Sen B".to_string(),
                party: Party::Republican,
                state: "TX".to_string(),
                class: SenateClass::II,
                start_date: CalendarDate::from_ymd(2021, 1, 3).unwrap(),
                end_date: None,
                source_member_id: "b".to_string(),
                as_of_date: CalendarDate::from_ymd(2026, 3, 9).unwrap(),
            },
        ],
        legislative_records: vec![NormalizedLegislativeRecord {
            object_id: "obj".to_string(),
            title: "Obj".to_string(),
            summary: "Summary".to_string(),
            object_type: LegislativeObjectType::Bill,
            policy_domain: PolicyDomain::EnergyClimate,
            sponsor: None,
            introduced_date: CalendarDate::from_ymd(2026, 1, 1).unwrap(),
            latest_status_text: Some("Debate".to_string()),
            current_stage: ProceduralStage::Debate,
            origin_chamber: Chamber::Senate,
            budgetary_impact: BudgetaryImpact::Moderate,
            salience: 5000,
            controversy: 5000,
            as_of_date: CalendarDate::from_ymd(2026, 3, 9).unwrap(),
        }],
        action_records: vec![],
        vote_records: vec![],
        public_signal_records: vec![],
        public_signal_summary: None,
        source_manifests: vec![SourceManifest {
            source_name: "test".to_string(),
            fetched_at: 1_700_000_000,
            as_of_date: CalendarDate::from_ymd(2026, 3, 9).unwrap(),
            source_identifier: "test".to_string(),
            content_hash: "abc".to_string(),
            record_count: 1,
        }],
    }
}

fn vote(
    vote_id: &str,
    date: (i32, u32, u32),
    senator_id: &str,
    party: Party,
    category: VoteCategory,
    position: VotePosition,
    domain: Option<PolicyDomain>,
    procedural_kind: Option<ProceduralKind>,
) -> NormalizedVoteRecord {
    NormalizedVoteRecord {
        vote_id: vote_id.to_string(),
        vote_date: CalendarDate::from_ymd(date.0, date.1, date.2).unwrap(),
        senator_id: senator_id.to_string(),
        senator_name: senator_id.to_string(),
        object_id: Some("obj".to_string()),
        vote_category: category,
        vote_position: position,
        party_at_time: party,
        policy_domain: domain,
        is_procedural: procedural_kind.is_some(),
        procedural_kind,
        as_of_date: CalendarDate::from_ymd(2026, 3, 9).unwrap(),
    }
}

#[test]
fn party_loyalty_and_bipartisanship_are_derived() {
    let votes = vec![
        vote("v1", (2026, 1, 1), "sen_a", Party::Democrat, VoteCategory::Passage, VotePosition::Yea, None, None),
        vote("v1", (2026, 1, 1), "sen_d2", Party::Democrat, VoteCategory::Passage, VotePosition::Yea, None, None),
        vote("v1", (2026, 1, 1), "sen_d3", Party::Democrat, VoteCategory::Passage, VotePosition::Yea, None, None),
        vote("v1", (2026, 1, 1), "sen_b", Party::Republican, VoteCategory::Passage, VotePosition::Nay, None, None),
        vote("v1", (2026, 1, 1), "sen_r2", Party::Republican, VoteCategory::Passage, VotePosition::Nay, None, None),
        vote("v2", (2026, 1, 2), "sen_a", Party::Democrat, VoteCategory::Passage, VotePosition::Nay, None, None),
        vote("v2", (2026, 1, 2), "sen_d2", Party::Democrat, VoteCategory::Passage, VotePosition::Yea, None, None),
        vote("v2", (2026, 1, 2), "sen_d3", Party::Democrat, VoteCategory::Passage, VotePosition::Yea, None, None),
        vote("v2", (2026, 1, 2), "sen_b", Party::Republican, VoteCategory::Passage, VotePosition::Nay, None, None),
        vote("v2", (2026, 1, 2), "sen_r2", Party::Republican, VoteCategory::Passage, VotePosition::Nay, None, None),
    ];
    let features = build_senator_features_for_snapshot(&snapshot(), &votes, &FeatureWindowConfig::default()).unwrap();
    let sen_a = features.iter().find(|record| record.senator_id == "sen_a").unwrap();
    assert!(sen_a.party_loyalty_baseline < 10000);
    assert!(sen_a.bipartisanship_baseline > 0);
}

#[test]
fn attendance_and_cloture_support_are_windowed() {
    let votes = vec![
        vote("c1", (2025, 2, 1), "sen_a", Party::Democrat, VoteCategory::Cloture, VotePosition::Nay, None, Some(ProceduralKind::Cloture)),
        vote("c2", (2026, 2, 1), "sen_a", Party::Democrat, VoteCategory::Cloture, VotePosition::Yea, None, Some(ProceduralKind::Cloture)),
        vote("m1", (2026, 2, 2), "sen_a", Party::Democrat, VoteCategory::MotionToProceed, VotePosition::NotVoting, None, Some(ProceduralKind::MotionToProceed)),
    ];
    let features = build_senator_features_for_snapshot(
        &snapshot(),
        &votes,
        &FeatureWindowConfig {
            baseline_lookback_days: None,
            recent_lookback_days: 365,
        },
    )
    .unwrap();
    let sen_a = features.iter().find(|record| record.senator_id == "sen_a").unwrap();
    assert!(sen_a.attendance_reliability < 10000);
    assert!(sen_a.recent_cloture_support > sen_a.cloture_support_baseline);
}

#[test]
fn votes_after_snapshot_date_are_excluded() {
    let votes = vec![
        vote("v1", (2026, 3, 8), "sen_a", Party::Democrat, VoteCategory::Cloture, VotePosition::Yea, None, Some(ProceduralKind::Cloture)),
        vote("v2", (2026, 3, 10), "sen_a", Party::Democrat, VoteCategory::Cloture, VotePosition::Nay, None, Some(ProceduralKind::Cloture)),
    ];
    let features = build_senator_features_for_snapshot(&snapshot(), &votes, &FeatureWindowConfig::default()).unwrap();
    let sen_a = features.iter().find(|record| record.senator_id == "sen_a").unwrap();
    assert_eq!(sen_a.historical_vote_count, 1);
    assert_eq!(sen_a.cloture_support_baseline, 10000);
}

#[test]
fn sparse_history_emits_fallback_note() {
    let features = build_senator_features_for_snapshot(&snapshot(), &[], &FeatureWindowConfig::default()).unwrap();
    let sen_a = features.iter().find(|record| record.senator_id == "sen_a").unwrap();
    assert!(sen_a.notes.iter().any(|note| note.contains("limited historical vote coverage")));
}

#[test]
fn feature_to_senator_materialization_is_valid() {
    let features = build_senator_features_for_snapshot(&snapshot(), &[], &FeatureWindowConfig::default()).unwrap();
    let senator = feature_record_to_senator(&features[0]).unwrap();
    assert!(senator.validate().is_ok());
}

#[test]
fn cloture_support_uses_only_cloture_votes() {
    let votes = vec![
        vote("c1", (2026, 1, 1), "sen_a", Party::Democrat, VoteCategory::Cloture, VotePosition::Yea, None, Some(ProceduralKind::Cloture)),
        vote("a1", (2026, 1, 2), "sen_a", Party::Democrat, VoteCategory::Amendment, VotePosition::Nay, None, Some(ProceduralKind::AmendmentProcess)),
    ];
    let senator_votes = votes.iter().collect::<Vec<_>>();
    assert_eq!(support_rate(&cloture_votes(&senator_votes)).unwrap(), 10000);
}
