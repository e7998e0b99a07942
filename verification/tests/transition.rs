use senate_simulator::model::error::SenateSimError;
use senate_simulator::analysis::transition::{candidate_events_for_stage, predict_next_event};
use senate_simulator::model::analysis::{PivotSummary, SenateAnalysis, SenatorSignalSummary};
use senate_simulator::model::context::{Chamber, CongressionalSession, LegislativeContext, ProceduralStage};
use senate_simulator::model::events::{EventScore, NextEventPrediction, SenateEvent};
use senate_simulator::model::identity::Party;
use senate_simulator::model::legislative::{BudgetaryImpact, LegislativeObject, LegislativeObjectType, PolicyDomain};
use senate_simulator::model::stance::{ProceduralPosture, PublicPosition, StanceLabel};
use senate_simulator::util::calendar::CalendarDate;

fn example_object() -> LegislativeObject {
    LegislativeObject {
        object_id: "obj_001".to_string(),
        title: "Synthetic Bill".to_string(),
        object_type: LegislativeObjectType::Bill,
        policy_domain: PolicyDomain::EnergyClimate,
        summary: "Synthetic bill".to_string(),
        sponsor: None,
        cosponsors: vec![],
        origin_chamber: Chamber::Senate,
        introduced_date: CalendarDate::from_ymd(2026, 1, 1).unwrap(),
        current_version_label: None,
        budgetary_impact: BudgetaryImpact::Moderate,
        salience: 7000,
        controversy: 6000,
    }
}

fn context(
    stage: ProceduralStage,
    leadership_priority: i64,
    media_attention: i64,
    days_until_deadline: i32,
) -> LegislativeContext {
    LegislativeContext {
        congress_number: 119,
        session: CongressionalSession::First,
        current_chamber: Chamber::Senate,
        procedural_stage: stage,
        majority_party: Party::Democrat,
        minority_party: Party::Republican,
        president_party: Party::Democrat,
        days_until_election: Some(120),
        days_until_deadline: Some(days_until_deadline),
        under_unanimous_consent: false,
        under_reconciliation: false,
        leadership_priority,
        media_attention,
    }
}

fn analysis(
    stage: ProceduralStage,
    simple_majority_viable: bool,
    cloture_viable: bool,
    coalition_stability: i64,
    filibuster_risk: i64,
    undecided_count: usize,
    blockers: usize,
    pivots: usize,
) -> SenateAnalysis {
    let likely_support_count = if simple_majority_viable { 34 } else { 22 };
    let lean_support_count = if simple_majority_viable { 20 } else { 16 };
    let lean_oppose_count = 12;
    let likely_oppose_count =
        100 - likely_support_count - lean_support_count - undecided_count - lean_oppose_count;

    SenateAnalysis {
        object_id: "obj_001".to_string(),
        procedural_stage: stage,
        total_senators: 100,
        likely_support_count,
        lean_support_count,
        undecided_count,
        lean_oppose_count,
        likely_oppose_count,
        expected_present_count: 98,
        simple_majority_viable,
        cloture_viable,
        filibuster_risk,
        coalition_stability,
        pivotal_senators: (0..pivots)
            .map(|idx| PivotSummary {
                senator_id: format!("sen_{idx:03}"),
                stance_label: StanceLabel::Undecided,
                procedural_posture: ProceduralPosture::Unclear,
                substantive_support: 5500,
                procedural_support: 5200,
                negotiability: 6200,
                reason: "pivot".to_string(),
            })
            .collect(),
        likely_defectors: vec![],
        likely_blockers: (0..blockers)
            .map(|idx| SenatorSignalSummary {
                senator_id: format!("blk_{idx:03}"),
                public_position: PublicPosition::Oppose,
                defection_probability: 800,
                rigidity: 9000,
                reason: "blocker".to_string(),
            })
            .collect(),
        top_findings: vec!["synthetic".to_string()],
    }
}

#[test]
fn stage_candidate_mapping_is_explicit() {
    let cloture = candidate_events_for_stage(&ProceduralStage::ClotureFiled);
    assert!(cloture.contains(&SenateEvent::ClotureVoteScheduled));
    assert!(cloture.contains(&SenateEvent::ClotureInvoked));
    assert!(cloture.contains(&SenateEvent::ClotureFails));

    let debate = candidate_events_for_stage(&ProceduralStage::Debate);
    assert!(debate.contains(&SenateEvent::ClotureFiled));
    assert!(debate.contains(&SenateEvent::AmendmentFightBegins));
    assert!(debate.contains(&SenateEvent::NegotiationIntensifies));
}

#[test]
fn low_pressure_weak_coalition_favors_no_movement() {
    let prediction = predict_next_event(
        &example_object(),
        &context(ProceduralStage::Introduced, 1800, 1200, 90),
        &analysis(
            ProceduralStage::Introduced,
            false,
            false,
            2400,
            4400,
            8,
            1,
            2,
        ),
    )
    .unwrap();

    assert_eq!(
        prediction.predicted_event,
        SenateEvent::NoMeaningfulMovement
    );
}

#[test]
fn high_risk_cloture_stage_favors_failure_or_block() {
    let prediction = predict_next_event(
        &example_object(),
        &context(ProceduralStage::ClotureFiled, 8200, 7200, 12),
        &analysis(
            ProceduralStage::ClotureFiled,
            true,
            false,
            3400,
            8600,
            7,
            6,
            4,
        ),
    )
    .unwrap();

    assert!(matches!(
        prediction.predicted_event,
        SenateEvent::ClotureFails | SenateEvent::ProceduralBlock
    ));
}

#[test]
fn viable_stable_cloture_stage_favors_vote_or_invocation() {
    let prediction = predict_next_event(
        &example_object(),
        &context(ProceduralStage::ClotureVote, 8400, 7000, 10),
        &analysis(
            ProceduralStage::ClotureVote,
            true,
            true,
            7400,
            1800,
            3,
            1,
            2,
        ),
    )
    .unwrap();

    assert!(matches!(
        prediction.predicted_event,
        SenateEvent::ClotureInvoked | SenateEvent::ClotureVoteScheduled
    ));
}

#[test]
fn near_threshold_case_favors_negotiation() {
    let prediction = predict_next_event(
        &example_object(),
        &context(ProceduralStage::Debate, 7600, 6800, 14),
        &analysis(ProceduralStage::Debate, false, false, 4200, 5800, 10, 2, 7),
    )
    .unwrap();

    let negotiation_scores_highly = prediction.predicted_event
        == SenateEvent::NegotiationIntensifies
        || prediction.alternative_events.iter().any(|event| {
            event.event == SenateEvent::NegotiationIntensifies && event.score >= 6000
        });

    assert!(negotiation_scores_highly);
}

#[test]
fn final_passage_stage_can_predict_success() {
    let prediction = predict_next_event(
        &example_object(),
        &context(ProceduralStage::FinalPassage, 8200, 6600, 8),
        &analysis(
            ProceduralStage::FinalPassage,
            true,
            true,
            7600,
            1600,
            2,
            0,
            2,
        ),
    )
    .unwrap();

    assert_eq!(
        prediction.predicted_event,
        SenateEvent::FinalPassageSucceeds
    );
}

#[test]
fn transition_confidence_stays_in_unit_interval() {
    let prediction = predict_next_event(
        &example_object(),
        &context(ProceduralStage::ClotureFiled, 8200, 6600, 12),
        &analysis(
            ProceduralStage::ClotureFiled,
            true,
            false,
            4200,
            7200,
            6,
            4,
            5,
        ),
    )
    .unwrap();

    assert!((0..=10000).contains(&prediction.confidence));
}

#[test]
fn alternatives_are_sorted_descending() {
    let prediction = predict_next_event(
        &example_object(),
        &context(ProceduralStage::Debate, 7400, 6200, 18),
        &analysis(ProceduralStage::Debate, false, false, 4600, 5200, 9, 2, 6),
    )
    .unwrap();

    assert!(
        prediction
            .alternative_events
            .windows(2)
            .all(|pair| pair[0].score >= pair[1].score)
    );
}

#[test]
fn prediction_validation_accepts_sorted_alternatives() {
    let prediction = NextEventPrediction {
        object_id: "obj_001".to_string(),
        current_stage: ProceduralStage::Debate,
        predicted_event: SenateEvent::NegotiationIntensifies,
        confidence: 6100,
        alternative_events: vec![
            EventScore {
                event: SenateEvent::ClotureFiled,
                score: 5300,
                reason: "alt".to_string(),
            },
            EventScore {
                event: SenateEvent::ProceduralBlock,
                score: 4000,
                reason: "alt".to_string(),
            },
        ],
        top_reasons: vec!["reason".to_string()],
        simple_majority_viable: false,
        cloture_viable: false,
        coalition_stability: 4400,
        filibuster_risk: 5500,
    };

    assert!(prediction.validate().is_ok());
}

#[test]
fn prediction_refuses_an_analysis_of_another_object() {
    let mut other = analysis(ProceduralStage::Debate, true, true, 7000, 2000, 5, 0, 2);
    other.object_id = "obj_999".to_string();
    match predict_next_event(&example_object(), &context(ProceduralStage::Debate, 5000, 5000, 30), &other) {
        Err(SenateSimError::Validation { field, .. }) => assert_eq!(field, "next_event_prediction.object_id"),
        _ => panic!("expected a validation error"),
    }
}
