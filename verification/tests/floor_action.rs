use senate_simulator::model::error::SenateSimError;
use senate_simulator::analysis::floor_action::assess_floor_action;
use senate_simulator::model::analysis::{PivotSummary, SenateAnalysis, SenatorSignalSummary};
use senate_simulator::model::context::{Chamber, CongressionalSession, LegislativeContext, ProceduralStage};
use senate_simulator::model::events::FloorAction;
use senate_simulator::model::identity::Party;
use senate_simulator::model::legislative::{BudgetaryImpact, LegislativeObject, LegislativeObjectType, PolicyDomain};
use senate_simulator::model::stance::{ProceduralPosture, PublicPosition, StanceLabel};
use senate_simulator::util::calendar::CalendarDate;

fn example_object() -> LegislativeObject {
    LegislativeObject {
        object_id: "obj_001".to_string(),
        title: "Synthetic Bill".to_string(),
        object_type: LegislativeObjectType::Bill,
        policy_domain: PolicyDomain::EnergyClimate,
        summary: "Synthetic bill".to_string(),
        sponsor: None,
        cosponsors: vec![],
        origin_chamber: Chamber::Senate,
        introduced_date: CalendarDate::from_ymd(2026, 1, 1).unwrap(),
        current_version_label: None,
        budgetary_impact: BudgetaryImpact::Moderate,
        salience: 7000,
        controversy: 6000,
    }
}

fn context(stage: ProceduralStage) -> LegislativeContext {
    LegislativeContext {
        congress_number: 119,
        session: CongressionalSession::First,
        current_chamber: Chamber::Senate,
        procedural_stage: stage,
        majority_party: Party::Democrat,
        minority_party: Party::Republican,
        president_party: Party::Democrat,
        days_until_election: Some(100),
        days_until_deadline: Some(10),
        under_unanimous_consent: false,
        under_reconciliation: false,
        leadership_priority: 8000,
        media_attention: 7000,
    }
}

fn low_pressure_context(stage: ProceduralStage) -> LegislativeContext {
    LegislativeContext {
        congress_number: 119,
        session: CongressionalSession::First,
        current_chamber: Chamber::Senate,
        procedural_stage: stage,
        majority_party: Party::Democrat,
        minority_party: Party::Republican,
        president_party: Party::Democrat,
        days_until_election: Some(220),
        days_until_deadline: Some(75),
        under_unanimous_consent: false,
        under_reconciliation: false,
        leadership_priority: 2500,
        media_attention: 2000,
    }
}

fn analysis(
    simple_majority_viable: bool,
    cloture_viable: bool,
    coalition_stability: i64,
    filibuster_risk: i64,
    undecided_count: usize,
    blockers: usize,
    pivots: usize,
) -> SenateAnalysis {
    let likely_support_count = 35;
    let lean_support_count = 18;
    let lean_oppose_count = 12;
    let likely_oppose_count =
        100 - likely_support_count - lean_support_count - undecided_count - lean_oppose_count;

    SenateAnalysis {
        object_id: "obj_001".to_string(),
        procedural_stage: ProceduralStage::ClotureFiled,
        total_senators: 100,
        likely_support_count,
        lean_support_count,
        undecided_count,
        lean_oppose_count,
        likely_oppose_count,
        expected_present_count: 98,
        simple_majority_viable,
        cloture_viable,
        filibuster_risk,
        coalition_stability,
        pivotal_senators: (0..pivots)
            .map(|idx| PivotSummary {
                senator_id: format!("sen_{idx:03}"),
                stance_label: StanceLabel::Undecided,
                procedural_posture: ProceduralPosture::Unclear,
                substantive_support: 5500,
                procedural_support: 5200,
                negotiability: 6000,
                reason: "pivot".to_string(),
            })
            .collect(),
        likely_defectors: vec![],
        likely_blockers: (0..blockers)
            .map(|idx| SenatorSignalSummary {
                senator_id: format!("blk_{idx:03}"),
                public_position: PublicPosition::Oppose,
                defection_probability: 1000,
                rigidity: 9000,
                reason: "blocker".to_string(),
            })
            .collect(),
        top_findings: vec!["synthetic".to_string()],
    }
}

#[test]
fn predicts_stall_when_no_majority_and_low_stability() {
    let assessment = assess_floor_action(
        &example_object(),
        &low_pressure_context(ProceduralStage::Debate),
        &analysis(false, false, 2200, 4200, 4, 1, 2),
    )
    .unwrap();

    assert_eq!(assessment.predicted_action, FloorAction::LikelyStall);
}

#[test]
fn predicts_cloture_failure_when_majority_exists_but_cloture_does_not() {
    let assessment = assess_floor_action(
        &example_object(),
        &context(ProceduralStage::ClotureFiled),
        &analysis(true, false, 4200, 8200, 6, 5, 4),
    )
    .unwrap();

    assert_eq!(
        assessment.predicted_action,
        FloorAction::LikelyClotureFailure
    );
}

#[test]
fn predicts_final_passage_when_majority_and_cloture_are_strong() {
    let assessment = assess_floor_action(
        &example_object(),
        &context(ProceduralStage::FinalPassage),
        &analysis(true, true, 7600, 1800, 2, 0, 2),
    )
    .unwrap();

    assert_eq!(assessment.predicted_action, FloorAction::LikelyFinalPassage);
}

#[test]
fn floor_action_confidence_stays_in_unit_interval() {
    let assessment = assess_floor_action(
        &example_object(),
        &context(ProceduralStage::ClotureVote),
        &analysis(true, false, 4800, 6800, 5, 3, 5),
    )
    .unwrap();

    assert!((0..=10000).contains(&assessment.confidence));
}

#[test]
fn floor_action_refuses_an_analysis_of_another_object() {
    let mut other = analysis(true, true, 7000, 2000, 5, 0, 2);
    other.object_id = "obj_999".to_string();
    match assess_floor_action(&example_object(), &context(ProceduralStage::Debate), &other) {
        Err(SenateSimError::Validation { field, .. }) => assert_eq!(field, "floor_action_assessment.object_id"),
        _ => panic!("expected a validation error"),
    }
}
