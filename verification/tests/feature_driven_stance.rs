use senate_simulator::derive::feature_driven::derive_stance_feature_driven;
use senate_simulator::derive::stance::derive_stance_with_mode;
use senate_simulator::derive::StanceDerivationMode;
use senate_simulator::model::context::{Chamber, CongressionalSession, LegislativeContext, ProceduralStage};
use senate_simulator::model::identity::{Party, SenateClass};
use senate_simulator::model::legislative::{BudgetaryImpact, LegislativeObject, LegislativeObjectType, PolicyDomain};
use senate_simulator::model::senator::{DynamicState, Identity, IssuePreferences, Procedural, Senator, StructuralProfile};
use senate_simulator::model::stance::PublicPosition;
use senate_simulator::util::calendar::CalendarDate;

fn senator_for_feature_tests() -> Senator {
    Senator {
        identity: Identity {
            senator_id: "real_test_001".to_string(),
            full_name: "Feature Test Senator".to_string(),
            party: Party::Democrat,
            state: "WA".to_string(),
            class: SenateClass::I,
            start_date: CalendarDate::from_ymd(2021, 1, 3).unwrap(),
            end_date: None,
        },
        structural: StructuralProfile {
            ideology_score: 1500,
            party_loyalty_baseline: 7800,
            bipartisanship_baseline: 3200,
            committee_assignments: vec!["Energy".to_string()],
            reelection_year: Some(2028),
            electoral_vulnerability: 3000,
        },
        issue_preferences: IssuePreferences {
            defense: 1000,
            immigration: -2500,
            energy_climate: 7500,
            labor: 2000,
            healthcare: 3000,
            tax_spending: -1000,
            judiciary: -500,
            trade: 500,
            tech_privacy: 1200,
            foreign_policy: 800,
        },
        procedural: Procedural {
            cloture_support_baseline: 7400,
            motion_to_proceed_baseline: 7100,
            uc_objection_tendency: 1200,
            leadership_deference: 7900,
            amendment_openness: 6700,
            attendance_reliability: 9600,
        },
        dynamic_state: DynamicState {
            current_public_position: PublicPosition::Negotiating,
            current_substantive_support: 5800,
            current_procedural_support: 7200,
            current_negotiability: 6000,
            current_party_pressure: 7600,
            current_issue_salience_in_state: 5500,
        },
        feature_coverage_score: Some(9200),
        feature_notes: vec![],
    }
}

fn legislative_object(domain: PolicyDomain) -> LegislativeObject {
    LegislativeObject {
        object_id: "obj_feature_001".to_string(),
        title: "Feature-Driven Test Bill".to_string(),
        object_type: LegislativeObjectType::Bill,
        policy_domain: domain,
        summary: "Synthetic object for feature-driven stance tests.".to_string(),
        sponsor: Some("real_test_010".to_string()),
        cosponsors: vec!["real_test_011".to_string()],
        origin_chamber: Chamber::Senate,
        introduced_date: CalendarDate::from_ymd(2026, 3, 1).unwrap(),
        current_version_label: Some("Test Version".to_string()),
        budgetary_impact: BudgetaryImpact::Moderate,
        salience: 7200,
        controversy: 5400,
    }
}

fn context(stage: ProceduralStage) -> LegislativeContext {
    LegislativeContext {
        congress_number: 119,
        session: CongressionalSession::First,
        current_chamber: Chamber::Senate,
        procedural_stage: stage,
        majority_party: Party::Democrat,
        minority_party: Party::Republican,
        president_party: Party::Democrat,
        days_until_election: Some(90),
        days_until_deadline: Some(14),
        under_unanimous_consent: false,
        under_reconciliation: false,
        leadership_priority: 8400,
        media_attention: 6300,
    }
}

#[test]
fn domain_affinity_raises_substantive_support_for_aligned_senator() {
    let aligned = senator_for_feature_tests();
    let mut misaligned = senator_for_feature_tests();
    misaligned.issue_preferences.energy_climate = -7500;

    let aligned_stance = derive_stance_feature_driven(
        &aligned,
        &legislative_object(PolicyDomain::EnergyClimate),
        &context(ProceduralStage::Debate),
    )
    .unwrap();
    let misaligned_stance = derive_stance_feature_driven(
        &misaligned,
        &legislative_object(PolicyDomain::EnergyClimate),
        &context(ProceduralStage::Debate),
    )
    .unwrap();

    assert!(aligned_stance.substantive_support > misaligned_stance.substantive_support);
}

#[test]
fn procedural_compatibility_respects_cloture_history() {
    let mut strong = senator_for_feature_tests();
    strong.procedural.cloture_support_baseline = 9000;
    strong.dynamic_state.current_procedural_support = 8400;

    let mut weak = senator_for_feature_tests();
    weak.procedural.cloture_support_baseline = 2800;
    weak.dynamic_state.current_procedural_support = 3500;

    let strong_stance = derive_stance_feature_driven(
        &strong,
        &legislative_object(PolicyDomain::EnergyClimate),
        &context(ProceduralStage::ClotureVote),
    )
    .unwrap();
    let weak_stance = derive_stance_feature_driven(
        &weak,
        &legislative_object(PolicyDomain::EnergyClimate),
        &context(ProceduralStage::ClotureVote),
    )
    .unwrap();

    assert!(strong_stance.procedural_support > weak_stance.procedural_support);
}

#[test]
fn recent_drift_changes_procedural_support() {
    let mut senator = senator_for_feature_tests();
    let object = legislative_object(PolicyDomain::EnergyClimate);
    let stage = context(ProceduralStage::ClotureFiled);

    senator.dynamic_state.current_procedural_support = 8200;
    let supportive = derive_stance_feature_driven(&senator, &object, &stage).unwrap();

    senator.dynamic_state.current_procedural_support = 2800;
    let drifting_away = derive_stance_feature_driven(&senator, &object, &stage).unwrap();

    assert!(supportive.procedural_support > drifting_away.procedural_support);
}

#[test]
fn lower_attendance_history_increases_absence_probability() {
    let mut reliable = senator_for_feature_tests();
    reliable.procedural.attendance_reliability = 9800;

    let mut unreliable = senator_for_feature_tests();
    unreliable.procedural.attendance_reliability = 6200;

    let reliable_stance = derive_stance_feature_driven(
        &reliable,
        &legislative_object(PolicyDomain::BudgetTax),
        &context(ProceduralStage::MotionToProceed),
    )
    .unwrap();
    let unreliable_stance = derive_stance_feature_driven(
        &unreliable,
        &legislative_object(PolicyDomain::BudgetTax),
        &context(ProceduralStage::MotionToProceed),
    )
    .unwrap();

    assert!(unreliable_stance.absence_probability > reliable_stance.absence_probability);
}

#[test]
fn leadership_priority_and_loyalty_raise_procedural_alignment() {
    let mut aligned = senator_for_feature_tests();
    aligned.structural.party_loyalty_baseline = 9000;
    aligned.dynamic_state.current_party_pressure = 8800;
    aligned.procedural.leadership_deference = 9000;

    let mut independent = senator_for_feature_tests();
    independent.structural.party_loyalty_baseline = 4500;
    independent.structural.bipartisanship_baseline = 7000;
    independent.dynamic_state.current_party_pressure = 4200;
    independent.procedural.leadership_deference = 3500;

    let aligned_stance = derive_stance_feature_driven(
        &aligned,
        &legislative_object(PolicyDomain::Defense),
        &context(ProceduralStage::MotionToProceed),
    )
    .unwrap();
    let independent_stance = derive_stance_feature_driven(
        &independent,
        &legislative_object(PolicyDomain::Defense),
        &context(ProceduralStage::MotionToProceed),
    )
    .unwrap();

    assert!(aligned_stance.procedural_support > independent_stance.procedural_support);
    assert!(aligned_stance.public_support > independent_stance.public_support);
}

#[test]
fn sparse_coverage_shrinks_scores_toward_neutral() {
    let rich = senator_for_feature_tests();
    let mut sparse = senator_for_feature_tests();
    sparse.feature_coverage_score = Some(1800);
    sparse.feature_notes = vec!["limited vote history".to_string()];

    let rich_stance = derive_stance_feature_driven(
        &rich,
        &legislative_object(PolicyDomain::EnergyClimate),
        &context(ProceduralStage::Debate),
    )
    .unwrap();
    let sparse_stance = derive_stance_feature_driven(
        &sparse,
        &legislative_object(PolicyDomain::EnergyClimate),
        &context(ProceduralStage::Debate),
    )
    .unwrap();

    let rich_distance = (rich_stance.substantive_support - 5000).abs();
    let sparse_distance = (sparse_stance.substantive_support - 5000).abs();
    assert!(sparse_distance < rich_distance);
    assert!(sparse_stance
        .top_factors
        .iter()
        .any(|factor| factor.contains("sparse")));
}

#[test]
fn fallback_to_heuristic_is_explicit_when_feature_coverage_is_missing() {
    let mut senator = senator_for_feature_tests();
    senator.feature_coverage_score = Some(0);

    let stance = derive_stance_feature_driven(
        &senator,
        &legislative_object(PolicyDomain::Healthcare),
        &context(ProceduralStage::Debate),
    )
    .unwrap();

    let breakdown = stance.score_breakdown.as_ref().unwrap();
    assert!(breakdown
        .fallback_notes
        .iter()
        .any(|note| note.contains("legacy heuristic")));
}

#[test]
fn heuristic_and_feature_driven_modes_both_produce_valid_stances() {
    let senator = senator_for_feature_tests();
    let object = legislative_object(PolicyDomain::EnergyClimate);
    let ctx = context(ProceduralStage::Debate);

    let heuristic = derive_stance_with_mode(
        &senator,
        &object,
        &ctx,
        StanceDerivationMode::Heuristic,
    )
    .unwrap();
    let feature = derive_stance_with_mode(
        &senator,
        &object,
        &ctx,
        StanceDerivationMode::FeatureDriven,
    )
    .unwrap();

    assert!(heuristic.validate().is_ok());
    assert!(feature.validate().is_ok());
    assert!(feature.score_breakdown.is_some());
}
