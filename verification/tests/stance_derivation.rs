use senate_simulator::derive::stance::{
    derive_procedural_posture, derive_public_position, derive_stance, normalize_signed_score, stage_debug_text,
};
use senate_simulator::model::context::{Chamber, CongressionalSession, LegislativeContext, ProceduralStage};
use senate_simulator::model::identity::{Party, SenateClass};
use senate_simulator::model::legislative::{BudgetaryImpact, LegislativeObject, LegislativeObjectType, PolicyDomain};
use senate_simulator::model::senator::{DynamicState, Identity, IssuePreferences, Procedural, Senator, StructuralProfile};
use senate_simulator::model::stance::{ProceduralPosture, PublicPosition};
use senate_simulator::util::calendar::CalendarDate;

fn senator_with_energy_score(energy_score: i64) -> Senator {
    Senator {
        identity: Identity {
            senator_id: "sen_001".to_string(),
            full_name: "Example Senator".to_string(),
            party: Party::Democrat,
            state: "OR".to_string(),
            class: SenateClass::II,
            start_date: CalendarDate::from_ymd(2023, 1, 3).unwrap(),
            end_date: Some(CalendarDate::from_ymd(2029, 1, 3).unwrap()),
        },
        structural: StructuralProfile {
            ideology_score: 2000,
            party_loyalty_baseline: 7400,
            bipartisanship_baseline: 4800,
            committee_assignments: vec!["Energy".to_string()],
            reelection_year: Some(2028),
            electoral_vulnerability: 3300,
        },
        issue_preferences: IssuePreferences {
            defense: 1000,
            immigration: -2000,
            energy_climate: energy_score,
            labor: 3000,
            healthcare: 2000,
            tax_spending: -1000,
            judiciary: 0,
            trade: 0,
            tech_privacy: 2000,
            foreign_policy: 1000,
        },
        procedural: Procedural {
            cloture_support_baseline: 7200,
            motion_to_proceed_baseline: 7800,
            uc_objection_tendency: 1400,
            leadership_deference: 8200,
            amendment_openness: 7400,
            attendance_reliability: 9700,
        },
        dynamic_state: DynamicState {
            current_public_position: PublicPosition::Negotiating,
            current_substantive_support: 5500,
            current_procedural_support: 6800,
            current_negotiability: 7200,
            current_party_pressure: 6100,
            current_issue_salience_in_state: 5800,
        },
        feature_coverage_score: None,
        feature_notes: vec![],
    }
}

fn example_object() -> LegislativeObject {
    LegislativeObject {
        object_id: "obj_001".to_string(),
        title: "Clean Grid Permitting Reform Act".to_string(),
        object_type: LegislativeObjectType::Bill,
        policy_domain: PolicyDomain::EnergyClimate,
        summary: "Fictional permitting reform for transmission and generation.".to_string(),
        sponsor: Some("sen_014".to_string()),
        cosponsors: vec!["sen_021".to_string()],
        origin_chamber: Chamber::Senate,
        introduced_date: CalendarDate::from_ymd(2026, 2, 11).unwrap(),
        current_version_label: Some("Reported Substitute".to_string()),
        budgetary_impact: BudgetaryImpact::Moderate,
        salience: 7800,
        controversy: 6300,
    }
}

fn example_context() -> LegislativeContext {
    LegislativeContext {
        congress_number: 119,
        session: CongressionalSession::First,
        current_chamber: Chamber::Senate,
        procedural_stage: ProceduralStage::ClotureFiled,
        majority_party: Party::Democrat,
        minority_party: Party::Republican,
        president_party: Party::Democrat,
        days_until_election: Some(120),
        days_until_deadline: Some(18),
        under_unanimous_consent: false,
        under_reconciliation: false,
        leadership_priority: 8200,
        media_attention: 6700,
    }
}

#[test]
fn normalization_maps_signed_range_to_unit_interval() {
    assert_eq!(normalize_signed_score(-10000), 0);
    assert_eq!(normalize_signed_score(0), 5000);
    assert_eq!(normalize_signed_score(10000), 10000);
}

#[test]
fn stronger_domain_alignment_produces_higher_substantive_support() {
    let context = example_context();
    let legislative_object = example_object();
    let supportive = derive_stance(
        &senator_with_energy_score(9000),
        &legislative_object,
        &context,
    )
    .unwrap();
    let oppositional = derive_stance(
        &senator_with_energy_score(-9000),
        &legislative_object,
        &context,
    )
    .unwrap();

    assert!(supportive.substantive_support > oppositional.substantive_support);
}

#[test]
fn procedural_support_can_exceed_weak_substantive_support() {
    let mut senator = senator_with_energy_score(-7000);
    senator.procedural.cloture_support_baseline = 9200;
    senator.procedural.motion_to_proceed_baseline = 9100;
    senator.procedural.leadership_deference = 9300;
    senator.dynamic_state.current_party_pressure = 8000;

    let stance = derive_stance(&senator, &example_object(), &example_context()).unwrap();

    assert!(stance.substantive_support < 5000);
    assert!(stance.procedural_support >= 6000);
    assert!(matches!(
        derive_procedural_posture(stance.procedural_support, &ProceduralStage::ClotureFiled),
        ProceduralPosture::SupportCloture
    ));
}

#[test]
fn public_position_thresholds_map_to_support_and_oppose() {
    assert!(matches!(
        derive_public_position(8200),
        PublicPosition::Support
    ));
    assert!(matches!(
        derive_public_position(1000),
        PublicPosition::Oppose
    ));
}

#[test]
fn derived_stance_validates_on_example_inputs() {
    let stance = derive_stance(
        &senator_with_energy_score(7000),
        &example_object(),
        &example_context(),
    )
    .unwrap();

    assert!(stance.validate().is_ok());
    assert!(!stance.top_factors.is_empty());
}

#[test]
fn stage_labels_are_written_as_debug_writes_them() {
    assert_eq!(stage_debug_text(&ProceduralStage::ClotureVote), format!("{:?}", ProceduralStage::ClotureVote));
    let label = "say \"hi\"\\now\n".to_string();
    assert_eq!(stage_debug_text(&ProceduralStage::Other(label.clone())), "Other(\"say \\\"hi\\\"\\\\now\\n\")");
    assert_eq!(stage_debug_text(&ProceduralStage::Other(label.clone())), format!("{:?}", ProceduralStage::Other(label)));
}
