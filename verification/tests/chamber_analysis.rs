use senate_simulator::model::error::SenateSimError;
use senate_simulator::analysis::chamber::analyze_chamber;
use senate_simulator::model::analysis::SenateAnalysis;
use senate_simulator::model::context::{Chamber, CongressionalSession, LegislativeContext, ProceduralStage};
use senate_simulator::model::identity::Party;
use senate_simulator::model::legislative::{BudgetaryImpact, LegislativeObject, LegislativeObjectType, PolicyDomain};
use senate_simulator::model::stance::{ProceduralPosture, PublicPosition, SenatorStance, StanceLabel};
use senate_simulator::util::calendar::CalendarDate;

fn example_object() -> LegislativeObject {
    LegislativeObject {
        object_id: "obj_001".to_string(),
        title: "Synthetic Test Bill".to_string(),
        object_type: LegislativeObjectType::Bill,
        policy_domain: PolicyDomain::EnergyClimate,
        summary: "Synthetic bill for chamber analysis tests.".to_string(),
        sponsor: None,
        cosponsors: vec![],
        origin_chamber: Chamber::Senate,
        introduced_date: CalendarDate::from_ymd(2026, 1, 1).unwrap(),
        current_version_label: None,
        budgetary_impact: BudgetaryImpact::Moderate,
        salience: 7000,
        controversy: 6000,
    }
}

fn example_context(stage: ProceduralStage) -> LegislativeContext {
    LegislativeContext {
        congress_number: 119,
        session: CongressionalSession::First,
        current_chamber: Chamber::Senate,
        procedural_stage: stage,
        majority_party: Party::Democrat,
        minority_party: Party::Republican,
        president_party: Party::Democrat,
        days_until_election: Some(100),
        days_until_deadline: Some(15),
        under_unanimous_consent: false,
        under_reconciliation: false,
        leadership_priority: 8000,
        media_attention: 7000,
    }
}

fn stance(
    senator_id: &str,
    stance_label: StanceLabel,
    procedural_posture: ProceduralPosture,
    substantive_support: i64,
    procedural_support: i64,
    negotiability: i64,
    rigidity: i64,
    defection_probability: i64,
    absence_probability: i64,
) -> SenatorStance {
    SenatorStance {
        senator_id: senator_id.to_string(),
        object_id: "obj_001".to_string(),
        context_id: Some("ctx_test".to_string()),
        substantive_support,
        procedural_support,
        public_support: substantive_support,
        negotiability,
        rigidity,
        defection_probability,
        absence_probability,
        stance_label,
        procedural_posture,
        public_position: if substantive_support >= 6500 {
            PublicPosition::Support
        } else if substantive_support <= 2500 {
            PublicPosition::Oppose
        } else {
            PublicPosition::Negotiating
        },
        top_factors: vec!["synthetic".to_string()],
        score_breakdown: None,
    }
}

fn analyze(stances: &[SenatorStance], stage: ProceduralStage) -> SenateAnalysis {
    analyze_chamber(&example_object(), &example_context(stage), stances).ok().unwrap()
}

#[test]
fn buckets_counts_by_stance_label() {
    let stances = vec![
        stance(
            "s1",
            StanceLabel::Support,
            ProceduralPosture::SupportCloture,
            8500,
            9000,
            2000,
            8000,
            1000,
            0,
        ),
        stance(
            "s2",
            StanceLabel::LeanSupport,
            ProceduralPosture::SupportCloture,
            6500,
            8500,
            4000,
            6000,
            2000,
            0,
        ),
        stance(
            "s3",
            StanceLabel::Undecided,
            ProceduralPosture::Unclear,
            5000,
            5000,
            6000,
            4000,
            3000,
            1000,
        ),
        stance(
            "s4",
            StanceLabel::LeanOppose,
            ProceduralPosture::OpposeCloture,
            3000,
            2000,
            3000,
            7000,
            2000,
            0,
        ),
        stance(
            "s5",
            StanceLabel::Oppose,
            ProceduralPosture::BlockByProcedure,
            1000,
            1000,
            2000,
            9000,
            1000,
            0,
        ),
    ];

    let analysis = analyze(&stances, ProceduralStage::ClotureFiled);

    assert_eq!(analysis.likely_support_count, 1);
    assert_eq!(analysis.lean_support_count, 1);
    assert_eq!(analysis.undecided_count, 1);
    assert_eq!(analysis.lean_oppose_count, 1);
    assert_eq!(analysis.likely_oppose_count, 1);
}

#[test]
fn majority_viability_is_true_when_support_clears_threshold() {
    let stances = vec![
        stance(
            "s1",
            StanceLabel::Support,
            ProceduralPosture::SupportCloture,
            8800,
            8800,
            2000,
            8000,
            1000,
            0,
        ),
        stance(
            "s2",
            StanceLabel::Support,
            ProceduralPosture::SupportCloture,
            8200,
            8400,
            2000,
            8000,
            1000,
            0,
        ),
        stance(
            "s3",
            StanceLabel::LeanSupport,
            ProceduralPosture::SupportDebate,
            6800,
            7000,
            3000,
            6000,
            2000,
            0,
        ),
        stance(
            "s4",
            StanceLabel::LeanSupport,
            ProceduralPosture::SupportDebate,
            6200,
            6800,
            3000,
            6000,
            2000,
            0,
        ),
        stance(
            "s5",
            StanceLabel::Oppose,
            ProceduralPosture::BlockByProcedure,
            1200,
            1000,
            2000,
            9000,
            1000,
            0,
        ),
        stance(
            "s6",
            StanceLabel::Oppose,
            ProceduralPosture::BlockByProcedure,
            1000,
            1000,
            2000,
            9000,
            1000,
            0,
        ),
    ];

    let analysis = analyze(&stances, ProceduralStage::Debate);
    assert!(analysis.simple_majority_viable);
}

#[test]
fn majority_can_be_viable_while_cloture_is_not() {
    let mut stances = Vec::new();
    for idx in 0..35 {
        stances.push(stance(
            &format!("s{idx}"),
            StanceLabel::Support,
            ProceduralPosture::Unclear,
            8200,
            4200,
            3000,
            7000,
            1000,
            0,
        ));
    }
    for idx in 35..55 {
        stances.push(stance(
            &format!("s{idx}"),
            StanceLabel::LeanSupport,
            ProceduralPosture::Unclear,
            6600,
            3800,
            4000,
            5000,
            2000,
            0,
        ));
    }
    for idx in 55..70 {
        stances.push(stance(
            &format!("s{idx}"),
            StanceLabel::Oppose,
            ProceduralPosture::OpposeCloture,
            1200,
            800,
            2000,
            9000,
            1000,
            0,
        ));
    }

    let analysis = analyze(&stances, ProceduralStage::ClotureFiled);
    assert!(analysis.simple_majority_viable);
    assert!(!analysis.cloture_viable);
}

#[test]
fn robust_coalition_scores_higher_stability_than_fragile_one() {
    let robust = vec![
        stance(
            "r1",
            StanceLabel::Support,
            ProceduralPosture::SupportCloture,
            9000,
            9200,
            1000,
            8500,
            500,
            100,
        ),
        stance(
            "r2",
            StanceLabel::Support,
            ProceduralPosture::SupportCloture,
            8800,
            9000,
            1000,
            8400,
            500,
            100,
        ),
        stance(
            "r3",
            StanceLabel::Support,
            ProceduralPosture::SupportDebate,
            8600,
            8500,
            1500,
            8000,
            600,
            100,
        ),
        stance(
            "r4",
            StanceLabel::LeanSupport,
            ProceduralPosture::SupportDebate,
            7000,
            7400,
            2000,
            7200,
            1000,
            100,
        ),
        stance(
            "r5",
            StanceLabel::Oppose,
            ProceduralPosture::BlockByProcedure,
            800,
            1000,
            1000,
            9000,
            500,
            100,
        ),
        stance(
            "r6",
            StanceLabel::Oppose,
            ProceduralPosture::BlockByProcedure,
            500,
            800,
            1000,
            9200,
            500,
            100,
        ),
    ];
    let fragile = vec![
        stance(
            "f1",
            StanceLabel::LeanSupport,
            ProceduralPosture::Unclear,
            6200,
            5800,
            6500,
            4000,
            3500,
            600,
        ),
        stance(
            "f2",
            StanceLabel::LeanSupport,
            ProceduralPosture::Unclear,
            6100,
            5500,
            6200,
            4200,
            3600,
            600,
        ),
        stance(
            "f3",
            StanceLabel::Undecided,
            ProceduralPosture::Unclear,
            5200,
            5400,
            7000,
            3500,
            3200,
            600,
        ),
        stance(
            "f4",
            StanceLabel::Support,
            ProceduralPosture::SupportDebate,
            8000,
            7000,
            5500,
            5000,
            2800,
            500,
        ),
        stance(
            "f5",
            StanceLabel::Oppose,
            ProceduralPosture::OpposeCloture,
            1200,
            1500,
            2000,
            8500,
            800,
            300,
        ),
        stance(
            "f6",
            StanceLabel::Oppose,
            ProceduralPosture::BlockByProcedure,
            1000,
            1000,
            2000,
            9000,
            800,
            300,
        ),
    ];

    let robust_analysis = analyze(&robust, ProceduralStage::Debate);
    let fragile_analysis = analyze(&fragile, ProceduralStage::Debate);

    assert!(robust_analysis.coalition_stability > fragile_analysis.coalition_stability);
}

#[test]
fn rigid_low_procedural_senator_is_flagged_as_blocker() {
    let stances = vec![
        stance(
            "blocker",
            StanceLabel::Oppose,
            ProceduralPosture::BlockByProcedure,
            800,
            500,
            1000,
            9500,
            800,
            0,
        ),
        stance(
            "supporter",
            StanceLabel::Support,
            ProceduralPosture::SupportCloture,
            9000,
            9000,
            1500,
            8000,
            500,
            0,
        ),
        stance(
            "supporter2",
            StanceLabel::Support,
            ProceduralPosture::SupportCloture,
            8800,
            8800,
            1500,
            8200,
            500,
            0,
        ),
    ];

    let analysis = analyze(&stances, ProceduralStage::ClotureVote);
    assert!(
        analysis
            .likely_blockers
            .iter()
            .any(|summary| summary.senator_id == "blocker")
    );
}

#[test]
fn majority_weights_are_summed_exactly() {
    // 1 + (0.5 * 1.0 + 0.5 * 0.9375) + (0.5 * 0.0625 + 0.5 * 0.0) = 2.0, the
    // threshold for three present senators.
    let chamber = |third_negotiability: i64| {
        vec![
            stance("s1", StanceLabel::Support, ProceduralPosture::SupportCloture, 8500, 9000, 2000, 8000, 1000, 0),
            stance("s2", StanceLabel::Undecided, ProceduralPosture::Unclear, 5000, 9375, 10000, 3000, 2000, 0),
            stance("s3", StanceLabel::Undecided, ProceduralPosture::Unclear, 5000, 0, third_negotiability, 3000, 2000, 0),
        ]
    };
    let analysis = analyze(&chamber(625), ProceduralStage::Debate);
    assert_eq!(analysis.expected_present_count, 3);
    assert!(analysis.simple_majority_viable);
    // One ten-thousandth less negotiability falls just short.
    assert!(!analyze(&chamber(624), ProceduralStage::Debate).simple_majority_viable);
}

#[test]
fn chamber_analysis_names_the_field_it_refuses() {
    let field_of = |r: Result<SenateAnalysis, SenateSimError>| match r {
        Err(SenateSimError::Validation { field, .. }) => field,
        _ => String::new(),
    };
    let object = example_object();
    let context = example_context(ProceduralStage::Debate);
    assert_eq!(field_of(analyze_chamber(&object, &context, &[])), "stances");
    let mut other = stance("s1", StanceLabel::Support, ProceduralPosture::SupportCloture, 8500, 9000, 2000, 8000, 1000, 0);
    other.object_id = "obj_999".to_string();
    assert_eq!(field_of(analyze_chamber(&object, &context, &[other])), "stances.object_id");
}
