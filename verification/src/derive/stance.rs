//! Heuristic stance derivation: a senator's stance toward one legislative
//! object from the senator's profile, the object and its procedural context.

use vstd::prelude::*;
use crate::util::score::floor_div;
use crate::derive::StanceDerivationMode;
use crate::derive::feature_driven::{
    coverage_of, derive_stance_feature_driven, fallback_stance_matches, feature_stance_matches,
    MIN_FEATURE_COVERAGE,
};
use crate::model::context::{CongressionalSession, LegislativeContext, ProceduralStage};
use crate::model::error::SenateSimError;
use crate::model::identity::Party;
use crate::model::legislative::{BudgetaryImpact, LegislativeObject, PolicyDomain};
use crate::model::senator::Senator;
use crate::model::stance::{ProceduralPosture, PublicPosition, SenatorStance, StanceLabel};
use crate::util::score::{
    abs_spec, clamp_cube, clamp_cube_spec, clamp_unit, clamp_unit_spec, clamp_wide,
    clamp_wide_spec, prod3, signed_unit, unit,
};
use crate::util::text::{decimal_digits, decimal_text, string_views};

verus! {

/// A signed score (-1 to 1) mapped onto the unit interval.
pub open spec fn normalize_signed_spec(x: int) -> int {
    clamp_unit_spec((x + 10000) / 2)
}

pub fn normalize_signed_score(x: i64) -> (r: i64)
    ensures
        r == normalize_signed_spec(x as int),
        unit(r as int),
{
    if x <= -10000 {
        0
    } else if x >= 10000 {
        10000
    } else {
        (x + 10000) / 2
    }
}

/// Half of a signed score sum, rounded down.
pub open spec fn half_floor(x: int) -> int {
    (x + 20000) / 2 - 10000
}

/// The senator's signed preference on a policy domain.
pub open spec fn domain_preference(sen: Senator, domain: PolicyDomain) -> int {
    let p = sen.issue_preferences;
    match domain {
        PolicyDomain::Defense => p.defense as int,
        PolicyDomain::BudgetTax => p.tax_spending as int,
        PolicyDomain::Healthcare => p.healthcare as int,
        PolicyDomain::Immigration => p.immigration as int,
        PolicyDomain::EnergyClimate => p.energy_climate as int,
        PolicyDomain::Judiciary => p.judiciary as int,
        PolicyDomain::Technology => p.tech_privacy as int,
        PolicyDomain::ForeignPolicy => p.foreign_policy as int,
        PolicyDomain::Labor => p.labor as int,
        PolicyDomain::Education => half_floor(p.healthcare + p.labor),
        PolicyDomain::Other(_) => half_floor(sen.structural.ideology_score as int),
    }
}

/// The senator's issue alignment with a domain, on the unit interval.
pub open spec fn base_issue_alignment_spec(sen: Senator, domain: PolicyDomain) -> int {
    normalize_signed_spec(domain_preference(sen, domain))
}

pub fn domain_preference_exec(sen: &Senator, domain: &PolicyDomain) -> (r: i64)
    requires
        sen.wf(),
    ensures
        r == domain_preference(*sen, *domain),
        signed_unit(r as int),
{
    let p = &sen.issue_preferences;
    match domain {
        PolicyDomain::Defense => p.defense,
        PolicyDomain::BudgetTax => p.tax_spending,
        PolicyDomain::Healthcare => p.healthcare,
        PolicyDomain::Immigration => p.immigration,
        PolicyDomain::EnergyClimate => p.energy_climate,
        PolicyDomain::Judiciary => p.judiciary,
        PolicyDomain::Technology => p.tech_privacy,
        PolicyDomain::ForeignPolicy => p.foreign_policy,
        PolicyDomain::Labor => p.labor,
        PolicyDomain::Education => (p.healthcare + p.labor + 20000) / 2 - 10000,
        PolicyDomain::Other(_) => (sen.structural.ideology_score + 20000) / 2 - 10000,
    }
}

pub fn base_issue_alignment(senator: &Senator, domain: &PolicyDomain) -> (r: i64)
    ensures
        r == base_issue_alignment_spec(*senator, *domain),
        unit(r as int),
{
    let p = &senator.issue_preferences;
    let pref: i128 = match domain {
        PolicyDomain::Defense => p.defense as i128,
        PolicyDomain::BudgetTax => p.tax_spending as i128,
        PolicyDomain::Healthcare => p.healthcare as i128,
        PolicyDomain::Immigration => p.immigration as i128,
        PolicyDomain::EnergyClimate => p.energy_climate as i128,
        PolicyDomain::Judiciary => p.judiciary as i128,
        PolicyDomain::Technology => p.tech_privacy as i128,
        PolicyDomain::ForeignPolicy => p.foreign_policy as i128,
        PolicyDomain::Labor => p.labor as i128,
        PolicyDomain::Education => floor_div(p.healthcare as i128 + p.labor as i128 + 20000, 2) - 10000,
        PolicyDomain::Other(_) => floor_div(senator.structural.ideology_score as i128 + 20000, 2) - 10000,
    };
    if pref <= -10000 {
        0
    } else if pref >= 10000 {
        10000
    } else {
        ((pref + 10000) / 2) as i64
    }
}

pub open spec fn substantive_spec(sen: Senator, obj: LegislativeObject) -> int {
    let base = base_issue_alignment_spec(sen, obj.policy_domain);
    let ideology_anchor = normalize_signed_spec(sen.structural.ideology_score as int);
    let budget = if obj.budgetary_impact == BudgetaryImpact::High {
        (10000 - normalize_signed_spec(sen.issue_preferences.tax_spending as int)) * 1600 * 10000
    } else {
        0
    };
    clamp_cube_spec(
        base * 5500 * 10000 + sen.dynamic_state.current_substantive_support * 2500 * 10000
            + ideology_anchor * 1000 * 10000 + (base - 5000) * (obj.salience - 5000) * 2000
            - obj.controversy * (10000 - sen.structural.bipartisanship_baseline) * 1800 - budget,
    )
}

fn derive_substantive_support(sen: &Senator, obj: &LegislativeObject) -> (r: i64)
    requires
        sen.wf(),
        obj.wf(),
    ensures
        r == substantive_spec(*sen, *obj),
        unit(r as int),
{
    let base = base_issue_alignment(sen, &obj.policy_domain);
    let ideology_anchor = normalize_signed_score(sen.structural.ideology_score);
    let budget: i128 = if matches!(obj.budgetary_impact, BudgetaryImpact::High) {
        ((10000 - normalize_signed_score(sen.issue_preferences.tax_spending)) as i128) * 1600 * 10000
    } else {
        0
    };
    clamp_cube(
        (base as i128) * 5500 * 10000 + (sen.dynamic_state.current_substantive_support as i128)
            * 2500 * 10000 + (ideology_anchor as i128) * 1000 * 10000 + prod3(
            base - 5000,
            obj.salience - 5000,
            2000,
        ) - prod3(obj.controversy, 10000 - sen.structural.bipartisanship_baseline, 1800) - budget,
    )
}

pub open spec fn stage_baseline(sen: Senator, stage: ProceduralStage, substantive: int) -> int {
    match stage {
        ProceduralStage::MotionToProceed => sen.procedural.motion_to_proceed_baseline as int,
        ProceduralStage::ClotureFiled | ProceduralStage::ClotureVote => sen.procedural.cloture_support_baseline as int,
        ProceduralStage::Debate | ProceduralStage::AmendmentPending => sen.procedural.amendment_openness as int,
        ProceduralStage::FinalPassage => substantive,
        _ => sen.procedural.motion_to_proceed_baseline as int,
    }
}

pub open spec fn stage_weight(stage: ProceduralStage) -> int {
    match stage {
        ProceduralStage::ClotureFiled | ProceduralStage::ClotureVote => 2400,
        ProceduralStage::MotionToProceed => 1800,
        ProceduralStage::Debate | ProceduralStage::AmendmentPending => 1400,
        ProceduralStage::FinalPassage => 1000,
        _ => 800,
    }
}

pub open spec fn procedural_spec(sen: Senator, obj: LegislativeObject, ctx: LegislativeContext, substantive: int) -> int {
    let sb = stage_baseline(sen, ctx.procedural_stage, substantive);
    clamp_cube_spec(
        sb * 4200 * 10000 + sb * stage_weight(ctx.procedural_stage) * 10000
            + sen.dynamic_state.current_procedural_support * 1800 * 10000 + ctx.leadership_priority
            * sen.procedural.leadership_deference * 2200 + sen.dynamic_state.current_party_pressure
            * 1200 * 10000 + (substantive - 5000) * 1800 * 10000 - obj.controversy
            * sen.procedural.uc_objection_tendency * 1000,
    )
}

fn derive_procedural_support(sen: &Senator, obj: &LegislativeObject, ctx: &LegislativeContext, substantive: i64) -> (r: i64)
    requires
        sen.wf(),
        obj.wf(),
        ctx.wf(),
        unit(substantive as int),
    ensures
        r == procedural_spec(*sen, *obj, *ctx, substantive as int),
        unit(r as int),
{
    let p = &sen.procedural;
    let sb: i64 = match ctx.procedural_stage {
        ProceduralStage::MotionToProceed => p.motion_to_proceed_baseline,
        ProceduralStage::ClotureFiled | ProceduralStage::ClotureVote => p.cloture_support_baseline,
        ProceduralStage::Debate | ProceduralStage::AmendmentPending => p.amendment_openness,
        ProceduralStage::FinalPassage => substantive,
        _ => p.motion_to_proceed_baseline,
    };
    let w: i64 = match ctx.procedural_stage {
        ProceduralStage::ClotureFiled | ProceduralStage::ClotureVote => 2400,
        ProceduralStage::MotionToProceed => 1800,
        ProceduralStage::Debate | ProceduralStage::AmendmentPending => 1400,
        ProceduralStage::FinalPassage => 1000,
        _ => 800,
    };
    clamp_cube(
        (sb as i128) * 4200 * 10000 + prod3(sb, w, 10000) + (
        sen.dynamic_state.current_procedural_support as i128) * 1800 * 10000 + prod3(
            ctx.leadership_priority,
            p.leadership_deference,
            2200,
        ) + (sen.dynamic_state.current_party_pressure as i128) * 1200 * 10000 + ((substantive
            - 5000) as i128) * 1800 * 10000 - prod3(obj.controversy, p.uc_objection_tendency, 1000),
    )
}

pub open spec fn position_bias(p: PublicPosition) -> int {
    match p {
        PublicPosition::Support => 2000,
        PublicPosition::Oppose => -2000,
        PublicPosition::Undeclared => 0,
        PublicPosition::Negotiating => 400,
        PublicPosition::Mixed => -200,
    }
}

pub open spec fn public_spec(sen: Senator, obj: LegislativeObject, ctx: LegislativeContext, substantive: int, negotiability: int) -> int {
    let up = substantive >= 5000;
    let intensity = obj.salience * 800 + obj.controversy * 600;
    let pp = sen.dynamic_state.current_party_pressure as int;
    let media = ctx.media_attention as int;
    clamp_wide_spec(
        substantive * 5800 + sen.dynamic_state.current_substantive_support * 1200 + position_bias(
            sen.dynamic_state.current_public_position,
        ) * 10000 + (if up {
            intensity
        } else {
            -intensity
        }) + (if up {
            pp * 500
        } else {
            -pp * 1000
        }) + (if up {
            (10000 - negotiability) * 320
        } else {
            -(10000 - negotiability) * 800
        }) + (if up {
            media * 250
        } else {
            -media * 250
        }),
    )
}

fn derive_public_support(sen: &Senator, obj: &LegislativeObject, ctx: &LegislativeContext, substantive: i64, negotiability: i64) -> (r: i64)
    requires
        sen.wf(),
        obj.wf(),
        ctx.wf(),
        unit(substantive as int),
        unit(negotiability as int),
    ensures
        r == public_spec(*sen, *obj, *ctx, substantive as int, negotiability as int),
        unit(r as int),
{
    let bias: i64 = match sen.dynamic_state.current_public_position {
        PublicPosition::Support => 2000,
        PublicPosition::Oppose => -2000,
        PublicPosition::Undeclared => 0,
        PublicPosition::Negotiating => 400,
        PublicPosition::Mixed => -200,
    };
    let up = substantive >= 5000;
    let intensity = obj.salience * 800 + obj.controversy * 600;
    let pp = sen.dynamic_state.current_party_pressure;
    let media = ctx.media_attention;
    clamp_wide(
        substantive * 5800 + sen.dynamic_state.current_substantive_support * 1200 + bias * 10000
            + (if up {
            intensity
        } else {
            -intensity
        }) + (if up {
            pp * 500
        } else {
            -pp * 1000
        }) + (if up {
            (10000 - negotiability) * 320
        } else {
            -(10000 - negotiability) * 800
        }) + (if up {
            media * 250
        } else {
            -media * 250
        }),
    )
}

pub open spec fn negotiability_penalty(p: PublicPosition) -> int {
    match p {
        PublicPosition::Support | PublicPosition::Oppose => 1800,
        PublicPosition::Negotiating => 400,
        PublicPosition::Mixed => 800,
        PublicPosition::Undeclared => 200,
    }
}

pub open spec fn negotiability_spec(sen: Senator, obj: LegislativeObject, ctx: LegislativeContext, substantive: int) -> int {
    clamp_wide_spec(
        sen.dynamic_state.current_negotiability * 4200 + sen.procedural.amendment_openness * 2000
            + sen.structural.bipartisanship_baseline * 1600 + (5000 - abs_spec(substantive - 5000))
            * 1200 - obj.controversy * 1200 - sen.dynamic_state.current_issue_salience_in_state
            * 1000 - ctx.media_attention * 400 - negotiability_penalty(
            sen.dynamic_state.current_public_position,
        ) * 10000,
    )
}

fn derive_negotiability(sen: &Senator, obj: &LegislativeObject, ctx: &LegislativeContext, substantive: i64) -> (r: i64)
    requires
        sen.wf(),
        obj.wf(),
        ctx.wf(),
        unit(substantive as int),
    ensures
        r == negotiability_spec(*sen, *obj, *ctx, substantive as int),
        unit(r as int),
{
    let penalty: i64 = match sen.dynamic_state.current_public_position {
        PublicPosition::Support | PublicPosition::Oppose => 1800,
        PublicPosition::Negotiating => 400,
        PublicPosition::Mixed => 800,
        PublicPosition::Undeclared => 200,
    };
    let dist = if substantive >= 5000 {
        substantive - 5000
    } else {
        5000 - substantive
    };
    clamp_wide(
        sen.dynamic_state.current_negotiability * 4200 + sen.procedural.amendment_openness * 2000
            + sen.structural.bipartisanship_baseline * 1600 + (5000 - dist) * 1200 - obj.controversy
            * 1200 - sen.dynamic_state.current_issue_salience_in_state * 1000 - ctx.media_attention
            * 400 - penalty * 10000,
    )
}

pub open spec fn position_strength(p: PublicPosition) -> int {
    match p {
        PublicPosition::Support | PublicPosition::Oppose => 1800,
        PublicPosition::Negotiating => 600,
        PublicPosition::Mixed => 1000,
        PublicPosition::Undeclared => 300,
    }
}

pub open spec fn rigidity_spec(sen: Senator, ctx: LegislativeContext, negotiability: int, substantive: int) -> int {
    clamp_cube_spec(
        (10000 - negotiability) * 5800 * 10000 + sen.dynamic_state.current_party_pressure * 1600
            * 10000 + ctx.leadership_priority * sen.procedural.leadership_deference * 1600
            + position_strength(sen.dynamic_state.current_public_position) * 100000000 + abs_spec(
            substantive - 5000,
        ) * 2000 * 10000,
    )
}

fn derive_rigidity(sen: &Senator, ctx: &LegislativeContext, negotiability: i64, substantive: i64) -> (r: i64)
    requires
        sen.wf(),
        ctx.wf(),
        unit(negotiability as int),
        unit(substantive as int),
    ensures
        r == rigidity_spec(*sen, *ctx, negotiability as int, substantive as int),
        unit(r as int),
{
    let strength: i64 = match sen.dynamic_state.current_public_position {
        PublicPosition::Support | PublicPosition::Oppose => 1800,
        PublicPosition::Negotiating => 600,
        PublicPosition::Mixed => 1000,
        PublicPosition::Undeclared => 300,
    };
    let dist = if substantive >= 5000 {
        substantive - 5000
    } else {
        5000 - substantive
    };
    clamp_cube(
        ((10000 - negotiability) as i128) * 5800 * 10000 + (
        sen.dynamic_state.current_party_pressure as i128) * 1600 * 10000 + prod3(
            ctx.leadership_priority,
            sen.procedural.leadership_deference,
            1600,
        ) + (strength as i128) * 100000000 + (dist as i128) * 2000 * 10000,
    )
}

/// The support a party is expected to give a policy domain.
pub open spec fn expected_party_support_spec(party: Party, domain: PolicyDomain) -> int {
    match party {
        Party::Democrat => match domain {
            PolicyDomain::EnergyClimate | PolicyDomain::Healthcare | PolicyDomain::Labor
            | PolicyDomain::Technology | PolicyDomain::Education => 6800,
            PolicyDomain::Defense | PolicyDomain::ForeignPolicy => 5400,
            PolicyDomain::BudgetTax | PolicyDomain::Immigration | PolicyDomain::Judiciary => 4200,
            PolicyDomain::Other(_) => 5000,
        },
        Party::Republican => match domain {
            PolicyDomain::Defense | PolicyDomain::ForeignPolicy | PolicyDomain::Judiciary => 6600,
            PolicyDomain::BudgetTax | PolicyDomain::Immigration => 6200,
            PolicyDomain::EnergyClimate | PolicyDomain::Labor | PolicyDomain::Healthcare => 3400,
            PolicyDomain::Technology | PolicyDomain::Education => 4400,
            PolicyDomain::Other(_) => 5000,
        },
        Party::Independent => 5000,
        Party::Other(_) => 5000,
    }
}

fn expected_party_support(party: &Party, domain: &PolicyDomain) -> (r: i64)
    ensures
        r == expected_party_support_spec(*party, *domain),
        unit(r as int),
{
    match party {
        Party::Democrat => match domain {
            PolicyDomain::EnergyClimate | PolicyDomain::Healthcare | PolicyDomain::Labor
            | PolicyDomain::Technology | PolicyDomain::Education => 6800,
            PolicyDomain::Defense | PolicyDomain::ForeignPolicy => 5400,
            PolicyDomain::BudgetTax | PolicyDomain::Immigration | PolicyDomain::Judiciary => 4200,
            PolicyDomain::Other(_) => 5000,
        },
        Party::Republican => match domain {
            PolicyDomain::Defense | PolicyDomain::ForeignPolicy | PolicyDomain::Judiciary => 6600,
            PolicyDomain::BudgetTax | PolicyDomain::Immigration => 6200,
            PolicyDomain::EnergyClimate | PolicyDomain::Labor | PolicyDomain::Healthcare => 3400,
            PolicyDomain::Technology | PolicyDomain::Education => 4400,
            PolicyDomain::Other(_) => 5000,
        },
        Party::Independent => 5000,
        Party::Other(_) => 5000,
    }
}

pub open spec fn defection_spec(sen: Senator, obj: LegislativeObject, ctx: LegislativeContext, substantive: int) -> int {
    let expected = expected_party_support_spec(sen.identity.party, obj.policy_domain);
    let divergence = abs_spec(substantive - expected);
    let moderation = 10000 - 2 * abs_spec(substantive - 5000);
    clamp_wide_spec(
        800 * 10000 + sen.structural.bipartisanship_baseline * 2800 + divergence * 2400 + moderation
            * 1200 - sen.structural.party_loyalty_baseline * 2400 - ctx.leadership_priority * 1600,
    )
}

fn derive_defection_probability(sen: &Senator, obj: &LegislativeObject, ctx: &LegislativeContext, substantive: i64) -> (r: i64)
    requires
        sen.wf(),
        obj.wf(),
        ctx.wf(),
        unit(substantive as int),
    ensures
        r == defection_spec(*sen, *obj, *ctx, substantive as int),
        unit(r as int),
{
    let expected = expected_party_support(&sen.identity.party, &obj.policy_domain);
    let divergence = if substantive >= expected {
        substantive - expected
    } else {
        expected - substantive
    };
    let dist = if substantive >= 5000 {
        substantive - 5000
    } else {
        5000 - substantive
    };
    let moderation = 10000 - 2 * dist;
    clamp_wide(
        800 * 10000 + sen.structural.bipartisanship_baseline * 2800 + divergence * 2400 + moderation
            * 1200 - sen.structural.party_loyalty_baseline * 2400 - ctx.leadership_priority * 1600,
    )
}

pub open spec fn election_adjustment(days: Option<i32>) -> int {
    match days {
        Some(d) => if d <= 30 {
            300
        } else {
            0
        },
        None => 0,
    }
}

pub open spec fn absence_spec(sen: Senator, ctx: LegislativeContext) -> int {
    clamp_unit_spec(10000 - sen.procedural.attendance_reliability + election_adjustment(ctx.days_until_election))
}

fn derive_absence_probability(sen: &Senator, ctx: &LegislativeContext) -> (r: i64)
    requires
        sen.wf(),
    ensures
        r == absence_spec(*sen, *ctx),
        unit(r as int),
{
    let adj: i64 = match ctx.days_until_election {
        Some(d) => if d <= 30 {
            300
        } else {
            0
        },
        None => 0,
    };
    clamp_unit(10000 - sen.procedural.attendance_reliability + adj)
}

pub open spec fn stance_label_spec(score: int) -> StanceLabel {
    if score >= 8000 {
        StanceLabel::Support
    } else if score >= 6000 {
        StanceLabel::LeanSupport
    } else if score > 4000 {
        StanceLabel::Undecided
    } else if score >= 2000 {
        StanceLabel::LeanOppose
    } else {
        StanceLabel::Oppose
    }
}

/// The stance label for a substantive-support score.
pub fn derive_stance_label(score: i64) -> (r: StanceLabel)
    ensures
        r == stance_label_spec(score as int),
{
    if score >= 8000 {
        StanceLabel::Support
    } else if score >= 6000 {
        StanceLabel::LeanSupport
    } else if score > 4000 {
        StanceLabel::Undecided
    } else if score >= 2000 {
        StanceLabel::LeanOppose
    } else {
        StanceLabel::Oppose
    }
}

pub open spec fn public_position_spec(score: int) -> PublicPosition {
    if score >= 7500 {
        PublicPosition::Support
    } else if score >= 5800 {
        PublicPosition::Negotiating
    } else if score > 4200 {
        PublicPosition::Undeclared
    } else if score >= 2500 {
        PublicPosition::Mixed
    } else {
        PublicPosition::Oppose
    }
}

/// The public position for a public-support score.
pub fn derive_public_position(score: i64) -> (r: PublicPosition)
    ensures
        r == public_position_spec(score as int),
{
    if score >= 7500 {
        PublicPosition::Support
    } else if score >= 5800 {
        PublicPosition::Negotiating
    } else if score > 4200 {
        PublicPosition::Undeclared
    } else if score >= 2500 {
        PublicPosition::Mixed
    } else {
        PublicPosition::Oppose
    }
}

pub open spec fn procedural_posture_spec(score: int, stage: ProceduralStage) -> ProceduralPosture {
    match stage {
        ProceduralStage::ClotureFiled | ProceduralStage::ClotureVote => if score >= 6000 {
            ProceduralPosture::SupportCloture
        } else if score <= 3500 {
            ProceduralPosture::OpposeCloture
        } else {
            ProceduralPosture::Unclear
        },
        ProceduralStage::Debate | ProceduralStage::MotionToProceed => if score >= 6000 {
            ProceduralPosture::SupportDebate
        } else if score <= 2200 {
            ProceduralPosture::OpposeDebate
        } else {
            ProceduralPosture::Unclear
        },
        ProceduralStage::AmendmentPending => if score >= 5800 {
            ProceduralPosture::SupportAmendmentProcess
        } else if score <= 2500 {
            ProceduralPosture::BlockByProcedure
        } else {
            ProceduralPosture::Unclear
        },
        _ => if score <= 2000 {
            ProceduralPosture::BlockByProcedure
        } else {
            ProceduralPosture::Unclear
        },
    }
}

/// The procedural posture for a procedural-support score at a stage.
pub fn derive_procedural_posture(score: i64, stage: &ProceduralStage) -> (r: ProceduralPosture)
    ensures
        r == procedural_posture_spec(score as int, *stage),
{
    match stage {
        ProceduralStage::ClotureFiled | ProceduralStage::ClotureVote => if score >= 6000 {
            ProceduralPosture::SupportCloture
        } else if score <= 3500 {
            ProceduralPosture::OpposeCloture
        } else {
            ProceduralPosture::Unclear
        },
        ProceduralStage::Debate | ProceduralStage::MotionToProceed => if score >= 6000 {
            ProceduralPosture::SupportDebate
        } else if score <= 2200 {
            ProceduralPosture::OpposeDebate
        } else {
            ProceduralPosture::Unclear
        },
        ProceduralStage::AmendmentPending => if score >= 5800 {
            ProceduralPosture::SupportAmendmentProcess
        } else if score <= 2500 {
            ProceduralPosture::BlockByProcedure
        } else {
            ProceduralPosture::Unclear
        },
        _ => if score <= 2000 {
            ProceduralPosture::BlockByProcedure
        } else {
            ProceduralPosture::Unclear
        },
    }
}

/// How obstructive a procedural posture is: 0 for supporting the step at
/// hand, 1 when unclear, 2 for opposing or blocking it.
pub open spec fn obstruction(p: ProceduralPosture) -> int {
    match p {
        ProceduralPosture::SupportCloture | ProceduralPosture::SupportDebate
        | ProceduralPosture::SupportAmendmentProcess => 0,
        ProceduralPosture::Unclear => 1,
        ProceduralPosture::OpposeCloture | ProceduralPosture::OpposeDebate | ProceduralPosture::BlockByProcedure => 2,
    }
}

/// More procedural support never gives a more obstructive posture; at every
/// stage a support of 0.20 or less gives an opposing or blocking posture; on
/// the floor (motion to proceed, debate, amendments, cloture) a support of
/// 0.60 or more gives a supporting one. With an amendment pending, 0.58 or more
/// supports the amendment process and 0.25 or less blocks by procedure; at a
/// cloture stage, 0.60 or more supports cloture and 0.35 or less opposes it;
/// in debate or on a motion to proceed, 0.60 or more supports debate and 0.22
/// or less opposes it. Off the floor no support gives a supporting posture,
/// and above 0.20 the posture is unclear.
pub proof fn law_procedural_posture_follows_support(low: int, high: int, stage: ProceduralStage)
    ensures
        low <= high ==> obstruction(procedural_posture_spec(high, stage)) <= obstruction(
            procedural_posture_spec(low, stage),
        ),
        low <= 2000 ==> obstruction(procedural_posture_spec(low, stage)) == 2,
        (stage is MotionToProceed || stage is Debate || stage is AmendmentPending || stage is ClotureFiled
            || stage is ClotureVote) && high >= 6000 ==> obstruction(procedural_posture_spec(high, stage)) == 0,
        stage is AmendmentPending ==> (high >= 5800 ==> procedural_posture_spec(high, stage)
            == ProceduralPosture::SupportAmendmentProcess) && (low <= 2500 ==> procedural_posture_spec(low, stage)
            == ProceduralPosture::BlockByProcedure),
        (stage is ClotureFiled || stage is ClotureVote) ==> (high >= 6000 ==> procedural_posture_spec(high, stage)
            == ProceduralPosture::SupportCloture) && (low <= 3500 ==> procedural_posture_spec(low, stage)
            == ProceduralPosture::OpposeCloture),
        (stage is MotionToProceed || stage is Debate) ==> (high >= 6000 ==> procedural_posture_spec(high, stage)
            == ProceduralPosture::SupportDebate) && (low <= 2200 ==> procedural_posture_spec(low, stage)
            == ProceduralPosture::OpposeDebate),
        !(stage is MotionToProceed || stage is Debate || stage is AmendmentPending || stage is ClotureFiled
            || stage is ClotureVote) ==> obstruction(procedural_posture_spec(high, stage)) >= 1 && (high > 2000
            ==> procedural_posture_spec(high, stage) == ProceduralPosture::Unclear),
{
}

pub open spec fn domain_label(d: PolicyDomain) -> Seq<char> {
    match d {
        PolicyDomain::Defense => "defense"@,
        PolicyDomain::BudgetTax => "tax_spending"@,
        PolicyDomain::Healthcare => "healthcare"@,
        PolicyDomain::Immigration => "immigration"@,
        PolicyDomain::EnergyClimate => "energy_climate"@,
        PolicyDomain::Judiciary => "judiciary"@,
        PolicyDomain::Technology => "tech_privacy"@,
        PolicyDomain::ForeignPolicy => "foreign_policy"@,
        PolicyDomain::Labor => "labor"@,
        PolicyDomain::Education => "education-adjacent"@,
        PolicyDomain::Other(_) => "general ideology"@,
    }
}

fn domain_label_text(d: &PolicyDomain) -> (r: &'static str)
    ensures
        r@ == domain_label(*d),
{
    match d {
        PolicyDomain::Defense => "defense",
        PolicyDomain::BudgetTax => "tax_spending",
        PolicyDomain::Healthcare => "healthcare",
        PolicyDomain::Immigration => "immigration",
        PolicyDomain::EnergyClimate => "energy_climate",
        PolicyDomain::Judiciary => "judiciary",
        PolicyDomain::Technology => "tech_privacy",
        PolicyDomain::ForeignPolicy => "foreign_policy",
        PolicyDomain::Labor => "labor",
        PolicyDomain::Education => "education-adjacent",
        PolicyDomain::Other(_) => "general ideology",
    }
}

pub open spec fn push_if(s: Seq<Seq<char>>, cond: bool, x: Seq<char>) -> Seq<Seq<char>> {
    if cond {
        s.push(x)
    } else {
        s
    }
}

pub open spec fn take_n(s: Seq<Seq<char>>, n: int) -> Seq<Seq<char>> {
    if s.len() <= n {
        s
    } else {
        s.subrange(0, n)
    }
}

/// The scores a stance is built from.
pub struct StanceScores {
    pub substantive: int,
    pub procedural: int,
    pub public: int,
    pub negotiability: int,
    pub rigidity: int,
    pub defection: int,
    pub absence: int,
}

/// The factors named for a heuristic stance, at most five.
pub open spec fn top_factors_spec(sen: Senator, obj: LegislativeObject, ctx: LegislativeContext, sc: StanceScores) -> Seq<Seq<char>> {
    let label = domain_label(obj.policy_domain);
    let f0 = if sc.substantive >= 6500 {
        seq!["high substantive alignment on "@ + label + " policy"@]
    } else if sc.substantive <= 3500 {
        seq!["weak substantive alignment on "@ + label + " policy"@]
    } else {
        seq![]
    };
    let f1 = push_if(
        f0,
        ctx.leadership_priority >= 7000 && sen.procedural.leadership_deference >= 6000,
        "leadership priority boosts procedural support"@,
    );
    let f2 = push_if(f1, obj.controversy >= 6500, "high controversy increases rigidity"@);
    let f3 = match sen.dynamic_state.current_public_position {
        PublicPosition::Support => f2.push("existing public support raises visible backing"@),
        PublicPosition::Oppose => f2.push("current public opposition lowers negotiability"@),
        PublicPosition::Negotiating => f2.push("current negotiating posture preserves flexibility"@),
        _ => f2,
    };
    let f4 = push_if(f3, sc.procedural >= 6500, "procedural baselines support moving the measure forward"@);
    let f5 = push_if(f4, sc.absence <= 800, "strong attendance reliability keeps absence probability low"@);
    let f6 = push_if(f5, f5.len() < 3 && obj.salience >= 7000, "high bill salience sharpens the senator's stance"@);
    let f7 = push_if(f6, f6.len() < 3 && sc.public <= 3500, "public posture remains defensive under controversy and pressure"@);
    let f8 = push_if(f7, f7.len() < 3 && sc.negotiability >= 6000, "negotiability remains elevated because amendment space is open"@);
    let f9 = push_if(f8, f8.len() < 3 && sc.defection >= 3500, "cross-party tendencies raise defection risk"@);
    let f10 = push_if(f9, f9.len() < 3 && sc.rigidity >= 6000, "party pressure and low flexibility increase rigidity"@);
    take_n(f10, 5)
}

fn push_str(v: &mut Vec<String>, s: &str)
    ensures
        string_views(final(v)@) == string_views(old(v)@).push(s@),
{
    v.push(String::from_str(s));
    proof {
        assert(string_views(v@) =~= string_views(old(v)@).push(s@));
    }
}

/// Shortens a list of texts to its first `n` entries.
pub fn truncate_texts(v: &mut Vec<String>, n: usize)
    ensures
        string_views(final(v)@) == take_n(string_views(old(v)@), n as int),
{
    let ghost orig = string_views(v@);
    proof {
        assert(orig.subrange(0, v@.len() as int) =~= orig);
    }
    while v.len() > n
        invariant
            string_views(v@) == orig.subrange(0, v@.len() as int),
            v@.len() <= orig.len(),
            orig.len() > n ==> v@.len() >= n,
            orig.len() <= n ==> v@.len() == orig.len(),
        decreases v.len(),
    {
        v.pop();
        proof {
            assert(string_views(v@) =~= orig.subrange(0, v@.len() as int));
        }
    }
    proof {
        if orig.len() <= n {
            assert(orig.subrange(0, orig.len() as int) =~= orig);
        }
    }
}

fn build_top_factors(sen: &Senator, obj: &LegislativeObject, ctx: &LegislativeContext, sub: i64, proc_: i64, public: i64, neg: i64, rig: i64, def: i64, abs: i64) -> (r: Vec<String>)
    ensures
        string_views(r@) == top_factors_spec(
            *sen,
            *obj,
            *ctx,
            StanceScores {
                substantive: sub as int,
                procedural: proc_ as int,
                public: public as int,
                negotiability: neg as int,
                rigidity: rig as int,
                defection: def as int,
                absence: abs as int,
            },
        ),
{
    let mut f: Vec<String> = Vec::new();
    let label = domain_label_text(&obj.policy_domain);
    if sub >= 6500 {
        let mut t = String::from_str("high substantive alignment on ");
        t.append(label);
        t.append(" policy");
        f.push(t);
    } else if sub <= 3500 {
        let mut t = String::from_str("weak substantive alignment on ");
        t.append(label);
        t.append(" policy");
        f.push(t);
    }
    proof {
        let label_s = domain_label(obj.policy_domain);
        if sub >= 6500 {
            assert(string_views(f@) =~= seq!["high substantive alignment on "@ + label_s + " policy"@]);
        } else if sub <= 3500 {
            assert(string_views(f@) =~= seq!["weak substantive alignment on "@ + label_s + " policy"@]);
        } else {
            assert(string_views(f@) =~= Seq::<Seq<char>>::empty());
        }
    }
    if ctx.leadership_priority >= 7000 && sen.procedural.leadership_deference >= 6000 {
        push_str(&mut f, "leadership priority boosts procedural support");
    }
    if obj.controversy >= 6500 {
        push_str(&mut f, "high controversy increases rigidity");
    }
    match sen.dynamic_state.current_public_position {
        PublicPosition::Support => push_str(&mut f, "existing public support raises visible backing"),
        PublicPosition::Oppose => push_str(&mut f, "current public opposition lowers negotiability"),
        PublicPosition::Negotiating => push_str(&mut f, "current negotiating posture preserves flexibility"),
        _ => {},
    }
    if proc_ >= 6500 {
        push_str(&mut f, "procedural baselines support moving the measure forward");
    }
    if abs <= 800 {
        push_str(&mut f, "strong attendance reliability keeps absence probability low");
    }
    if f.len() < 3 && obj.salience >= 7000 {
        push_str(&mut f, "high bill salience sharpens the senator's stance");
    }
    if f.len() < 3 && public <= 3500 {
        push_str(&mut f, "public posture remains defensive under controversy and pressure");
    }
    if f.len() < 3 && neg >= 6000 {
        push_str(&mut f, "negotiability remains elevated because amendment space is open");
    }
    if f.len() < 3 && def >= 3500 {
        push_str(&mut f, "cross-party tendencies raise defection risk");
    }
    if f.len() < 3 && rig >= 6000 {
        push_str(&mut f, "party pressure and low flexibility increase rigidity");
    }
    truncate_texts(&mut f, 5);
    f
}

/// The `Debug` spelling of a session.
pub open spec fn session_text(s: CongressionalSession) -> Seq<char> {
    match s {
        CongressionalSession::First => "First"@,
        CongressionalSession::Second => "Second"@,
    }
}

/// What `{:?}` writes for a text: the text quoted, with the escapes of
/// `str`'s `Debug`.
pub uninterp spec fn debug_quoted(s: Seq<char>) -> Seq<char>;

/// `format!("{:?}", s)` on a `str`. Claimed: the result is `debug_quoted` of
/// the text; what `Debug` escapes is left to that name.
#[verifier::external_body]
fn debug_text(s: &str) -> (r: String)
    ensures
        r@ == debug_quoted(s@),
{
    format!("{:?}", s)
}

/// The `Debug` spelling of a stage (an `Other` label quoted and escaped as
/// `Debug` writes a text).
pub open spec fn stage_text(stage: ProceduralStage) -> Seq<char> {
    match stage {
        ProceduralStage::Introduced => "Introduced"@,
        ProceduralStage::InCommittee => "InCommittee"@,
        ProceduralStage::Reported => "Reported"@,
        ProceduralStage::OnCalendar => "OnCalendar"@,
        ProceduralStage::MotionToProceed => "MotionToProceed"@,
        ProceduralStage::Debate => "Debate"@,
        ProceduralStage::AmendmentPending => "AmendmentPending"@,
        ProceduralStage::ClotureFiled => "ClotureFiled"@,
        ProceduralStage::ClotureVote => "ClotureVote"@,
        ProceduralStage::FinalPassage => "FinalPassage"@,
        ProceduralStage::Stalled => "Stalled"@,
        ProceduralStage::Conference => "Conference"@,
        ProceduralStage::Other(s) => "Other("@ + debug_quoted(s@) + ")"@,
    }
}

pub fn stage_debug_text(stage: &ProceduralStage) -> (r: String)
    ensures
        r@ == stage_text(*stage),
{
    match stage {
        ProceduralStage::Introduced => String::from_str("Introduced"),
        ProceduralStage::InCommittee => String::from_str("InCommittee"),
        ProceduralStage::Reported => String::from_str("Reported"),
        ProceduralStage::OnCalendar => String::from_str("OnCalendar"),
        ProceduralStage::MotionToProceed => String::from_str("MotionToProceed"),
        ProceduralStage::Debate => String::from_str("Debate"),
        ProceduralStage::AmendmentPending => String::from_str("AmendmentPending"),
        ProceduralStage::ClotureFiled => String::from_str("ClotureFiled"),
        ProceduralStage::ClotureVote => String::from_str("ClotureVote"),
        ProceduralStage::FinalPassage => String::from_str("FinalPassage"),
        ProceduralStage::Stalled => String::from_str("Stalled"),
        ProceduralStage::Conference => String::from_str("Conference"),
        ProceduralStage::Other(s) => {
            let mut t = String::from_str("Other(");
            t.append(debug_text(s.as_str()).as_str());
            t.append(")");
            t
        },
    }
}

pub open spec fn context_id_spec(ctx: LegislativeContext) -> Seq<char> {
    "ctx_"@ + decimal_digits(ctx.congress_number as nat) + "_session_"@ + session_text(ctx.session)
        + "_"@ + stage_text(ctx.procedural_stage)
}

fn build_context_id(ctx: &LegislativeContext) -> (r: String)
    ensures
        r@ == context_id_spec(*ctx),
{
    let mut t = String::from_str("ctx_");
    t.append(decimal_text(ctx.congress_number as u128).as_str());
    t.append("_session_");
    match ctx.session {
        CongressionalSession::First => t.append("First"),
        CongressionalSession::Second => t.append("Second"),
    }
    t.append("_");
    t.append(stage_debug_text(&ctx.procedural_stage).as_str());
    t
}

/// The scores of a heuristic stance.
pub open spec fn heuristic_scores(sen: Senator, obj: LegislativeObject, ctx: LegislativeContext) -> StanceScores {
    let sub = substantive_spec(sen, obj);
    let neg = negotiability_spec(sen, obj, ctx, sub);
    StanceScores {
        substantive: sub,
        procedural: procedural_spec(sen, obj, ctx, sub),
        public: public_spec(sen, obj, ctx, sub, neg),
        negotiability: neg,
        rigidity: rigidity_spec(sen, ctx, neg, sub),
        defection: defection_spec(sen, obj, ctx, sub),
        absence: absence_spec(sen, ctx),
    }
}

/// `st` carries the scores `sc`, with the labels they determine.
pub open spec fn stance_has_scores(st: SenatorStance, sc: StanceScores, stage: ProceduralStage) -> bool {
    &&& st.substantive_support == sc.substantive
    &&& st.procedural_support == sc.procedural
    &&& st.public_support == sc.public
    &&& st.negotiability == sc.negotiability
    &&& st.rigidity == sc.rigidity
    &&& st.defection_probability == sc.defection
    &&& st.absence_probability == sc.absence
    &&& st.stance_label == stance_label_spec(sc.substantive)
    &&& st.procedural_posture == procedural_posture_spec(sc.procedural, stage)
    &&& st.public_position == public_position_spec(sc.public)
}

/// The heuristic stance of a senator toward a legislative object, as built
/// by `derive_stance`.
pub open spec fn heuristic_stance_matches(st: SenatorStance, sen: Senator, obj: LegislativeObject, ctx: LegislativeContext) -> bool {
    let sc = heuristic_scores(sen, obj, ctx);
    &&& st.senator_id@ == sen.identity.senator_id@
    &&& st.object_id@ == obj.object_id@
    &&& st.context_id matches Some(c) && c@ == context_id_spec(ctx)
    &&& stance_has_scores(st, sc, ctx.procedural_stage)
    &&& string_views(st.top_factors@) == top_factors_spec(sen, obj, ctx, sc)
    &&& st.score_breakdown is None
    &&& st.wf()
}

/// Derives a senator's stance toward a legislative object from the senator's
/// issue preferences, procedural tendencies and current state, the object's
/// salience, controversy and budget, and the procedural context.
pub fn derive_stance(
    senator: &Senator,
    legislative_object: &LegislativeObject,
    context: &LegislativeContext,
) -> (r: Result<SenatorStance, SenateSimError>)
    ensures
        r is Ok <==> (senator.wf() && legislative_object.wf() && context.wf()),
        r matches Ok(st) ==> heuristic_stance_matches(st, *senator, *legislative_object, *context),
{
    senator.validate()?;
    legislative_object.validate()?;
    context.validate()?;
    let sub = derive_substantive_support(senator, legislative_object);
    let neg = derive_negotiability(senator, legislative_object, context, sub);
    let rig = derive_rigidity(senator, context, neg, sub);
    let proc_ = derive_procedural_support(senator, legislative_object, context, sub);
    let public = derive_public_support(senator, legislative_object, context, sub, neg);
    let def = derive_defection_probability(senator, legislative_object, context, sub);
    let abs = derive_absence_probability(senator, context);
    let stance = SenatorStance {
        senator_id: senator.identity.senator_id.clone(),
        object_id: legislative_object.object_id.clone(),
        context_id: Some(build_context_id(context)),
        substantive_support: sub,
        procedural_support: proc_,
        public_support: public,
        negotiability: neg,
        rigidity: rig,
        defection_probability: def,
        absence_probability: abs,
        stance_label: derive_stance_label(sub),
        procedural_posture: derive_procedural_posture(proc_, &context.procedural_stage),
        public_position: derive_public_position(public),
        top_factors: build_top_factors(senator, legislative_object, context, sub, proc_, public, neg, rig, def, abs),
        score_breakdown: None,
    };
    stance.validate()?;
    Ok(stance)
}

/// The heuristic scorer (the same as `derive_stance`).
pub fn derive_stance_heuristic(
    senator: &Senator,
    legislative_object: &LegislativeObject,
    context: &LegislativeContext,
) -> (r: Result<SenatorStance, SenateSimError>)
    ensures
        r is Ok <==> (senator.wf() && legislative_object.wf() && context.wf()),
        r matches Ok(st) ==> heuristic_stance_matches(st, *senator, *legislative_object, *context),
{
    derive_stance(senator, legislative_object, context)
}

/// The stance the scorer `mode` derives.
pub open spec fn stance_for_mode(st: SenatorStance, sen: Senator, obj: LegislativeObject, ctx: LegislativeContext, mode: StanceDerivationMode) -> bool {
    match mode {
        StanceDerivationMode::Heuristic => heuristic_stance_matches(st, sen, obj, ctx),
        StanceDerivationMode::FeatureDriven => if coverage_of(sen) <= MIN_FEATURE_COVERAGE {
            fallback_stance_matches(st, sen, obj, ctx)
        } else {
            feature_stance_matches(st, sen, obj, ctx)
        },
    }
}

/// The stance from the scorer `mode` names.
pub fn derive_stance_with_mode(
    senator: &Senator,
    legislative_object: &LegislativeObject,
    context: &LegislativeContext,
    mode: StanceDerivationMode,
) -> (r: Result<SenatorStance, SenateSimError>)
    ensures
        r is Ok <==> (senator.wf() && legislative_object.wf() && context.wf()),
        r matches Ok(st) ==> stance_for_mode(st, *senator, *legislative_object, *context, mode),
{
    match mode {
        StanceDerivationMode::Heuristic => derive_stance_heuristic(senator, legislative_object, context),
        StanceDerivationMode::FeatureDriven => derive_stance_feature_driven(
            senator,
            legislative_object,
            context,
        ),
    }
}

} // verus!
