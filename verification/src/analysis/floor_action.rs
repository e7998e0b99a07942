//! Floor-action assessment: the likely next floor move given the chamber
//! analysis, the procedural stage and the pressure on leadership.

use vstd::prelude::*;
use crate::model::analysis::{copy_pivots, SenateAnalysis};
use crate::model::context::{LegislativeContext, ProceduralStage};
use crate::model::error::SenateSimError;
use crate::model::events::{FloorAction, FloorActionAssessment};
use crate::model::legislative::LegislativeObject;
use crate::util::score::{clamp_wide, clamp_wide_spec, ratio, ratio_spec, unit};
use crate::util::text::string_views;

verus! {

/// Deadline pressure (ten-thousandths) from the days left.
pub open spec fn deadline_pressure_spec(days: Option<i32>) -> int {
    match days {
        Some(d) => if d <= 7 {
            10000
        } else if d <= 21 {
            7500
        } else if d <= 45 {
            4500
        } else {
            2000
        },
        None => 1000,
    }
}

/// Pressure on leadership: half deadline, half media attention.
pub open spec fn pressure_spec(ctx: LegislativeContext) -> int {
    (deadline_pressure_spec(ctx.days_until_deadline) * 5000 + ctx.media_attention * 5000) / 10000
}

pub open spec fn threshold_of(an: SenateAnalysis) -> int {
    an.expected_present_count / 2 + 1
}

pub open spec fn support_margin_spec(an: SenateAnalysis) -> int {
    an.likely_support_count + an.lean_support_count - threshold_of(an)
}

/// A rough count of senators who could vote for cloture.
pub open spec fn estimate_cloture_votes_spec(an: SenateAnalysis) -> int {
    let rough = an.total_senators - an.likely_oppose_count - an.lean_oppose_count
        - an.likely_blockers.len() + an.pivotal_senators.len() / 2;
    let nonneg = if rough < 0 {
        0
    } else {
        rough
    };
    if nonneg > an.total_senators {
        an.total_senators as int
    } else {
        nonneg
    }
}

pub open spec fn cloture_gap_spec(an: SenateAnalysis) -> int {
    estimate_cloture_votes_spec(an) - 60
}

/// The predicted floor action for each stage.
pub open spec fn predicted_action_spec(ctx: LegislativeContext, an: SenateAnalysis) -> FloorAction {
    let smv = an.simple_majority_viable;
    let cv = an.cloture_viable;
    let stab = an.coalition_stability;
    let risk = an.filibuster_risk;
    let lead = ctx.leadership_priority;
    let pressure = pressure_spec(ctx);
    match ctx.procedural_stage {
        ProceduralStage::FinalPassage => if smv && stab >= 5800 {
            FloorAction::LikelyFinalPassage
        } else if smv {
            FloorAction::LikelyNegotiation
        } else {
            FloorAction::LikelyStall
        },
        ProceduralStage::ClotureFiled | ProceduralStage::ClotureVote => if cv && stab >= 5500 {
            FloorAction::LikelyFinalPassage
        } else if smv && !cv && risk >= 6500 && an.likely_blockers.len() > 0 {
            FloorAction::LikelyClotureFailure
        } else if smv && lead >= 7000 {
            FloorAction::LikelyClotureVote
        } else if smv {
            FloorAction::LikelyNegotiation
        } else {
            FloorAction::LikelyProceduralBlock
        },
        ProceduralStage::MotionToProceed | ProceduralStage::Debate => if smv && stab >= 6200 && cv {
            FloorAction::LikelyAdvanceToDebate
        } else if smv && stab >= 4200 && risk < 6500 {
            FloorAction::LikelyNegotiation
        } else if !smv && an.undecided_count >= 8 && (lead >= 6500 || pressure >= 6000) {
            FloorAction::LikelyNegotiation
        } else if an.likely_blockers.len() > 0 && risk >= 6000 {
            FloorAction::LikelyProceduralBlock
        } else {
            FloorAction::LikelyStall
        },
        ProceduralStage::AmendmentPending => if an.pivotal_senators.len() >= 4 && stab < 5800 {
            FloorAction::LikelyAmendmentFight
        } else if smv {
            FloorAction::LikelyNegotiation
        } else {
            FloorAction::LikelyStall
        },
        ProceduralStage::Stalled => if smv && (lead >= 7500 || pressure >= 7000) {
            FloorAction::LikelyNegotiation
        } else {
            FloorAction::LikelyStall
        },
        _ => if cv && stab >= 6000 {
            FloorAction::LikelyAdvanceToDebate
        } else if smv {
            FloorAction::LikelyNegotiation
        } else {
            FloorAction::LikelyStall
        },
    }
}

pub open spec fn abs_int(x: int) -> int {
    if x < 0 {
        -x
    } else {
        x
    }
}

/// |margin| / 12, clamped to the unit interval.
pub open spec fn signal_of(margin: int) -> int {
    if abs_int(margin) >= 12 {
        10000
    } else {
        (abs_int(margin) * 10000) / 12
    }
}

/// Confidence of the assessment.
pub open spec fn floor_confidence_spec(action: FloorAction, an: SenateAnalysis) -> int {
    let support_signal = signal_of(support_margin_spec(an));
    let cloture_signal = signal_of(cloture_gap_spec(an));
    let stab = an.coalition_stability as int;
    let risk = an.filibuster_risk as int;
    let ambiguity = (if an.simple_majority_viable != an.cloture_viable {
        18000000int
    } else {
        0int
    }) + ratio_spec(an.undecided_count as int, an.total_senators as int) * 1800 + (10000 - stab)
        * 1800;
    let base = match action {
        FloorAction::LikelyFinalPassage => 5400 * 10000 + support_signal * 2000 + cloture_signal
            * 1600,
        FloorAction::LikelyClotureFailure | FloorAction::LikelyProceduralBlock => 5200 * 10000
            + cloture_signal * 2200 + risk * 1400,
        FloorAction::LikelyAdvanceToDebate => 4800 * 10000 + support_signal * 1400 + stab * 1400,
        FloorAction::LikelyNegotiation | FloorAction::LikelyAmendmentFight => 4200 * 10000
            + ratio_spec(an.pivotal_senators.len() as int, 8) * 1400,
        FloorAction::LikelyClotureVote => 4600 * 10000 + risk * 800,
        FloorAction::LikelyStall => 5000 * 10000 + (10000 - stab) * 1600,
    };
    clamp_wide_spec(base - ambiguity)
}

pub open spec fn floor_reasons_spec(ctx: LegislativeContext, an: SenateAnalysis) -> Seq<Seq<char>> {
    let base = seq![
        if an.simple_majority_viable {
            "simple majority coalition exists in the current chamber snapshot"@
        } else {
            "simple majority coalition does not yet exist"@
        },
        if an.cloture_viable {
            "procedural coalition appears strong enough to clear cloture"@
        } else {
            "cloture path remains below the 60-vote threshold"@
        },
        if ctx.leadership_priority >= 7000 {
            "high leadership priority raises the odds of an attempted floor move"@
        } else {
            "limited leadership priority reduces pressure for immediate floor action"@
        },
        if an.coalition_stability >= 6000 {
            "coalition stability is strong enough to support decisive action"@
        } else {
            "fragile coalition dynamics point toward bargaining rather than clean passage"@
        },
    ];
    let a = if an.filibuster_risk >= 6500 {
        base.push("rigid procedural blockers keep filibuster risk elevated"@)
    } else {
        base
    };
    if pressure_spec(ctx) >= 6000 {
        a.push("deadline and media pressure push leadership toward visible action"@)
    } else {
        a
    }
}

/// Sizes small enough that the vote estimates fit in `i32`.
pub open spec fn sizes_fit(an: SenateAnalysis) -> bool {
    &&& an.total_senators <= 0x3fff_ffff
    &&& an.likely_blockers.len() <= 0x3fff_ffff
    &&& an.pivotal_senators.len() <= 0x3fff_ffff
}

fn deadline_pressure(ctx: &LegislativeContext) -> (r: i64)
    ensures
        r == deadline_pressure_spec(ctx.days_until_deadline),
{
    match ctx.days_until_deadline {
        Some(d) => if d <= 7 {
            10000
        } else if d <= 21 {
            7500
        } else if d <= 45 {
            4500
        } else {
            2000
        },
        None => 1000,
    }
}

fn estimate_cloture_votes(an: &SenateAnalysis) -> (r: usize)
    requires
        an.wf(),
        sizes_fit(*an),
    ensures
        r == estimate_cloture_votes_spec(*an),
        r <= an.total_senators,
{
    let blocker_penalty = an.likely_blockers.len() as i64;
    let pivot_bonus = an.pivotal_senators.len() as i64 / 2;
    let rough = an.total_senators as i64 - an.likely_oppose_count as i64 - an.lean_oppose_count
        as i64 - blocker_penalty + pivot_bonus;
    let nonneg = if rough < 0 {
        0
    } else {
        rough
    };
    if nonneg > an.total_senators as i64 {
        an.total_senators
    } else {
        nonneg as usize
    }
}

fn signal(margin: i64) -> (r: i64)
    requires
        -0x7fff_ffff <= margin <= 0x7fff_ffff,
    ensures
        r == signal_of(margin as int),
        unit(r as int),
{
    let a = if margin < 0 {
        -margin
    } else {
        margin
    };
    if a >= 12 {
        10000
    } else {
        (a * 10000) / 12
    }
}

fn derive_confidence(action: FloorAction, an: &SenateAnalysis, support_margin: i64, cloture_gap: i64) -> (r: i64)
    requires
        an.wf(),
        sizes_fit(*an),
        support_margin == support_margin_spec(*an),
        cloture_gap == cloture_gap_spec(*an),
    ensures
        r == floor_confidence_spec(action, *an),
        unit(r as int),
{
    let support_signal = signal(support_margin);
    let cloture_signal = signal(cloture_gap);
    let stab = an.coalition_stability;
    let risk = an.filibuster_risk;
    let ambiguity = (if an.simple_majority_viable != an.cloture_viable {
        18000000
    } else {
        0
    }) + ratio(an.undecided_count, an.total_senators) * 1800 + (10000 - stab) * 1800;
    let base = match action {
        FloorAction::LikelyFinalPassage => 5400 * 10000 + support_signal * 2000 + cloture_signal
            * 1600,
        FloorAction::LikelyClotureFailure | FloorAction::LikelyProceduralBlock => 5200 * 10000
            + cloture_signal * 2200 + risk * 1400,
        FloorAction::LikelyAdvanceToDebate => 4800 * 10000 + support_signal * 1400 + stab * 1400,
        FloorAction::LikelyNegotiation | FloorAction::LikelyAmendmentFight => 4200 * 10000 + ratio(
            an.pivotal_senators.len(),
            8,
        ) * 1400,
        FloorAction::LikelyClotureVote => 4600 * 10000 + risk * 800,
        FloorAction::LikelyStall => 5000 * 10000 + (10000 - stab) * 1600,
    };
    clamp_wide(base - ambiguity)
}

/// Assesses the likely next floor action for a legislative object from its
/// chamber analysis.
pub fn assess_floor_action(
    legislative_object: &LegislativeObject,
    context: &LegislativeContext,
    analysis: &SenateAnalysis,
) -> (r: Result<FloorActionAssessment, SenateSimError>)
    requires
        sizes_fit(*analysis),
    ensures
        r is Ok <==> (legislative_object.wf() && context.wf() && analysis.wf() && analysis.object_id@
            == legislative_object.object_id@),
        legislative_object.wf() && context.wf() && analysis.wf() && analysis.object_id@
            != legislative_object.object_id@ ==> (r matches Err(SenateSimError::Validation { field, .. })
            && field@ == "floor_action_assessment.object_id"@),
        r matches Ok(f) ==> {
            let action = predicted_action_spec(*context, *analysis);
            &&& f.object_id@ == legislative_object.object_id@
            &&& f.procedural_stage == context.procedural_stage
            &&& f.predicted_action == action
            &&& f.confidence == floor_confidence_spec(action, *analysis)
            &&& f.simple_majority_viable == analysis.simple_majority_viable
            &&& f.cloture_viable == analysis.cloture_viable
            &&& f.coalition_stability == analysis.coalition_stability
            &&& f.filibuster_risk == analysis.filibuster_risk
            &&& f.support_margin_estimate == support_margin_spec(*analysis)
            &&& f.cloture_gap_estimate == cloture_gap_spec(*analysis)
            &&& f.pivotal_senators@ == analysis.pivotal_senators@
            &&& string_views(f.top_reasons@) == floor_reasons_spec(*context, *analysis)
            &&& f.wf()
        },
{
    legislative_object.validate()?;
    context.validate()?;
    analysis.validate()?;
    if analysis.object_id != legislative_object.object_id {
        return Err(SenateSimError::validation("floor_action_assessment.object_id", "analysis object_id must match the legislative object"));
    }
    let threshold = analysis.expected_present_count / 2 + 1;
    let current_support = analysis.likely_support_count + analysis.lean_support_count;
    let support_margin = current_support as i64 - threshold as i64;
    let probable_cloture_votes = estimate_cloture_votes(analysis);
    let cloture_gap = probable_cloture_votes as i64 - 60;
    let pressure = (deadline_pressure(context) * 5000 + context.media_attention * 5000) / 10000;
    let smv = analysis.simple_majority_viable;
    let cv = analysis.cloture_viable;
    let stab = analysis.coalition_stability;
    let risk = analysis.filibuster_risk;
    let lead = context.leadership_priority;
    let action = match context.procedural_stage {
        ProceduralStage::FinalPassage => if smv && stab >= 5800 {
            FloorAction::LikelyFinalPassage
        } else if smv {
            FloorAction::LikelyNegotiation
        } else {
            FloorAction::LikelyStall
        },
        ProceduralStage::ClotureFiled | ProceduralStage::ClotureVote => if cv && stab >= 5500 {
            FloorAction::LikelyFinalPassage
        } else if smv && !cv && risk >= 6500 && analysis.likely_blockers.len() > 0 {
            FloorAction::LikelyClotureFailure
        } else if smv && lead >= 7000 {
            FloorAction::LikelyClotureVote
        } else if smv {
            FloorAction::LikelyNegotiation
        } else {
            FloorAction::LikelyProceduralBlock
        },
        ProceduralStage::MotionToProceed | ProceduralStage::Debate => if smv && stab >= 6200 && cv {
            FloorAction::LikelyAdvanceToDebate
        } else if smv && stab >= 4200 && risk < 6500 {
            FloorAction::LikelyNegotiation
        } else if !smv && analysis.undecided_count >= 8 && (lead >= 6500 || pressure >= 6000) {
            FloorAction::LikelyNegotiation
        } else if analysis.likely_blockers.len() > 0 && risk >= 6000 {
            FloorAction::LikelyProceduralBlock
        } else {
            FloorAction::LikelyStall
        },
        ProceduralStage::AmendmentPending => if analysis.pivotal_senators.len() >= 4 && stab < 5800 {
            FloorAction::LikelyAmendmentFight
        } else if smv {
            FloorAction::LikelyNegotiation
        } else {
            FloorAction::LikelyStall
        },
        ProceduralStage::Stalled => if smv && (lead >= 7500 || pressure >= 7000) {
            FloorAction::LikelyNegotiation
        } else {
            FloorAction::LikelyStall
        },
        _ => if cv && stab >= 6000 {
            FloorAction::LikelyAdvanceToDebate
        } else if smv {
            FloorAction::LikelyNegotiation
        } else {
            FloorAction::LikelyStall
        },
    };
    let confidence = derive_confidence(action, analysis, support_margin, cloture_gap);
    let mut top_reasons: Vec<String> = Vec::new();
    top_reasons.push(
        if smv {
            String::from_str("simple majority coalition exists in the current chamber snapshot")
        } else {
            String::from_str("simple majority coalition does not yet exist")
        },
    );
    top_reasons.push(
        if cv {
            String::from_str("procedural coalition appears strong enough to clear cloture")
        } else {
            String::from_str("cloture path remains below the 60-vote threshold")
        },
    );
    top_reasons.push(
        if lead >= 7000 {
            String::from_str("high leadership priority raises the odds of an attempted floor move")
        } else {
            String::from_str("limited leadership priority reduces pressure for immediate floor action")
        },
    );
    top_reasons.push(
        if stab >= 6000 {
            String::from_str("coalition stability is strong enough to support decisive action")
        } else {
            String::from_str("fragile coalition dynamics point toward bargaining rather than clean passage")
        },
    );
    if risk >= 6500 {
        top_reasons.push(String::from_str("rigid procedural blockers keep filibuster risk elevated"));
    }
    if pressure >= 6000 {
        top_reasons.push(String::from_str("deadline and media pressure push leadership toward visible action"));
    }
    proof {
        assert(string_views(top_reasons@) =~= floor_reasons_spec(*context, *analysis));
    }
    let assessment = FloorActionAssessment {
        object_id: legislative_object.object_id.clone(),
        procedural_stage: context.procedural_stage.copy(),
        predicted_action: action,
        confidence,
        simple_majority_viable: smv,
        cloture_viable: cv,
        coalition_stability: stab,
        filibuster_risk: risk,
        support_margin_estimate: support_margin as i32,
        cloture_gap_estimate: cloture_gap as i32,
        pivotal_senators: copy_pivots(&analysis.pivotal_senators),
        top_reasons,
    };
    assessment.validate()?;
    Ok(assessment)
}

/// With a viable simple majority, viable cloture and a coalition stability of
/// 0.62 or more, no stage predicts a procedural block or a cloture failure; on
/// a motion to proceed or in debate the bill is predicted to advance to
/// debate, and at a cloture stage or at final passage it is predicted to pass.
pub proof fn law_viable_stable_coalition_advances(ctx: LegislativeContext, an: SenateAnalysis)
    requires
        an.simple_majority_viable,
        an.cloture_viable,
        an.coalition_stability >= 6200,
    ensures
        predicted_action_spec(ctx, an) != FloorAction::LikelyProceduralBlock,
        predicted_action_spec(ctx, an) != FloorAction::LikelyClotureFailure,
        (ctx.procedural_stage is MotionToProceed || ctx.procedural_stage is Debate) ==> predicted_action_spec(ctx, an)
            == FloorAction::LikelyAdvanceToDebate,
        (ctx.procedural_stage is ClotureFiled || ctx.procedural_stage is ClotureVote
            || ctx.procedural_stage is FinalPassage) ==> predicted_action_spec(ctx, an)
            == FloorAction::LikelyFinalPassage,
{
}

/// Without a viable simple majority, a bill at final passage is never
/// predicted to pass, and on a motion to proceed or in debate it is never
/// predicted to advance.
pub proof fn law_no_majority_no_advance(ctx: LegislativeContext, an: SenateAnalysis)
    requires
        !an.simple_majority_viable,
    ensures
        ctx.procedural_stage is FinalPassage ==> predicted_action_spec(ctx, an) != FloorAction::LikelyFinalPassage,
        (ctx.procedural_stage is MotionToProceed || ctx.procedural_stage is Debate) ==> predicted_action_spec(ctx, an)
            != FloorAction::LikelyAdvanceToDebate,
{
}

} // verus!
