//! Next-event prediction: which consequential Senate event most plausibly
//! follows from the current procedural stage and chamber analysis.

use vstd::prelude::*;
use crate::model::analysis::SenateAnalysis;
use crate::model::context::{LegislativeContext, ProceduralStage};
use crate::model::error::SenateSimError;
use crate::model::events::{scores_descending, EventScore, NextEventPrediction, SenateEvent};
use crate::model::legislative::LegislativeObject;
use crate::util::score::{clamp_wide, clamp_wide_spec, ratio, ratio_spec, unit, SCALE};
use crate::util::text::string_views;

verus! {

/// The abstract content of an `EventScore`.
pub struct EventScoreView {
    pub event: SenateEvent,
    pub score: int,
    pub reason: Seq<char>,
}

impl View for EventScore {
    type V = EventScoreView;

    open spec fn view(&self) -> EventScoreView {
        EventScoreView { event: self.event, score: self.score as int, reason: self.reason@ }
    }
}

pub open spec fn score_views(v: Seq<EventScore>) -> Seq<EventScoreView> {
    v.map_values(|e: EventScore| e@)
}

pub open spec fn views_descending(v: Seq<EventScoreView>) -> bool {
    forall|i: int, j: int| 0 <= i < j < v.len() ==> v[i].score >= v[j].score
}

/// The candidate events for each procedural stage, in a fixed order.
pub open spec fn stage_candidates(stage: ProceduralStage) -> Seq<SenateEvent> {
    match stage {
        ProceduralStage::Introduced | ProceduralStage::InCommittee | ProceduralStage::Reported
        | ProceduralStage::OnCalendar => seq![
            SenateEvent::NoMeaningfulMovement,
            SenateEvent::LeadershipSignalsAction,
            SenateEvent::NegotiationIntensifies,
            SenateEvent::MotionToProceedAttempted,
        ],
        ProceduralStage::MotionToProceed => seq![
            SenateEvent::MotionToProceedAttempted,
            SenateEvent::DebateBegins,
            SenateEvent::ProceduralBlock,
            SenateEvent::NoMeaningfulMovement,
            SenateEvent::NegotiationIntensifies,
        ],
        ProceduralStage::Debate => seq![
            SenateEvent::AmendmentFightBegins,
            SenateEvent::ClotureFiled,
            SenateEvent::NegotiationIntensifies,
            SenateEvent::ProceduralBlock,
            SenateEvent::NoMeaningfulMovement,
        ],
        ProceduralStage::AmendmentPending => seq![
            SenateEvent::AmendmentFightBegins,
            SenateEvent::NegotiationIntensifies,
            SenateEvent::ClotureFiled,
            SenateEvent::ProceduralBlock,
        ],
        ProceduralStage::ClotureFiled => seq![
            SenateEvent::ClotureVoteScheduled,
            SenateEvent::ClotureInvoked,
            SenateEvent::ClotureFails,
            SenateEvent::NegotiationIntensifies,
        ],
        ProceduralStage::ClotureVote => seq![
            SenateEvent::ClotureInvoked,
            SenateEvent::ClotureFails,
            SenateEvent::NegotiationIntensifies,
        ],
        ProceduralStage::FinalPassage => seq![
            SenateEvent::FinalPassageScheduled,
            SenateEvent::FinalPassageSucceeds,
            SenateEvent::FinalPassageFails,
            SenateEvent::NegotiationIntensifies,
        ],
        ProceduralStage::Stalled => seq![
            SenateEvent::NoMeaningfulMovement,
            SenateEvent::LeadershipSignalsAction,
            SenateEvent::NegotiationIntensifies,
            SenateEvent::ReturnedToCalendar,
        ],
        ProceduralStage::Conference => seq![
            SenateEvent::NegotiationIntensifies,
            SenateEvent::LeadershipSignalsAction,
            SenateEvent::NoMeaningfulMovement,
            SenateEvent::ReturnedToCalendar,
        ],
        ProceduralStage::Other(_) => seq![
            SenateEvent::NegotiationIntensifies,
            SenateEvent::LeadershipSignalsAction,
            SenateEvent::NoMeaningfulMovement,
        ],
    }
}

/// The candidate next events for a procedural stage.
pub fn candidate_events_for_stage(stage: &ProceduralStage) -> (r: Vec<SenateEvent>)
    ensures
        r@ == stage_candidates(*stage),
        r@.len() >= 3,
{
    let r = match stage {
        ProceduralStage::Introduced | ProceduralStage::InCommittee | ProceduralStage::Reported
        | ProceduralStage::OnCalendar => vec![
            SenateEvent::NoMeaningfulMovement,
            SenateEvent::LeadershipSignalsAction,
            SenateEvent::NegotiationIntensifies,
            SenateEvent::MotionToProceedAttempted,
        ],
        ProceduralStage::MotionToProceed => vec![
            SenateEvent::MotionToProceedAttempted,
            SenateEvent::DebateBegins,
            SenateEvent::ProceduralBlock,
            SenateEvent::NoMeaningfulMovement,
            SenateEvent::NegotiationIntensifies,
        ],
        ProceduralStage::Debate => vec![
            SenateEvent::AmendmentFightBegins,
            SenateEvent::ClotureFiled,
            SenateEvent::NegotiationIntensifies,
            SenateEvent::ProceduralBlock,
            SenateEvent::NoMeaningfulMovement,
        ],
        ProceduralStage::AmendmentPending => vec![
            SenateEvent::AmendmentFightBegins,
            SenateEvent::NegotiationIntensifies,
            SenateEvent::ClotureFiled,
            SenateEvent::ProceduralBlock,
        ],
        ProceduralStage::ClotureFiled => vec![
            SenateEvent::ClotureVoteScheduled,
            SenateEvent::ClotureInvoked,
            SenateEvent::ClotureFails,
            SenateEvent::NegotiationIntensifies,
        ],
        ProceduralStage::ClotureVote => vec![
            SenateEvent::ClotureInvoked,
            SenateEvent::ClotureFails,
            SenateEvent::NegotiationIntensifies,
        ],
        ProceduralStage::FinalPassage => vec![
            SenateEvent::FinalPassageScheduled,
            SenateEvent::FinalPassageSucceeds,
            SenateEvent::FinalPassageFails,
            SenateEvent::NegotiationIntensifies,
        ],
        ProceduralStage::Stalled => vec![
            SenateEvent::NoMeaningfulMovement,
            SenateEvent::LeadershipSignalsAction,
            SenateEvent::NegotiationIntensifies,
            SenateEvent::ReturnedToCalendar,
        ],
        ProceduralStage::Conference => vec![
            SenateEvent::NegotiationIntensifies,
            SenateEvent::LeadershipSignalsAction,
            SenateEvent::NoMeaningfulMovement,
            SenateEvent::ReturnedToCalendar,
        ],
        ProceduralStage::Other(_) => vec![
            SenateEvent::NegotiationIntensifies,
            SenateEvent::LeadershipSignalsAction,
            SenateEvent::NoMeaningfulMovement,
        ],
    };
    proof {
        assert(r@ =~= stage_candidates(*stage));
    }
    r
}

/// Deadline urgency factor (ten-thousandths) from the days left.
pub open spec fn deadline_urgency(days: Option<i32>) -> int {
    match days {
        Some(d) => if d <= 7 {
            10000
        } else if d <= 21 {
            7800
        } else if d <= 45 {
            4800
        } else {
            1800
        },
        None => 1200,
    }
}

/// Urgency: 60% deadline factor, 40% media attention.
pub open spec fn urgency_spec(ctx: LegislativeContext) -> int {
    clamp_wide_spec(deadline_urgency(ctx.days_until_deadline) * 6000 + ctx.media_attention * 4000)
}

pub open spec fn pivot_ratio(an: SenateAnalysis) -> int {
    ratio_spec(an.pivotal_senators.len() as int, an.total_senators as int)
}

pub open spec fn blocker_ratio(an: SenateAnalysis) -> int {
    ratio_spec(an.likely_blockers.len() as int, an.total_senators as int)
}

pub open spec fn undecided_ratio(an: SenateAnalysis) -> int {
    ratio_spec(an.undecided_count as int, an.total_senators as int)
}

/// How close the chamber sits to a threshold.
pub open spec fn closeness_spec(an: SenateAnalysis) -> int {
    clamp_wide_spec(
        pivot_ratio(an) * 6000 + undecided_ratio(an) * 4000 + (10000 - an.coalition_stability) * 2000,
    )
}

pub open spec fn early_or_stalled(stage: ProceduralStage) -> bool {
    stage is Introduced || stage is InCommittee || stage is Reported || stage is OnCalendar
        || stage is Stalled
}

pub open spec fn when(b: bool, weight: int) -> int {
    if b {
        weight * 10000
    } else {
        0
    }
}

/// The unclamped score of a candidate event, at scale `SCALE * SCALE`.
pub open spec fn event_raw(event: SenateEvent, salience: int, ctx: LegislativeContext, an: SenateAnalysis) -> int {
    let urgency = urgency_spec(ctx);
    let pivots = pivot_ratio(an);
    let blockers = blocker_ratio(an);
    let undecideds = undecided_ratio(an);
    let lead = ctx.leadership_priority as int;
    let stab = an.coalition_stability as int;
    let risk = an.filibuster_risk as int;
    let smv = an.simple_majority_viable;
    let cv = an.cloture_viable;
    let stage = ctx.procedural_stage;
    match event {
        SenateEvent::NoMeaningfulMovement => 2000 * 10000 + (10000 - lead) * 2800 + (10000
            - urgency) * 2000 + when(!smv, 1200) + (10000 - stab) * 1200 + when(
            early_or_stalled(stage),
            1800,
        ),
        SenateEvent::LeadershipSignalsAction => 1800 * 10000 + lead * 3000 + salience * 1200
            + urgency * 1000 + when(!smv, 1000) + undecideds * 1000,
        SenateEvent::MotionToProceedAttempted => 1800 * 10000 + when(stage is MotionToProceed, 1800)
            + lead * 2000 + stab * 1000 + (10000 - risk) * 1400 + when(smv, 1600),
        SenateEvent::DebateBegins => 1600 * 10000 + when(stage is MotionToProceed, 1200) + when(
            smv,
            2200,
        ) + when(cv, 1800) + stab * 1600 - blockers * 1400,
        SenateEvent::AmendmentFightBegins => 1600 * 10000 + when(
            stage is Debate || stage is AmendmentPending,
            1600,
        ) + pivots * 2000 + (10000 - stab) * 1600 + undecideds * 1200 + when(!cv, 800),
        SenateEvent::ClotureFiled => 1800 * 10000 + when(
            stage is Debate || stage is AmendmentPending,
            2000,
        ) + lead * 2400 + salience * 1000 + blockers * 1000 + when(!cv, 800),
        SenateEvent::ClotureVoteScheduled => 2400 * 10000 + when(stage is ClotureFiled, 2400) + lead
            * 2200 + urgency * 1400 + (if cv {
            8000000int
        } else {
            -12000000int
        }),
        SenateEvent::ClotureInvoked => 1200 * 10000 + when(
            stage is ClotureFiled || stage is ClotureVote,
            1800,
        ) + when(cv, 3000) + stab * 1800 + (10000 - risk) * 1400,
        SenateEvent::ClotureFails => 1200 * 10000 + when(
            stage is ClotureFiled || stage is ClotureVote,
            1600,
        ) + when(!cv, 2800) + risk * 2200 + blockers * 1400,
        SenateEvent::FinalPassageScheduled => 1200 * 10000 + when(stage is FinalPassage, 2000) + lead
            * 1800 + when(smv, 1800) + when(cv, 1200) + urgency * 800,
        SenateEvent::FinalPassageSucceeds => 1200 * 10000 + when(stage is FinalPassage, 2000) + when(
            smv,
            2800,
        ) + stab * 2000 + (10000 - blockers) * 800,
        SenateEvent::FinalPassageFails => 1000 * 10000 + when(stage is FinalPassage, 2000) + when(
            !smv,
            2600,
        ) + (10000 - stab) * 1800 + blockers * 1200,
        SenateEvent::NegotiationIntensifies => 2200 * 10000 + closeness_spec(an) * 4000 + pivots
            * 2800 + urgency * 1800 + undecideds * 1600 + when(!smv || !cv, 1800),
        SenateEvent::ProceduralBlock => 1600 * 10000 + blockers * 2400 + risk * 2400 + when(!cv, 1800)
            + (if cv {
            0
        } else {
            10000 - stab
        }) * 1200,
        SenateEvent::ReturnedToCalendar => 800 * 10000 + when(
            stage is Stalled || stage is FinalPassage,
            2000,
        ) + (10000 - lead) * 1800 + (10000 - stab) * 1600 + when(!smv && !cv, 1600),
        SenateEvent::Other(_) => 0,
    }
}

/// The score of a candidate event (unit score).
pub open spec fn event_score_spec(event: SenateEvent, salience: int, ctx: LegislativeContext, an: SenateAnalysis) -> int {
    clamp_wide_spec(event_raw(event, salience, ctx, an))
}

pub open spec fn inputs_wf(obj: LegislativeObject, ctx: LegislativeContext, an: SenateAnalysis) -> bool {
    obj.wf() && ctx.wf() && an.wf()
}

fn urgency(ctx: &LegislativeContext) -> (r: i64)
    requires
        ctx.wf(),
    ensures
        r == urgency_spec(*ctx),
        unit(r as int),
{
    let deadline: i64 = match ctx.days_until_deadline {
        Some(d) => if d <= 7 {
            10000
        } else if d <= 21 {
            7800
        } else if d <= 45 {
            4800
        } else {
            1800
        },
        None => 1200,
    };
    clamp_wide(deadline * 6000 + ctx.media_attention * 4000)
}

fn closeness(an: &SenateAnalysis) -> (r: i64)
    requires
        an.wf(),
    ensures
        r == closeness_spec(*an),
        unit(r as int),
{
    let pivots = ratio(an.pivotal_senators.len(), an.total_senators);
    let undecided = ratio(an.undecided_count, an.total_senators);
    clamp_wide(pivots * 6000 + undecided * 4000 + (SCALE - an.coalition_stability) * 2000)
}

fn weight_if(b: bool, weight: i64) -> (r: i64)
    requires
        -10000 <= weight <= 10000,
    ensures
        r == when(b, weight as int),
{
    if b {
        weight * 10000
    } else {
        0
    }
}

fn early_or_stalled_stage(stage: &ProceduralStage) -> (r: bool)
    ensures
        r == early_or_stalled(*stage),
{
    matches!(stage, ProceduralStage::Introduced | ProceduralStage::InCommittee | ProceduralStage::Reported | ProceduralStage::OnCalendar | ProceduralStage::Stalled)
}

/// The score of one candidate event.
fn event_score(event: &SenateEvent, obj: &LegislativeObject, ctx: &LegislativeContext, an: &SenateAnalysis) -> (r: i64)
    requires
        inputs_wf(*obj, *ctx, *an),
    ensures
        r == event_score_spec(*event, obj.salience as int, *ctx, *an),
        unit(r as int),
{
    let urgency = urgency(ctx);
    let pivots = ratio(an.pivotal_senators.len(), an.total_senators);
    let blockers = ratio(an.likely_blockers.len(), an.total_senators);
    let undecideds = ratio(an.undecided_count, an.total_senators);
    let salience = obj.salience;
    let lead = ctx.leadership_priority;
    let stab = an.coalition_stability;
    let risk = an.filibuster_risk;
    let smv = an.simple_majority_viable;
    let cv = an.cloture_viable;
    let stage = &ctx.procedural_stage;
    let raw: i64 = match event {
        SenateEvent::NoMeaningfulMovement => 2000 * 10000 + (10000 - lead) * 2800 + (10000
            - urgency) * 2000 + weight_if(!smv, 1200) + (10000 - stab) * 1200 + weight_if(
            early_or_stalled_stage(stage),
            1800,
        ),
        SenateEvent::LeadershipSignalsAction => 1800 * 10000 + lead * 3000 + salience * 1200
            + urgency * 1000 + weight_if(!smv, 1000) + undecideds * 1000,
        SenateEvent::MotionToProceedAttempted => 1800 * 10000 + weight_if(
            matches!(stage, ProceduralStage::MotionToProceed),
            1800,
        ) + lead * 2000 + stab * 1000 + (10000 - risk) * 1400 + weight_if(smv, 1600),
        SenateEvent::DebateBegins => 1600 * 10000 + weight_if(
            matches!(stage, ProceduralStage::MotionToProceed),
            1200,
        ) + weight_if(smv, 2200) + weight_if(cv, 1800) + stab * 1600 - blockers * 1400,
        SenateEvent::AmendmentFightBegins => 1600 * 10000 + weight_if(
            matches!(stage, ProceduralStage::Debate | ProceduralStage::AmendmentPending),
            1600,
        ) + pivots * 2000 + (10000 - stab) * 1600 + undecideds * 1200 + weight_if(!cv, 800),
        SenateEvent::ClotureFiled => 1800 * 10000 + weight_if(
            matches!(stage, ProceduralStage::Debate | ProceduralStage::AmendmentPending),
            2000,
        ) + lead * 2400 + salience * 1000 + blockers * 1000 + weight_if(!cv, 800),
        SenateEvent::ClotureVoteScheduled => 2400 * 10000 + weight_if(
            matches!(stage, ProceduralStage::ClotureFiled),
            2400,
        ) + lead * 2200 + urgency * 1400 + (if cv {
            800 * 10000
        } else {
            -1200 * 10000
        }),
        SenateEvent::ClotureInvoked => 1200 * 10000 + weight_if(
            matches!(stage, ProceduralStage::ClotureFiled | ProceduralStage::ClotureVote),
            1800,
        ) + weight_if(cv, 3000) + stab * 1800 + (10000 - risk) * 1400,
        SenateEvent::ClotureFails => 1200 * 10000 + weight_if(
            matches!(stage, ProceduralStage::ClotureFiled | ProceduralStage::ClotureVote),
            1600,
        ) + weight_if(!cv, 2800) + risk * 2200 + blockers * 1400,
        SenateEvent::FinalPassageScheduled => 1200 * 10000 + weight_if(
            matches!(stage, ProceduralStage::FinalPassage),
            2000,
        ) + lead * 1800 + weight_if(smv, 1800) + weight_if(cv, 1200) + urgency * 800,
        SenateEvent::FinalPassageSucceeds => 1200 * 10000 + weight_if(
            matches!(stage, ProceduralStage::FinalPassage),
            2000,
        ) + weight_if(smv, 2800) + stab * 2000 + (10000 - blockers) * 800,
        SenateEvent::FinalPassageFails => 1000 * 10000 + weight_if(
            matches!(stage, ProceduralStage::FinalPassage),
            2000,
        ) + weight_if(!smv, 2600) + (10000 - stab) * 1800 + blockers * 1200,
        SenateEvent::NegotiationIntensifies => {
            let close = closeness(an);
            2200 * 10000 + close * 4000 + pivots * 2800 + urgency * 1800 + undecideds * 1600
                + weight_if(!smv || !cv, 1800)
        },
        SenateEvent::ProceduralBlock => 1600 * 10000 + blockers * 2400 + risk * 2400 + weight_if(
            !cv,
            1800,
        ) + (if cv {
            0
        } else {
            10000 - stab
        }) * 1200,
        SenateEvent::ReturnedToCalendar => 800 * 10000 + weight_if(
            matches!(stage, ProceduralStage::Stalled | ProceduralStage::FinalPassage),
            2000,
        ) + (10000 - lead) * 1800 + (10000 - stab) * 1600 + weight_if(!smv && !cv, 1600),
        SenateEvent::Other(_) => 0,
    };
    clamp_wide(raw)
}

/// The reason given for a candidate event.
pub open spec fn event_reason_text(event: SenateEvent) -> Seq<char> {
    match event {
        SenateEvent::NoMeaningfulMovement => "weak coalition pressure and low immediate urgency favor inaction"@,
        SenateEvent::LeadershipSignalsAction => "leadership pressure is building even without a clean formal path"@,
        SenateEvent::MotionToProceedAttempted => "leadership has enough incentive to test floor access"@,
        SenateEvent::DebateBegins => "procedural conditions are good enough to move into floor debate"@,
        SenateEvent::AmendmentFightBegins => "fragile coalition and many pivots make amendment conflict likely"@,
        SenateEvent::ClotureFiled => "leadership pressure and blocker presence favor forcing the process"@,
        SenateEvent::ClotureVoteScheduled => "with cloture already filed, the next meaningful move is the vote itself"@,
        SenateEvent::ClotureInvoked => "stable procedural support makes a successful cloture vote plausible"@,
        SenateEvent::ClotureFails => "blockers and filibuster risk outweigh the cloture path"@,
        SenateEvent::FinalPassageScheduled => "late-stage support and leadership attention point toward scheduling passage"@,
        SenateEvent::FinalPassageSucceeds => "late-stage majority support and stability favor passage"@,
        SenateEvent::FinalPassageFails => "late-stage coalition weakness makes defeat plausible"@,
        SenateEvent::NegotiationIntensifies => "near-threshold numbers and pivotal senators keep bargaining active"@,
        SenateEvent::ProceduralBlock => "rigid blockers and procedural weakness point toward obstruction"@,
        SenateEvent::ReturnedToCalendar => "low momentum and weak coalition coherence favor pulling the bill back"@,
        SenateEvent::Other(value) => "custom event score for "@ + value@,
    }
}

fn event_reason(event: &SenateEvent) -> (r: String)
    ensures
        r@ == event_reason_text(*event),
{
    match event {
        SenateEvent::NoMeaningfulMovement => String::from_str("weak coalition pressure and low immediate urgency favor inaction"),
        SenateEvent::LeadershipSignalsAction => String::from_str("leadership pressure is building even without a clean formal path"),
        SenateEvent::MotionToProceedAttempted => String::from_str("leadership has enough incentive to test floor access"),
        SenateEvent::DebateBegins => String::from_str("procedural conditions are good enough to move into floor debate"),
        SenateEvent::AmendmentFightBegins => String::from_str("fragile coalition and many pivots make amendment conflict likely"),
        SenateEvent::ClotureFiled => String::from_str("leadership pressure and blocker presence favor forcing the process"),
        SenateEvent::ClotureVoteScheduled => String::from_str("with cloture already filed, the next meaningful move is the vote itself"),
        SenateEvent::ClotureInvoked => String::from_str("stable procedural support makes a successful cloture vote plausible"),
        SenateEvent::ClotureFails => String::from_str("blockers and filibuster risk outweigh the cloture path"),
        SenateEvent::FinalPassageScheduled => String::from_str("late-stage support and leadership attention point toward scheduling passage"),
        SenateEvent::FinalPassageSucceeds => String::from_str("late-stage majority support and stability favor passage"),
        SenateEvent::FinalPassageFails => String::from_str("late-stage coalition weakness makes defeat plausible"),
        SenateEvent::NegotiationIntensifies => String::from_str("near-threshold numbers and pivotal senators keep bargaining active"),
        SenateEvent::ProceduralBlock => String::from_str("rigid blockers and procedural weakness point toward obstruction"),
        SenateEvent::ReturnedToCalendar => String::from_str("low momentum and weak coalition coherence favor pulling the bill back"),
        SenateEvent::Other(value) => {
            let mut out = String::from_str("custom event score for ");
            out.append(value.as_str());
            out
        },
    }
}

/// `x` inserted into `s` after every element that scores at least as high.
pub open spec fn insert_desc(s: Seq<EventScoreView>, x: EventScoreView) -> Seq<EventScoreView>
    decreases s.len(),
{
    if s.len() == 0 {
        seq![x]
    } else if s.last().score >= x.score {
        s.push(x)
    } else {
        insert_desc(s.drop_last(), x).push(s.last())
    }
}

/// Stable sort by descending score, written as insertion sort; it is the one
/// sequence that is sorted by descending score and holds the events of each
/// score in their input order (`lemma_sort_desc`, `lemma_sort_desc_stable`,
/// `lemma_stably_sorted_unique`).
pub open spec fn sort_desc(s: Seq<EventScoreView>) -> Seq<EventScoreView>
    decreases s.len(),
{
    if s.len() == 0 {
        seq![]
    } else {
        insert_desc(sort_desc(s.drop_last()), s.last())
    }
}

pub open spec fn score_view_of(event: SenateEvent, salience: int, ctx: LegislativeContext, an: SenateAnalysis) -> EventScoreView {
    EventScoreView {
        event: event,
        score: event_score_spec(event, salience, ctx, an),
        reason: event_reason_text(event),
    }
}

/// The scored candidates for the object's stage, before sorting.
pub open spec fn unsorted_candidates(obj: LegislativeObject, ctx: LegislativeContext, an: SenateAnalysis) -> Seq<EventScoreView> {
    stage_candidates(ctx.procedural_stage).map_values(
        |e: SenateEvent| score_view_of(e, obj.salience as int, ctx, an),
    )
}

/// The scored candidates, best first.
pub open spec fn scored_candidates(obj: LegislativeObject, ctx: LegislativeContext, an: SenateAnalysis) -> Seq<EventScoreView> {
    sort_desc(unsorted_candidates(obj, ctx, an))
}

proof fn lemma_insert_at(s: Seq<EventScoreView>, x: EventScoreView, j: int)
    requires
        0 <= j <= s.len(),
        forall|k: int| j <= k < s.len() ==> s[k].score < x.score,
        j == 0 || s[j - 1].score >= x.score,
    ensures
        insert_desc(s, x) == s.subrange(0, j).push(x) + s.subrange(j, s.len() as int),
    decreases s.len(),
{
    if s.len() == 0 {
        assert(s.subrange(0, j).push(x) + s.subrange(j, s.len() as int) =~= seq![x]);
    } else if s.last().score >= x.score {
        assert(j == s.len());
        assert(s.subrange(0, j).push(x) + s.subrange(j, s.len() as int) =~= s.push(x));
    } else {
        let d = s.drop_last();
        assert(j < s.len());
        lemma_insert_at(d, x, j);
        assert(d.subrange(0, j).push(x) + d.subrange(j, d.len() as int) + seq![s.last()] =~= s.subrange(
            0,
            j,
        ).push(x) + s.subrange(j, s.len() as int));
    }
}

/// Where `insert_desc` places `x`.
pub open spec fn insert_pos(s: Seq<EventScoreView>, x: EventScoreView) -> int
    decreases s.len(),
{
    if s.len() == 0 {
        0
    } else if s.last().score >= x.score {
        s.len() as int
    } else {
        insert_pos(s.drop_last(), x)
    }
}

proof fn lemma_insert_pos(s: Seq<EventScoreView>, x: EventScoreView)
    ensures
        0 <= insert_pos(s, x) <= s.len(),
        forall|k: int| insert_pos(s, x) <= k < s.len() ==> s[k].score < x.score,
        insert_pos(s, x) == 0 || s[insert_pos(s, x) - 1].score >= x.score,
    decreases s.len(),
{
    if s.len() > 0 && s.last().score < x.score {
        let d = s.drop_last();
        lemma_insert_pos(d, x);
        assert forall|k: int| insert_pos(s, x) <= k < s.len() implies s[k].score < x.score by {
            if k < d.len() {
                assert(s[k] == d[k]);
            }
        }
        if insert_pos(s, x) > 0 {
            assert(s[insert_pos(s, x) - 1] == d[insert_pos(s, x) - 1]);
        }
    }
}

/// Inserting into a descending sequence keeps it descending.
pub proof fn lemma_insert_keeps_descending(s: Seq<EventScoreView>, x: EventScoreView)
    requires
        views_descending(s),
    ensures
        views_descending(insert_desc(s, x)),
        insert_desc(s, x).len() == s.len() + 1,
    decreases s.len(),
{
    lemma_insert_pos(s, x);
    let j = insert_pos(s, x);
    lemma_insert_at(s, x, j);
    let r = s.subrange(0, j).push(x) + s.subrange(j, s.len() as int);
    assert forall|a: int, b: int| 0 <= a < b < r.len() implies r[a].score >= r[b].score by {
        if b < j {
            assert(r[a] == s[a] && r[b] == s[b]);
        } else if b == j {
            assert(r[b] == x);
            assert(r[a] == s[a]);
            assert(s[a].score >= s[j - 1].score);
        } else if a == j {
            assert(r[a] == x);
            assert(r[b] == s[b - 1]);
        } else if a < j {
            assert(r[a] == s[a] && r[b] == s[b - 1]);
        } else {
            assert(r[a] == s[a - 1] && r[b] == s[b - 1]);
        }
    }
}

pub proof fn lemma_sort_desc(s: Seq<EventScoreView>)
    ensures
        views_descending(sort_desc(s)),
        sort_desc(s).len() == s.len(),
    decreases s.len(),
{
    if s.len() > 0 {
        lemma_sort_desc(s.drop_last());
        lemma_insert_keeps_descending(sort_desc(s.drop_last()), s.last());
    }
}

/// The scored events with score `v`.
pub open spec fn score_equals(v: int) -> spec_fn(EventScoreView) -> bool {
    |p: EventScoreView| p.score == v
}

proof fn lemma_insert_desc_keeps(t: Seq<EventScoreView>, x: EventScoreView)
    requires
        views_descending(t),
    ensures
        insert_desc(t, x).to_multiset() =~= t.to_multiset().insert(x),
        forall|v: int|
            #[trigger] insert_desc(t, x).filter(score_equals(v)) == if x.score == v {
                t.filter(score_equals(v)).push(x)
            } else {
                t.filter(score_equals(v))
            },
{
    broadcast use vstd::seq_lib::group_to_multiset_ensures, vstd::seq_lib::lemma_multiset_commutative;
    lemma_insert_pos(t, x);
    let j = insert_pos(t, x);
    lemma_insert_at(t, x, j);
    let a = t.subrange(0, j);
    let b = t.subrange(j, t.len() as int);
    assert(t =~= a + b);
    assert(insert_desc(t, x) == a.push(x) + b);
    assert(insert_desc(t, x).to_multiset() =~= a.push(x).to_multiset().add(b.to_multiset()));
    assert(t.to_multiset() =~= a.to_multiset().add(b.to_multiset()));
    assert forall|v: int|
        #[trigger] insert_desc(t, x).filter(score_equals(v)) == if x.score == v {
            t.filter(score_equals(v)).push(x)
        } else {
            t.filter(score_equals(v))
        } by {
        let p = score_equals(v);
        Seq::filter_distributes_over_add(a.push(x), b, p);
        Seq::filter_distributes_over_add(a, b, p);
        crate::util::seqs::lemma_filter_push(a, x, p);
        if x.score == v {
            assert forall|k: int| 0 <= k < b.len() implies !p(#[trigger] b[k]) by {
                assert(b[k] == t[j + k]);
            }
            crate::util::seqs::lemma_filter_none(b, p);
            assert(a.filter(p) + b.filter(p) =~= a.filter(p));
            assert(a.filter(p).push(x) + b.filter(p) =~= a.filter(p).push(x));
        }
    }
}

/// Sorting is a stable sort: it keeps the scored events (as a multiset),
/// and the events of any one score come out in their input order.
pub proof fn lemma_sort_desc_stable(s: Seq<EventScoreView>)
    ensures
        sort_desc(s).to_multiset() =~= s.to_multiset(),
        forall|v: int| #[trigger] sort_desc(s).filter(score_equals(v)) == s.filter(score_equals(v)),
    decreases s.len(),
{
    broadcast use vstd::seq_lib::group_to_multiset_ensures;
    if s.len() == 0 {
        assert forall|v: int| #[trigger] sort_desc(s).filter(score_equals(v)) == s.filter(score_equals(v)) by {
            assert(sort_desc(s) =~= s);
        }
    } else {
        let d = s.drop_last();
        let x = s.last();
        assert(d.push(x) =~= s);
        lemma_sort_desc_stable(d);
        lemma_sort_desc(d);
        lemma_insert_desc_keeps(sort_desc(d), x);
        assert forall|v: int| #[trigger] sort_desc(s).filter(score_equals(v)) == s.filter(score_equals(v)) by {
            crate::util::seqs::lemma_filter_push(d, x, score_equals(v));
            assert(sort_desc(d).filter(score_equals(v)) == d.filter(score_equals(v)));
            assert(insert_desc(sort_desc(d), x).filter(score_equals(v)) == if x.score == v {
                sort_desc(d).filter(score_equals(v)).push(x)
            } else {
                sort_desc(d).filter(score_equals(v))
            });
        }
    }
}

/// `r` is `s` stably sorted by descending score: sorted by descending score,
/// holding the events of each score in their order in `s`.
pub open spec fn stably_sorted_desc(r: Seq<EventScoreView>, s: Seq<EventScoreView>) -> bool {
    &&& views_descending(r)
    &&& forall|v: int| #[trigger] r.filter(score_equals(v)) == s.filter(score_equals(v))
}

/// A stable descending sort of scored events has one outcome, `sort_desc`.
pub proof fn lemma_stably_sorted_unique(r: Seq<EventScoreView>, s: Seq<EventScoreView>)
    requires
        stably_sorted_desc(r, s),
    ensures
        r == sort_desc(s),
{
    lemma_sort_desc(s);
    lemma_sort_desc_stable(s);
    lemma_same_sorted_groups(r, sort_desc(s));
}

proof fn lemma_same_sorted_groups(r1: Seq<EventScoreView>, r2: Seq<EventScoreView>)
    requires
        views_descending(r1),
        views_descending(r2),
        forall|v: int| #[trigger] r1.filter(score_equals(v)) == r2.filter(score_equals(v)),
    ensures
        r1 == r2,
    decreases r1.len() + r2.len(),
{
    if r1.len() == 0 && r2.len() == 0 {
        assert(r1 =~= r2);
    } else if r1.len() == 0 {
        let y = r2.last();
        assert(r2.drop_last().push(y) =~= r2);
        crate::util::seqs::lemma_filter_push(r2.drop_last(), y, score_equals(y.score));
        assert(r1.filter(score_equals(y.score)) == r2.filter(score_equals(y.score)));
        crate::util::seqs::lemma_filter_none(r1, score_equals(y.score));
        assert(r2.filter(score_equals(y.score)).len() > 0);
    } else if r2.len() == 0 {
        let x = r1.last();
        assert(r1.drop_last().push(x) =~= r1);
        crate::util::seqs::lemma_filter_push(r1.drop_last(), x, score_equals(x.score));
        assert(r1.filter(score_equals(x.score)) == r2.filter(score_equals(x.score)));
        crate::util::seqs::lemma_filter_none(r2, score_equals(x.score));
    } else {
        let x = r1.last();
        let y = r2.last();
        let d1 = r1.drop_last();
        let d2 = r2.drop_last();
        assert(d1.push(x) =~= r1);
        assert(d2.push(y) =~= r2);
        crate::util::seqs::lemma_filter_push(d1, x, score_equals(x.score));
        crate::util::seqs::lemma_filter_push(d2, y, score_equals(y.score));
        crate::util::seqs::lemma_filter_push(d1, x, score_equals(y.score));
        crate::util::seqs::lemma_filter_push(d2, y, score_equals(x.score));
        // x occurs in r2 and y in r1, so neither score is below the other.
        assert(r1.filter(score_equals(x.score)) == r2.filter(score_equals(x.score)));
        assert(r1.filter(score_equals(y.score)) == r2.filter(score_equals(y.score)));
        if y.score != x.score {
            assert(r2.filter(score_equals(x.score)).len() > 0);
            if forall|m: int| 0 <= m < r2.len() ==> !score_equals(x.score)(#[trigger] r2[m]) {
                crate::util::seqs::lemma_filter_none(r2, score_equals(x.score));
            }
            let m = choose|m: int| 0 <= m < r2.len() && score_equals(x.score)(#[trigger] r2[m]);
            assert(r2[m].score >= r2[r2.len() - 1].score);
            assert(r1.filter(score_equals(y.score)).len() > 0);
            if forall|k: int| 0 <= k < r1.len() ==> !score_equals(y.score)(#[trigger] r1[k]) {
                crate::util::seqs::lemma_filter_none(r1, score_equals(y.score));
            }
            let k = choose|k: int| 0 <= k < r1.len() && score_equals(y.score)(#[trigger] r1[k]);
            assert(r1[k].score >= r1[r1.len() - 1].score);
            assert(false);
        }
        assert(y.score == x.score);
        assert(r1.filter(score_equals(x.score)) == d1.filter(score_equals(x.score)).push(x));
        assert(r2.filter(score_equals(x.score)) == d2.filter(score_equals(x.score)).push(y));
        assert(r1.filter(score_equals(x.score)).last() == x);
        assert(r2.filter(score_equals(x.score)).last() == y);
        assert(x == y);
        assert forall|v: int| #[trigger] d1.filter(score_equals(v)) == d2.filter(score_equals(v)) by {
            crate::util::seqs::lemma_filter_push(d1, x, score_equals(v));
            crate::util::seqs::lemma_filter_push(d2, y, score_equals(v));
            assert(r1.filter(score_equals(v)) == r2.filter(score_equals(v)));
            if x.score == v {
                assert(d1.filter(score_equals(v)) =~= r1.filter(score_equals(v)).drop_last());
                assert(d2.filter(score_equals(v)) =~= r2.filter(score_equals(v)).drop_last());
            }
        }
        assert(views_descending(d1)) by {
            assert forall|a: int, b: int| 0 <= a < b < d1.len() implies d1[a].score >= d1[b].score by {
                assert(d1[a] == r1[a] && d1[b] == r1[b]);
            }
        }
        assert(views_descending(d2)) by {
            assert forall|a: int, b: int| 0 <= a < b < d2.len() implies d2[a].score >= d2[b].score by {
                assert(d2[a] == r2[a] && d2[b] == r2[b]);
            }
        }
        lemma_same_sorted_groups(d1, d2);
    }
}

/// Inserts `x` into the descending-sorted `out` after every element that
/// scores at least as high.
fn insert_sorted(out: &mut Vec<EventScore>, x: EventScore)
    requires
        views_descending(score_views(old(out)@)),
    ensures
        score_views(final(out)@) == insert_desc(score_views(old(out)@), x@),
        views_descending(score_views(final(out)@)),
{
    let ghost s = score_views(out@);
    let mut j: usize = out.len();
    while j > 0 && out[j - 1].score < x.score
        invariant
            s == score_views(out@),
            0 <= j <= out@.len(),
            forall|k: int| j <= k < s.len() ==> s[k].score < x@.score,
        decreases j,
    {
        j = j - 1;
    }
    proof {
        lemma_insert_at(s, x@, j as int);
        lemma_insert_keeps_descending(s, x@);
    }
    out.insert(j, x);
    proof {
        assert(score_views(out@) =~= s.subrange(0, j as int).push(x@) + s.subrange(
            j as int,
            s.len() as int,
        ));
    }
}

/// Scores every candidate and sorts them best first (stable for ties).
fn score_candidates(
    candidates: &Vec<SenateEvent>,
    obj: &LegislativeObject,
    ctx: &LegislativeContext,
    an: &SenateAnalysis,
) -> (r: Vec<EventScore>)
    requires
        inputs_wf(*obj, *ctx, *an),
    ensures
        score_views(r@) == sort_desc(
            candidates@.map_values(|e: SenateEvent| score_view_of(e, obj.salience as int, *ctx, *an)),
        ),
        views_descending(score_views(r@)),
        forall|i: int| 0 <= i < r@.len() ==> unit(#[trigger] r@[i].score as int),
{
    let ghost all = candidates@.map_values(
        |e: SenateEvent| score_view_of(e, obj.salience as int, *ctx, *an),
    );
    let mut out: Vec<EventScore> = Vec::new();
    let mut i: usize = 0;
    while i < candidates.len()
        invariant
            inputs_wf(*obj, *ctx, *an),
            i <= candidates@.len(),
            all == candidates@.map_values(
                |e: SenateEvent| score_view_of(e, obj.salience as int, *ctx, *an),
            ),
            score_views(out@) == sort_desc(all.subrange(0, i as int)),
            views_descending(score_views(out@)),
        decreases candidates.len() - i,
    {
        let event = &candidates[i];
        let x = EventScore {
            event: event.copy(),
            score: event_score(event, obj, ctx, an),
            reason: event_reason(event),
        };
        proof {
            assert(all.subrange(0, i + 1).drop_last() =~= all.subrange(0, i as int));
            assert(x@ == all[i as int]);
        }
        insert_sorted(&mut out, x);
        i = i + 1;
    }
    proof {
        assert(all.subrange(0, candidates@.len() as int) =~= all);
        assert forall|i: int| 0 <= i < out@.len() implies unit(#[trigger] out@[i].score as int) by {
            lemma_sorted_scores_unit(all);
            assert(score_views(out@)[i].score == out@[i].score);
        }
    }
    out
}

proof fn lemma_insert_len(s: Seq<EventScoreView>, x: EventScoreView)
    ensures
        insert_desc(s, x).len() == s.len() + 1,
    decreases s.len(),
{
    if s.len() > 0 && s.last().score < x.score {
        lemma_insert_len(s.drop_last(), x);
    }
}

proof fn lemma_insert_members(s: Seq<EventScoreView>, x: EventScoreView, k: int)
    requires
        0 <= k < insert_desc(s, x).len(),
    ensures
        insert_desc(s, x)[k] == x || exists|m: int| 0 <= m < s.len() && insert_desc(s, x)[k] == s[m],
        insert_desc(s, x).len() == s.len() + 1,
    decreases s.len(),
{
    if s.len() == 0 {
    } else if s.last().score >= x.score {
        if k < s.len() {
            assert(insert_desc(s, x)[k] == s[k]);
        }
    } else {
        let d = s.drop_last();
        lemma_insert_len(d, x);
        if k < d.len() + 1 {
            lemma_insert_members(d, x, k);
            if insert_desc(d, x)[k] != x {
                let m = choose|m: int| 0 <= m < d.len() && insert_desc(d, x)[k] == d[m];
                assert(s[m] == d[m]);
            }
        } else {
            lemma_insert_members(d, x, 0);
            assert(insert_desc(s, x)[k] == s[s.len() - 1]);
        }
    }
}

/// Every element of a sorted sequence comes from the input.
proof fn lemma_sort_members(s: Seq<EventScoreView>, k: int)
    requires
        0 <= k < sort_desc(s).len(),
    ensures
        exists|m: int| 0 <= m < s.len() && sort_desc(s)[k] == s[m],
    decreases s.len(),
{
    lemma_sort_desc(s);
    if s.len() > 0 {
        let d = s.drop_last();
        lemma_sort_desc(d);
        lemma_insert_members(sort_desc(d), s.last(), k);
        if sort_desc(s)[k] == s.last() {
            assert(sort_desc(s)[k] == s[s.len() - 1]);
        } else {
            let m = choose|m: int| 0 <= m < sort_desc(d).len() && sort_desc(s)[k] == sort_desc(d)[m];
            lemma_sort_members(d, m);
            let m2 = choose|m2: int| 0 <= m2 < d.len() && sort_desc(d)[m] == d[m2];
            assert(s[m2] == d[m2]);
        }
    }
}

proof fn lemma_sorted_scores_unit(all: Seq<EventScoreView>)
    requires
        forall|i: int| 0 <= i < all.len() ==> unit(#[trigger] all[i].score),
    ensures
        forall|k: int| 0 <= k < sort_desc(all).len() ==> unit(#[trigger] sort_desc(all)[k].score),
{
    assert forall|k: int| 0 <= k < sort_desc(all).len() implies unit(#[trigger] sort_desc(all)[k].score) by {
        lemma_sort_members(all, k);
    }
}

/// Confidence of a prediction from the two best scores and the analysis.
pub open spec fn confidence_spec(top: int, second: int, an: SenateAnalysis) -> int {
    let gap = if top > second {
        top - second
    } else {
        0
    };
    let score_gap = clamp_wide_spec(gap * 16000);
    let clarity: int = if an.simple_majority_viable == an.cloture_viable {
        1400
    } else {
        400
    };
    clamp_wide_spec(
        3600 * 10000 + score_gap * 10000 + clarity * 10000 + an.coalition_stability * 1600
            - undecided_ratio(an) * 1800,
    )
}

fn derive_confidence(top: i64, second: i64, an: &SenateAnalysis) -> (r: i64)
    requires
        an.wf(),
        unit(top as int),
        unit(second as int),
    ensures
        r == confidence_spec(top as int, second as int, *an),
        unit(r as int),
{
    let gap = if top > second {
        top - second
    } else {
        0
    };
    let score_gap = clamp_wide(gap * 16000);
    let clarity: i64 = if an.simple_majority_viable == an.cloture_viable {
        1400
    } else {
        400
    };
    let undecided = ratio(an.undecided_count, an.total_senators);
    clamp_wide(
        3600 * 10000 + score_gap * 10000 + clarity * 10000 + an.coalition_stability * 1600
            - undecided * 1800,
    )
}

/// The reasons given for a prediction, in order.
pub open spec fn top_reasons_spec(predicted: SenateEvent, ctx: LegislativeContext, an: SenateAnalysis) -> Seq<Seq<char>> {
    let base = seq![
        event_reason_text(predicted),
        if an.simple_majority_viable {
            "simple-majority math currently favors action"@
        } else {
            "simple-majority support is not yet locked in"@
        },
        if an.cloture_viable {
            "procedural coalition is strong enough to keep floor options open"@
        } else {
            "procedural coalition is weak enough to constrain floor movement"@
        },
    ];
    let a = if an.filibuster_risk >= 6000 {
        base.push("filibuster risk remains elevated because blockers are meaningful"@)
    } else {
        base
    };
    let b = if ctx.leadership_priority >= 7000 {
        a.push("high leadership priority raises the odds of a consequential next move"@)
    } else {
        a
    };
    if urgency_spec(ctx) >= 6000 {
        b.push("deadline and media pressure reduce the odds of passive drift"@)
    } else {
        b
    }
}

fn build_top_reasons(predicted: &SenateEvent, ctx: &LegislativeContext, an: &SenateAnalysis) -> (r: Vec<String>)
    requires
        ctx.wf(),
        an.wf(),
    ensures
        string_views(r@) == top_reasons_spec(*predicted, *ctx, *an),
{
    let mut reasons: Vec<String> = Vec::new();
    reasons.push(event_reason(predicted));
    reasons.push(
        if an.simple_majority_viable {
            String::from_str("simple-majority math currently favors action")
        } else {
            String::from_str("simple-majority support is not yet locked in")
        },
    );
    reasons.push(
        if an.cloture_viable {
            String::from_str("procedural coalition is strong enough to keep floor options open")
        } else {
            String::from_str("procedural coalition is weak enough to constrain floor movement")
        },
    );
    if an.filibuster_risk >= 6000 {
        reasons.push(String::from_str("filibuster risk remains elevated because blockers are meaningful"));
    }
    if ctx.leadership_priority >= 7000 {
        reasons.push(String::from_str("high leadership priority raises the odds of a consequential next move"));
    }
    if urgency(ctx) >= 6000 {
        reasons.push(String::from_str("deadline and media pressure reduce the odds of passive drift"));
    }
    proof {
        assert(string_views(reasons@) =~= top_reasons_spec(*predicted, *ctx, *an));
    }
    reasons
}

/// When a prediction is produced.
pub open spec fn prediction_ok(obj: LegislativeObject, ctx: LegislativeContext, an: SenateAnalysis) -> bool {
    inputs_wf(obj, ctx, an) && an.object_id@ == obj.object_id@
}

/// The prediction `predict_next_event` makes from an analysis.
pub open spec fn prediction_matches(p: NextEventPrediction, obj: LegislativeObject, ctx: LegislativeContext, an: SenateAnalysis) -> bool {
    let sorted = scored_candidates(obj, ctx, an);
    let n = if sorted.len() < 5 {
        sorted.len() as int
    } else {
        5
    };
    &&& sorted.len() >= 3
    &&& p.object_id@ == obj.object_id@
    &&& p.current_stage == ctx.procedural_stage
    &&& p.predicted_event == sorted[0].event
    &&& p.confidence == confidence_spec(sorted[0].score, sorted[1].score, an)
    &&& score_views(p.alternative_events@) == sorted.subrange(1, n)
    &&& string_views(p.top_reasons@) == top_reasons_spec(sorted[0].event, ctx, an)
    &&& p.simple_majority_viable == an.simple_majority_viable
    &&& p.cloture_viable == an.cloture_viable
    &&& p.coalition_stability == an.coalition_stability
    &&& p.filibuster_risk == an.filibuster_risk
    &&& p.wf()
}

/// Predicts the next consequential event for a legislative object: scores the
/// stage's candidate events, takes the best, and keeps up to four alternatives
/// in descending score order.
pub fn predict_next_event(
    legislative_object: &LegislativeObject,
    context: &LegislativeContext,
    analysis: &SenateAnalysis,
) -> (r: Result<NextEventPrediction, SenateSimError>)
    ensures
        r is Ok <==> prediction_ok(*legislative_object, *context, *analysis),
        inputs_wf(*legislative_object, *context, *analysis) && analysis.object_id@ != legislative_object.object_id@
            ==> (r matches Err(SenateSimError::Validation { field, .. }) && field@ == "next_event_prediction.object_id"@),
        r matches Ok(p) ==> prediction_matches(p, *legislative_object, *context, *analysis),
{
    legislative_object.validate()?;
    context.validate()?;
    analysis.validate()?;
    if analysis.object_id != legislative_object.object_id {
        return Err(SenateSimError::validation("next_event_prediction.object_id", "analysis object_id must match legislative object"));
    }
    let candidates = candidate_events_for_stage(&context.procedural_stage);
    let scored = score_candidates(&candidates, legislative_object, context, analysis);
    proof {
        lemma_sort_desc(unsorted_candidates(*legislative_object, *context, *analysis));
        assert(score_views(scored@).len() == scored@.len());
    }
    let predicted_event = scored[0].event.copy();
    let top_score = scored[0].score;
    let second_score = scored[1].score;
    let confidence = derive_confidence(top_score, second_score, analysis);
    let top_reasons = build_top_reasons(&predicted_event, context, analysis);
    let ghost sv = score_views(scored@);
    let end: usize = if scored.len() < 5 {
        scored.len()
    } else {
        5
    };
    let mut alternatives: Vec<EventScore> = Vec::new();
    let mut i: usize = 1;
    while i < end
        invariant
            1 <= i <= end,
            end <= scored@.len(),
            sv == score_views(scored@),
            score_views(alternatives@) == sv.subrange(1, i as int),
        decreases end - i,
    {
        let ghost before = alternatives@;
        alternatives.push(scored[i].copy());
        proof {
            assert(alternatives@ == before.push(scored@[i as int]));
            assert(sv[i as int] == scored@[i as int]@);
            assert(score_views(alternatives@) =~= score_views(before).push(sv[i as int]));
            assert(score_views(alternatives@) =~= sv.subrange(1, i + 1));
        }
        i = i + 1;
    }
    let prediction = NextEventPrediction {
        object_id: legislative_object.object_id.clone(),
        current_stage: context.procedural_stage.copy(),
        predicted_event,
        confidence,
        alternative_events: alternatives,
        top_reasons,
        simple_majority_viable: analysis.simple_majority_viable,
        cloture_viable: analysis.cloture_viable,
        coalition_stability: analysis.coalition_stability,
        filibuster_risk: analysis.filibuster_risk,
    };
    proof {
        let alts = prediction.alternative_events@;
        assert forall|i: int| 0 <= i < alts.len() implies unit(#[trigger] alts[i].score as int) by {
            assert(score_views(alts)[i] == sv[i + 1]);
            assert(sv[i + 1].score == scored@[i + 1].score);
        }
        assert forall|i: int, j: int| 0 <= i < j < alts.len() implies alts[i].score >= alts[j].score by {
            assert(score_views(alts)[i] == sv[i + 1]);
            assert(score_views(alts)[j] == sv[j + 1]);
        }
    }
    prediction.validate()?;
    Ok(prediction)
}

/// Each stage's candidate events hold the ways forward and back from it:
/// before the floor, a motion to proceed; at the motion to proceed, debate
/// beginning and a procedural block; in debate, an amendment fight and a
/// cloture filing; with an amendment pending, the fight and a cloture filing;
/// at a cloture stage, cloture invoked and cloture failing; at final passage,
/// passage succeeding and failing; when stalled or in conference, a return to
/// the calendar. Every stage can see negotiation intensify, and no event is
/// listed twice.
pub proof fn law_stage_candidates_hold_the_next_steps(stage: ProceduralStage)
    ensures
        stage_candidates(stage).contains(SenateEvent::NegotiationIntensifies),
        forall|i: int, j: int|
            0 <= i < j < stage_candidates(stage).len() ==> stage_candidates(stage)[i] != stage_candidates(stage)[j],
        (stage is Introduced || stage is InCommittee || stage is Reported || stage is OnCalendar)
            ==> stage_candidates(stage).contains(SenateEvent::MotionToProceedAttempted),
        stage is MotionToProceed ==> stage_candidates(stage).contains(SenateEvent::DebateBegins)
            && stage_candidates(stage).contains(SenateEvent::MotionToProceedAttempted)
            && stage_candidates(stage).contains(SenateEvent::ProceduralBlock),
        stage is Debate ==> stage_candidates(stage).contains(SenateEvent::AmendmentFightBegins)
            && stage_candidates(stage).contains(SenateEvent::ClotureFiled)
            && stage_candidates(stage).contains(SenateEvent::ProceduralBlock),
        stage is AmendmentPending ==> stage_candidates(stage).contains(SenateEvent::AmendmentFightBegins)
            && stage_candidates(stage).contains(SenateEvent::ClotureFiled),
        (stage is ClotureFiled || stage is ClotureVote) ==> stage_candidates(stage).contains(SenateEvent::ClotureInvoked)
            && stage_candidates(stage).contains(SenateEvent::ClotureFails),
        stage is FinalPassage ==> stage_candidates(stage).contains(SenateEvent::FinalPassageSucceeds)
            && stage_candidates(stage).contains(SenateEvent::FinalPassageFails),
        (stage is Stalled || stage is Conference) ==> stage_candidates(stage).contains(SenateEvent::ReturnedToCalendar),
{
    let c = stage_candidates(stage);
    match stage {
        ProceduralStage::Introduced | ProceduralStage::InCommittee | ProceduralStage::Reported
        | ProceduralStage::OnCalendar => {
            assert(c[2] == SenateEvent::NegotiationIntensifies);
            assert(c[3] == SenateEvent::MotionToProceedAttempted);
        },
        ProceduralStage::MotionToProceed => {
            assert(c[0] == SenateEvent::MotionToProceedAttempted);
            assert(c[1] == SenateEvent::DebateBegins);
            assert(c[2] == SenateEvent::ProceduralBlock);
            assert(c[4] == SenateEvent::NegotiationIntensifies);
        },
        ProceduralStage::Debate => {
            assert(c[0] == SenateEvent::AmendmentFightBegins);
            assert(c[1] == SenateEvent::ClotureFiled);
            assert(c[2] == SenateEvent::NegotiationIntensifies);
            assert(c[3] == SenateEvent::ProceduralBlock);
        },
        ProceduralStage::AmendmentPending => {
            assert(c[0] == SenateEvent::AmendmentFightBegins);
            assert(c[1] == SenateEvent::NegotiationIntensifies);
            assert(c[2] == SenateEvent::ClotureFiled);
        },
        ProceduralStage::ClotureFiled => {
            assert(c[1] == SenateEvent::ClotureInvoked);
            assert(c[2] == SenateEvent::ClotureFails);
            assert(c[3] == SenateEvent::NegotiationIntensifies);
        },
        ProceduralStage::ClotureVote => {
            assert(c[0] == SenateEvent::ClotureInvoked);
            assert(c[1] == SenateEvent::ClotureFails);
            assert(c[2] == SenateEvent::NegotiationIntensifies);
        },
        ProceduralStage::FinalPassage => {
            assert(c[1] == SenateEvent::FinalPassageSucceeds);
            assert(c[2] == SenateEvent::FinalPassageFails);
            assert(c[3] == SenateEvent::NegotiationIntensifies);
        },
        ProceduralStage::Stalled => {
            assert(c[2] == SenateEvent::NegotiationIntensifies);
            assert(c[3] == SenateEvent::ReturnedToCalendar);
        },
        ProceduralStage::Conference => {
            assert(c[0] == SenateEvent::NegotiationIntensifies);
            assert(c[3] == SenateEvent::ReturnedToCalendar);
        },
        ProceduralStage::Other(_) => {
            assert(c[0] == SenateEvent::NegotiationIntensifies);
        },
    }
}

} // verus!
