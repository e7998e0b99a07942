//! Backtesting: replays a prediction made at a snapshot against the next
//! action that actually followed.

use vstd::prelude::*;
use crate::analysis::chamber::{analysis_matches, analyze_chamber};
use crate::analysis::transition::{predict_next_event, prediction_matches};
use crate::derive::StanceDerivationMode;
use crate::eval::align::{align_action_to_senate_event, align_spec, is_consequential_action, is_consequential_spec};
use crate::derive::stance::{derive_stance_with_mode, stage_debug_text, stage_text, stance_for_mode};
use crate::eval::runner::{lemma_object_index, object_index_from, predictable};
use crate::ingest::snapshot::{snapshot_to_contexts, snapshot_to_legislative_objects};
use crate::model::analysis::SenateAnalysis;
use crate::model::context::LegislativeContext;
use crate::model::error::SenateSimError;
use crate::model::evaluation::BacktestResult;
use crate::model::events::{NextEventPrediction, SenateEvent};
use crate::model::legislative::LegislativeObject;
use crate::model::records::{NormalizedActionCategory, NormalizedActionRecord};
use crate::model::senator::Senator;
use crate::model::snapshot::DataSnapshot;
use crate::model::stance::SenatorStance;
use crate::util::calendar::{iso_date_text, CalendarDate};
use crate::util::text::string_views;

verus! {

/// The action category an event shows up as.
pub open spec fn event_category(e: SenateEvent) -> NormalizedActionCategory {
    match e {
        SenateEvent::MotionToProceedAttempted => NormalizedActionCategory::MotionToProceed,
        SenateEvent::DebateBegins => NormalizedActionCategory::Debate,
        SenateEvent::AmendmentFightBegins => NormalizedActionCategory::Amendment,
        SenateEvent::ClotureFiled | SenateEvent::ClotureVoteScheduled | SenateEvent::ClotureInvoked
        | SenateEvent::ClotureFails => NormalizedActionCategory::Cloture,
        SenateEvent::FinalPassageScheduled | SenateEvent::FinalPassageSucceeds
        | SenateEvent::FinalPassageFails => NormalizedActionCategory::Passage,
        SenateEvent::NoMeaningfulMovement | SenateEvent::ProceduralBlock => NormalizedActionCategory::Stall,
        SenateEvent::LeadershipSignalsAction | SenateEvent::NegotiationIntensifies
        | SenateEvent::ReturnedToCalendar | SenateEvent::Other(_) => NormalizedActionCategory::Other,
    }
}

/// The action category a predicted event would be recorded as.
pub fn map_event_to_category(event: &SenateEvent) -> (r: NormalizedActionCategory)
    ensures
        r == event_category(*event),
{
    match event {
        SenateEvent::MotionToProceedAttempted => NormalizedActionCategory::MotionToProceed,
        SenateEvent::DebateBegins => NormalizedActionCategory::Debate,
        SenateEvent::AmendmentFightBegins => NormalizedActionCategory::Amendment,
        SenateEvent::ClotureFiled | SenateEvent::ClotureVoteScheduled | SenateEvent::ClotureInvoked
        | SenateEvent::ClotureFails => NormalizedActionCategory::Cloture,
        SenateEvent::FinalPassageScheduled | SenateEvent::FinalPassageSucceeds
        | SenateEvent::FinalPassageFails => NormalizedActionCategory::Passage,
        SenateEvent::NoMeaningfulMovement | SenateEvent::ProceduralBlock => NormalizedActionCategory::Stall,
        SenateEvent::LeadershipSignalsAction | SenateEvent::NegotiationIntensifies
        | SenateEvent::ReturnedToCalendar | SenateEvent::Other(_) => NormalizedActionCategory::Other,
    }
}

pub open spec fn category_text(c: NormalizedActionCategory) -> Seq<char> {
    match c {
        NormalizedActionCategory::Introduced => "Introduced"@,
        NormalizedActionCategory::Referred => "Referred"@,
        NormalizedActionCategory::Reported => "Reported"@,
        NormalizedActionCategory::MotionToProceed => "MotionToProceed"@,
        NormalizedActionCategory::Debate => "Debate"@,
        NormalizedActionCategory::Amendment => "Amendment"@,
        NormalizedActionCategory::Cloture => "Cloture"@,
        NormalizedActionCategory::Passage => "Passage"@,
        NormalizedActionCategory::Stall => "Stall"@,
        NormalizedActionCategory::Other => "Other"@,
    }
}

fn category_name(c: NormalizedActionCategory) -> (r: &'static str)
    ensures
        r@ == category_text(c),
{
    match c {
        NormalizedActionCategory::Introduced => "Introduced",
        NormalizedActionCategory::Referred => "Referred",
        NormalizedActionCategory::Reported => "Reported",
        NormalizedActionCategory::MotionToProceed => "MotionToProceed",
        NormalizedActionCategory::Debate => "Debate",
        NormalizedActionCategory::Amendment => "Amendment",
        NormalizedActionCategory::Cloture => "Cloture",
        NormalizedActionCategory::Passage => "Passage",
        NormalizedActionCategory::Stall => "Stall",
        NormalizedActionCategory::Other => "Other",
    }
}

/// The notes of a backtest: where it started, and the next action observed.
pub open spec fn backtest_notes(stage: Seq<char>, actual: Option<NormalizedActionRecord>) -> Seq<Seq<char>> {
    seq![
        "backtest started from stage "@ + stage,
        match actual {
            Some(a) => "actual next action observed on "@ + iso_date_text(a.action_date.day_number as int)
                + " as "@ + category_text(a.category),
            None => "no subsequent action found in later dated snapshots"@,
        },
    ]
}

pub fn build_notes(starting_stage: String, actual_action: &Option<NormalizedActionRecord>) -> (r: Vec<String>)
    ensures
        string_views(r@) == backtest_notes(starting_stage@, *actual_action),
{
    let mut notes: Vec<String> = Vec::new();
    let mut first = String::from_str("backtest started from stage ");
    first.append(starting_stage.as_str());
    notes.push(first);
    match actual_action {
        Some(action) => {
            let mut second = String::from_str("actual next action observed on ");
            second.append(action.action_date.iso_text().as_str());
            second.append(" as ");
            second.append(category_name(action.category));
            notes.push(second);
        },
        None => {
            notes.push(String::from_str("no subsequent action found in later dated snapshots"));
        },
    }
    proof {
        assert(string_views(notes@) =~= backtest_notes(starting_stage@, *actual_action));
    }
    notes
}

/// An action on the object strictly after the date.
pub open spec fn later_action(a: NormalizedActionRecord, object_id: Seq<char>, date: int) -> bool {
    a.object_id@ == object_id && a.action_date.day_number > date
}

/// A consequential action on the object, strictly after the date, that aligns
/// with a Senate event.
pub open spec fn aligned_later_action(a: NormalizedActionRecord, object_id: Seq<char>, date: int) -> bool {
    &&& later_action(a, object_id, date)
    &&& is_consequential_spec(a)
    &&& align_spec(a) is Some
}

/// `a` holds the fields of `b`.
pub open spec fn same_action(a: NormalizedActionRecord, b: NormalizedActionRecord) -> bool {
    &&& a.action_id@ == b.action_id@
    &&& a.object_id@ == b.object_id@
    &&& a.action_date == b.action_date
    &&& a.chamber == b.chamber
    &&& a.action_text@ == b.action_text@
    &&& a.category == b.category
    &&& a.as_of_date == b.as_of_date
}

/// `actual` is the earliest aligned consequential action on `object_id` after
/// `date` (the first listed among equally early ones), or none when there is
/// no such action.
pub open spec fn first_aligned(
    actual: Option<NormalizedActionRecord>,
    actions: Seq<NormalizedActionRecord>,
    object_id: Seq<char>,
    date: int,
) -> bool {
    match actual {
        None => forall|i: int| 0 <= i < actions.len() ==> !aligned_later_action(#[trigger] actions[i], object_id, date),
        Some(a) => exists|i: int|
            0 <= i < actions.len() && {
                &&& aligned_later_action(#[trigger] actions[i], object_id, date)
                &&& same_action(a, actions[i])
                &&& forall|j: int|
                    0 <= j < actions.len() && aligned_later_action(actions[j], object_id, date) ==> (
                    actions[j].action_date.day_number > a.action_date.day_number || (
                    actions[j].action_date.day_number == a.action_date.day_number && j >= i))
            },
    }
}

/// The earliest consequential action on `object_id` strictly after `date` that
/// aligns with a Senate event (the first listed among equally early ones), if
/// any.
pub fn first_aligned_action_after(actions: &[NormalizedActionRecord], object_id: &str, date: &CalendarDate) -> (r: Option<NormalizedActionRecord>)
    ensures
        first_aligned(r, actions@, object_id@, date.day_number as int),
{
    let ghost d = date.day_number as int;
    let mut best: Option<usize> = None;
    let mut i: usize = 0;
    while i < actions.len()
        invariant
            i <= actions@.len(),
            d == date.day_number,
            best is None ==> forall|j: int| 0 <= j < i ==> !aligned_later_action(#[trigger] actions@[j], object_id@, d),
            best matches Some(b) ==> b < i && aligned_later_action(actions@[b as int], object_id@, d)
                && forall|j: int| 0 <= j < i && aligned_later_action(#[trigger] actions@[j], object_id@, d)
                ==> (actions@[j].action_date.day_number > actions@[b as int].action_date.day_number || (
                actions@[j].action_date.day_number == actions@[b as int].action_date.day_number && j >= b)),
        decreases actions.len() - i,
    {
        let a = &actions[i];
        let same = crate::util::order::same_text(a.object_id.as_str(), object_id);
        if same && a.action_date.day_number > date.day_number && is_consequential_action(a)
            && align_action_to_senate_event(a).is_some() {
            match best {
                None => {
                    best = Some(i);
                },
                Some(b) => {
                    if a.action_date.day_number < actions[b].action_date.day_number {
                        best = Some(i);
                    }
                },
            }
        }
        i = i + 1;
    }
    match best {
        None => None,
        Some(b) => {
            let r = actions[b].copy();
            proof {
                assert(aligned_later_action(actions@[b as int], object_id@, d));
                assert(same_action(r, actions@[b as int]));
            }
            Some(r)
        },
    }
}

/// The event a backtest scores against: the Senate event the actual action
/// aligns with, or no meaningful movement when there is none.
pub open spec fn actual_event(actual: Option<NormalizedActionRecord>) -> SenateEvent {
    match actual {
        Some(a) => match align_spec(a) {
            Some(e) => e,
            None => SenateEvent::NoMeaningfulMovement,
        },
        None => SenateEvent::NoMeaningfulMovement,
    }
}

/// `p` is the prediction made for `obj` from the stances `mode` derives for
/// `senators`, through the chamber analysis `an`.
pub open spec fn mode_chain(
    stances: Seq<SenatorStance>,
    an: SenateAnalysis,
    p: NextEventPrediction,
    obj: LegislativeObject,
    ctx: LegislativeContext,
    senators: Seq<Senator>,
    mode: StanceDerivationMode,
) -> bool {
    &&& stances.len() == senators.len()
    &&& forall|i: int| 0 <= i < stances.len() ==> stance_for_mode(#[trigger] stances[i], senators[i], obj, ctx, mode)
    &&& analysis_matches(an, obj, ctx, stances)
    &&& prediction_matches(p, obj, ctx, an)
}

/// The backtest result `res` scores prediction `p` against the event of the
/// actual action `actual`.
pub open spec fn result_of(res: BacktestResult, date: CalendarDate, object_id: Seq<char>, p: NextEventPrediction, ctx: LegislativeContext, actual: Option<NormalizedActionRecord>) -> bool {
    let e = actual_event(actual);
    &&& res.snapshot_date == date
    &&& res.object_id@ == object_id
    &&& res.predicted_next_event == Some(p.predicted_event)
    &&& res.actual_next_event == Some(e)
    &&& res.match_top_1 == p.predicted_event.same_spec(e)
    &&& res.match_top_k == (p.predicted_event.same_spec(e) || exists|k: int|
        0 <= k < p.alternative_events@.len() && (#[trigger] p.alternative_events@[k]).event.same_spec(e))
    &&& res.prediction_confidence == Some(p.confidence)
    &&& string_views(res.notes@) == backtest_notes(stage_text(ctx.procedural_stage), actual)
}

/// The objects, contexts, stances, analysis and prediction from which the
/// backtest result `res` was replayed.
pub open spec fn backtest_witness(
    res: BacktestResult,
    snap: DataSnapshot,
    senators: Seq<Senator>,
    object_id: Seq<char>,
    mode: StanceDerivationMode,
    actual: Option<NormalizedActionRecord>,
    objs: Seq<LegislativeObject>,
    ctxs: Seq<LegislativeContext>,
    stances: Seq<SenatorStance>,
    an: SenateAnalysis,
    p: NextEventPrediction,
) -> bool {
    let j = object_index_from(objs, object_id, 0);
    &&& objs.len() == snap.legislative_records@.len()
    &&& forall|i: int|
        0 <= i < objs.len() ==> crate::ingest::snapshot::object_from_record(
            #[trigger] objs[i],
            snap.legislative_records@[i],
        )
    &&& ctxs.len() == snap.legislative_records@.len()
    &&& forall|i: int|
        0 <= i < ctxs.len() ==> crate::ingest::normalize::default_context_spec(
            #[trigger] ctxs[i],
            snap.snapshot_date,
            snap.legislative_records@[i].current_stage,
        )
    &&& j < objs.len()
    &&& mode_chain(stances, an, p, objs[j], ctxs[j], senators, mode)
    &&& result_of(res, snap.snapshot_date, object_id, p, ctxs[j], actual)
}

/// A backtest can run: every legislative record is valid, one of them is the
/// object, and there is at least one senator, every one valid.
pub open spec fn backtestable(snap: DataSnapshot, senators: Seq<Senator>, object_id: Seq<char>) -> bool {
    &&& forall|i: int| 0 <= i < snap.legislative_records@.len() ==> (#[trigger] snap.legislative_records@[i]).wf()
    &&& exists|j: int|
        0 <= j < snap.legislative_records@.len() && (#[trigger] snap.legislative_records@[j]).object_id@ == object_id
    &&& senators.len() > 0
    &&& forall|i: int| 0 <= i < senators.len() ==> (#[trigger] senators[i]).wf()
}

/// The backtest replays `res` for the snapshot's object `object_id`, scored
/// against the first aligned consequential action among `later` after the
/// snapshot date.
pub open spec fn backtested(res: BacktestResult, snap: DataSnapshot, senators: Seq<Senator>, object_id: Seq<char>, mode: StanceDerivationMode, later: Seq<NormalizedActionRecord>) -> bool {
    exists|
        actual: Option<NormalizedActionRecord>,
        objs: Seq<LegislativeObject>,
        ctxs: Seq<LegislativeContext>,
        stances: Seq<SenatorStance>,
        an: SenateAnalysis,
        p: NextEventPrediction,
    |
        first_aligned(actual, later, object_id, snap.snapshot_date.day_number as int)
            && #[trigger] backtest_witness(res, snap, senators, object_id, mode, actual, objs, ctxs, stances, an, p)
}

fn event_among(alternatives: &Vec<crate::model::events::EventScore>, e: &SenateEvent) -> (r: bool)
    ensures
        r == exists|k: int| 0 <= k < alternatives@.len() && (#[trigger] alternatives@[k]).event.same_spec(*e),
{
    let mut k: usize = 0;
    while k < alternatives.len()
        invariant
            k <= alternatives@.len(),
            forall|j: int| 0 <= j < k ==> !(#[trigger] alternatives@[j]).event.same_spec(*e),
        decreases alternatives.len() - k,
    {
        if alternatives[k].event.same(e) {
            proof {
                assert(alternatives@[k as int].event.same_spec(*e));
            }
            return true;
        }
        k = k + 1;
    }
    false
}

proof fn lemma_no_object_index(objs: Seq<LegislativeObject>, id: Seq<char>, i: int)
    requires
        0 <= i,
        forall|k: int| i <= k < objs.len() ==> (#[trigger] objs[k]).object_id@ != id,
    ensures
        object_index_from(objs, id, i) == objs.len(),
    decreases objs.len() - i,
{
    if i < objs.len() {
        lemma_no_object_index(objs, id, i + 1);
    }
}

fn find_object(objects: &Vec<LegislativeObject>, id: &str) -> (r: usize)
    ensures
        r == object_index_from(objects@, id@, 0),
{
    let mut i: usize = 0;
    while i < objects.len()
        invariant
            i <= objects@.len(),
            object_index_from(objects@, id@, 0) == object_index_from(objects@, id@, i as int),
        decreases objects.len() - i,
    {
        if crate::util::order::same_text(objects[i].object_id.as_str(), id) {
            return i;
        }
        i = i + 1;
    }
    i
}

/// The prediction for one object from every senator's stance under `mode`.
fn predict_with_mode(
    senators: &[Senator],
    object: &LegislativeObject,
    context: &LegislativeContext,
    mode: StanceDerivationMode,
) -> (r: Result<NextEventPrediction, SenateSimError>)
    ensures
        r matches Ok(p) ==> exists|stances: Seq<SenatorStance>, an: SenateAnalysis|
            #[trigger] mode_chain(stances, an, p, *object, *context, senators@, mode),
        (exists|i: int| 0 <= i < senators@.len() && !(#[trigger] senators@[i]).wf()) ==> r is Err,
        r is Ok <==> predictable(senators@, *object, *context),
        r matches Ok(p) ==> p.wf() && p.object_id@ == object.object_id@,
{
    let mut stances: Vec<SenatorStance> = Vec::new();
    let mut i: usize = 0;
    while i < senators.len()
        invariant
            i <= senators@.len(),
            stances@.len() == i,
            forall|k: int| 0 <= k < i ==> (#[trigger] senators@[k]).wf(),
            i > 0 ==> object.wf() && context.wf(),
            forall|k: int| 0 <= k < i ==> stance_for_mode(#[trigger] stances@[k], senators@[k], *object, *context, mode),
        decreases senators.len() - i,
    {
        let stance = derive_stance_with_mode(&senators[i], object, context, mode)?;
        stances.push(stance);
        i = i + 1;
    }
    proof {
        if senators@.len() > 0 {
            assert forall|k: int| 0 <= k < stances@.len() implies (#[trigger] stances@[k]).wf()
                && stances@[k].object_id@ == object.object_id@ by {
                assert(stance_for_mode(stances@[k], senators@[k], *object, *context, mode));
            }
        }
    }
    let analysis = analyze_chamber(object, context, stances.as_slice())?;
    let prediction = predict_next_event(object, context, &analysis)?;
    proof {
        assert(mode_chain(stances@, analysis, prediction, *object, *context, senators@, mode));
    }
    Ok(prediction)
}

/// Replays the prediction for `object_id` in a snapshot, from the given
/// senators' stances under `mode`, against what actually followed: the event
/// of the first consequential action on the object after the snapshot date
/// that aligns with one, among `later_actions` (the actions of later
/// snapshots), and no meaningful movement when there is none. Fails when the
/// object is not in the snapshot.
pub fn backtest_snapshot(
    snapshot: &DataSnapshot,
    senators: &[Senator],
    object_id: &str,
    mode: StanceDerivationMode,
    later_actions: &[NormalizedActionRecord],
) -> (r: Result<BacktestResult, SenateSimError>)
    ensures
        r matches Ok(res) ==> backtested(res, *snapshot, senators@, object_id@, mode, later_actions@),
        (exists|i: int| 0 <= i < snapshot.legislative_records@.len() && !(#[trigger] snapshot.legislative_records@[i]).wf())
            ==> r is Err,
        (forall|i: int| 0 <= i < snapshot.legislative_records@.len() ==> (#[trigger] snapshot.legislative_records@[i]).object_id@ != object_id@)
            ==> r is Err,
        (exists|i: int| 0 <= i < senators@.len() && !(#[trigger] senators@[i]).wf()) ==> r is Err,
        r is Ok <==> backtestable(*snapshot, senators@, object_id@),
{
    let objects = snapshot_to_legislative_objects(snapshot)?;
    let contexts = snapshot_to_contexts(snapshot)?;
    let index = find_object(&objects, object_id);
    proof {
        if forall|i: int| 0 <= i < snapshot.legislative_records@.len() ==> (#[trigger] snapshot.legislative_records@[i]).object_id@ != object_id@ {
            assert forall|k: int| 0 <= k < objects@.len() implies (#[trigger] objects@[k]).object_id@ != object_id@ by {
                assert(crate::ingest::snapshot::object_from_record(objects@[k], snapshot.legislative_records@[k]));
            }
            lemma_no_object_index(objects@, object_id@, 0);
        }
    }
    proof {
        lemma_object_index(objects@, object_id@, 0);
        if exists|j: int|
            0 <= j < snapshot.legislative_records@.len() && (#[trigger] snapshot.legislative_records@[j]).object_id@
                == object_id@ {
            let j = choose|j: int|
                0 <= j < snapshot.legislative_records@.len() && (#[trigger] snapshot.legislative_records@[j]).object_id@
                    == object_id@;
            assert(crate::ingest::snapshot::object_from_record(objects@[j], snapshot.legislative_records@[j]));
            assert(objects@[j].object_id@ == object_id@);
        }
        if (index as int) < objects@.len() {
            assert(crate::ingest::snapshot::object_from_record(objects@[index as int], snapshot.legislative_records@[index as int]));
            assert(snapshot.legislative_records@[index as int].object_id@ == object_id@);
        }
    }
    if index >= objects.len() {
        let mut message = String::from_str("object ");
        message.append(object_id);
        message.append(" not found in snapshot ");
        message.append(snapshot.snapshot_date.iso_text().as_str());
        return Err(SenateSimError::Validation { field: String::from_str("backtest.object_id"), message });
    }
    let object = &objects[index];
    let context = &contexts[index];
    let prediction = predict_with_mode(senators, object, context, mode)?;
    let actual_action = first_aligned_action_after(later_actions, object_id, &snapshot.snapshot_date);
    let actual = match &actual_action {
        Some(a) => match align_action_to_senate_event(a) {
            Some(e) => e,
            None => SenateEvent::NoMeaningfulMovement,
        },
        None => SenateEvent::NoMeaningfulMovement,
    };
    proof {
        assert(actual == actual_event(actual_action));
    }
    let top_1 = prediction.predicted_event.same(&actual);
    let top_k = top_1 || event_among(&prediction.alternative_events, &actual);
    let notes = build_notes(stage_debug_text(&context.procedural_stage), &actual_action);
    let result = BacktestResult {
        snapshot_date: snapshot.snapshot_date.copy(),
        object_id: String::from_str(object_id),
        predicted_next_event: Some(prediction.predicted_event.copy()),
        actual_next_event: Some(actual),
        match_top_1: top_1,
        match_top_k: top_k,
        prediction_confidence: Some(prediction.confidence),
        notes,
    };
    result.validate()?;
    proof {
        let ghost_stances = choose|stances: Seq<SenatorStance>, an: SenateAnalysis|
            #[trigger] mode_chain(stances, an, prediction, *object, *context, senators@, mode);
        assert(mode_chain(ghost_stances.0, ghost_stances.1, prediction, objects@[index as int], contexts@[index as int], senators@, mode));
        assert(result_of(result, snapshot.snapshot_date, object_id@, prediction, contexts@[index as int], actual_action));
        assert(backtest_witness(result, *snapshot, senators@, object_id@, mode, actual_action, objects@, contexts@, ghost_stances.0, ghost_stances.1, prediction));
        assert(backtested(result, *snapshot, senators@, object_id@, mode, later_actions@));
    }
    Ok(result)
}

/// The prediction recorded in `res` comes from the objects, contexts, stances
/// and analysis that the snapshot and the senators give, with no outcome in
/// them.
pub open spec fn prediction_witness(
    res: BacktestResult,
    snap: DataSnapshot,
    senators: Seq<Senator>,
    object_id: Seq<char>,
    mode: StanceDerivationMode,
    objs: Seq<LegislativeObject>,
    ctxs: Seq<LegislativeContext>,
    stances: Seq<SenatorStance>,
    an: SenateAnalysis,
    p: NextEventPrediction,
) -> bool {
    let j = object_index_from(objs, object_id, 0);
    &&& objs.len() == snap.legislative_records@.len()
    &&& forall|i: int|
        0 <= i < objs.len() ==> crate::ingest::snapshot::object_from_record(
            #[trigger] objs[i],
            snap.legislative_records@[i],
        )
    &&& ctxs.len() == snap.legislative_records@.len()
    &&& forall|i: int|
        0 <= i < ctxs.len() ==> crate::ingest::normalize::default_context_spec(
            #[trigger] ctxs[i],
            snap.snapshot_date,
            snap.legislative_records@[i].current_stage,
        )
    &&& j < objs.len()
    &&& mode_chain(stances, an, p, objs[j], ctxs[j], senators, mode)
    &&& res.snapshot_date == snap.snapshot_date
    &&& res.predicted_next_event == Some(p.predicted_event)
    &&& res.prediction_confidence == Some(p.confidence)
}

pub open spec fn predicted_from_snapshot(
    res: BacktestResult,
    snap: DataSnapshot,
    senators: Seq<Senator>,
    object_id: Seq<char>,
    mode: StanceDerivationMode,
) -> bool {
    exists|
        objs: Seq<LegislativeObject>,
        ctxs: Seq<LegislativeContext>,
        stances: Seq<SenatorStance>,
        an: SenateAnalysis,
        p: NextEventPrediction,
    | #[trigger] prediction_witness(res, snap, senators, object_id, mode, objs, ctxs, stances, an, p)
}

/// A backtest uses the later actions only to score the prediction: the
/// predicted event and its confidence come from the snapshot and the senators
/// alone; the actual event is that of the first aligned consequential action
/// after the snapshot date, no meaningful movement when there is none, and the
/// top-1 match says whether the prediction is that event.
pub proof fn law_backtest_prediction_ignores_outcome(
    res: BacktestResult,
    snap: DataSnapshot,
    senators: Seq<Senator>,
    object_id: Seq<char>,
    mode: StanceDerivationMode,
    later: Seq<NormalizedActionRecord>,
)
    requires
        backtested(res, snap, senators, object_id, mode, later),
    ensures
        predicted_from_snapshot(res, snap, senators, object_id, mode),
        exists|actual: Option<NormalizedActionRecord>|
            #[trigger] first_aligned(actual, later, object_id, snap.snapshot_date.day_number as int)
                && res.actual_next_event == Some(actual_event(actual)),
        (forall|i: int| 0 <= i < later.len() ==> !aligned_later_action(#[trigger] later[i], object_id, snap.snapshot_date.day_number as int))
            ==> res.actual_next_event == Some(SenateEvent::NoMeaningfulMovement),
        res.predicted_next_event matches Some(pe) && res.actual_next_event matches Some(e) && res.match_top_1 == pe.same_spec(e),
{
    let (actual, objs, ctxs, stances, an, p) = choose|
        actual: Option<NormalizedActionRecord>,
        objs: Seq<LegislativeObject>,
        ctxs: Seq<LegislativeContext>,
        stances: Seq<SenatorStance>,
        an: SenateAnalysis,
        p: NextEventPrediction,
    |
        first_aligned(actual, later, object_id, snap.snapshot_date.day_number as int)
            && #[trigger] backtest_witness(res, snap, senators, object_id, mode, actual, objs, ctxs, stances, an, p);
    assert(prediction_witness(res, snap, senators, object_id, mode, objs, ctxs, stances, an, p));
    assert(first_aligned(actual, later, object_id, snap.snapshot_date.day_number as int));
    if forall|i: int| 0 <= i < later.len() ==> !aligned_later_action(#[trigger] later[i], object_id, snap.snapshot_date.day_number as int) {
        if actual is Some {
            let i = choose|i: int|
                0 <= i < later.len() && {
                    &&& aligned_later_action(#[trigger] later[i], object_id, snap.snapshot_date.day_number as int)
                    &&& same_action(actual->0, later[i])
                    &&& forall|j: int|
                        0 <= j < later.len() && aligned_later_action(later[j], object_id, snap.snapshot_date.day_number as int) ==> (
                        later[j].action_date.day_number > actual->0.action_date.day_number || (
                        later[j].action_date.day_number == actual->0.action_date.day_number && j >= i))
                };
            assert(false);
        }
    }
}

} // verus!
