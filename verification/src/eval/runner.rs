//! Scoring next-event predictions against labeled examples.

use vstd::prelude::*;
use crate::analysis::chamber::{analysis_matches, analyze_chamber};
use crate::analysis::transition::{predict_next_event, prediction_matches};
use crate::derive::stance::{derive_stance, heuristic_stance_matches};
use crate::features::materialize::{
    enrichable, materializable, public_salience, senators_from_features, signals_in_range,
    snapshot_with_features_to_senators,
};
use crate::features::senator::{build_senator_features_for_snapshot, feature_matches, features_match};
use crate::features::windows::FeatureWindowConfig;
use crate::ingest::normalize::default_context_spec;
use crate::ingest::snapshot::{object_from_record, snapshot_to_contexts, snapshot_to_legislative_objects};
use crate::model::analysis::SenateAnalysis;
use crate::model::context::LegislativeContext;
use crate::model::error::SenateSimError;
use crate::model::evaluation::{EvaluationExample, EvaluationSummary};
use crate::model::events::{NextEventPrediction, SenateEvent};
use crate::model::legislative::LegislativeObject;
use crate::model::senator::Senator;
use crate::model::snapshot::DataSnapshot;
use crate::model::stance::SenatorStance;
use crate::util::calendar::iso_date_text;
use crate::util::score::{ratio, ratio_spec};
use crate::util::text::string_views;

verus! {

/// The feature windows evaluation uses: four years of baseline, one of recent
/// history.
pub open spec fn default_windows() -> FeatureWindowConfig {
    FeatureWindowConfig { baseline_lookback_days: Some(1460i64), recent_lookback_days: 365 }
}

/// The position of the first object with id `id` at or after `i` (the length
/// when none).
pub open spec fn object_index_from(objs: Seq<LegislativeObject>, id: Seq<char>, i: int) -> int
    decreases objs.len() - i,
{
    if i < 0 || i >= objs.len() {
        objs.len() as int
    } else if objs[i].object_id@ == id {
        i
    } else {
        object_index_from(objs, id, i + 1)
    }
}

/// An example can be scored when it has a label and its object is known.
pub open spec fn scorable(ex: EvaluationExample, objs: Seq<LegislativeObject>) -> bool {
    ex.actual_next_event is Some && object_index_from(objs, ex.object_id@, 0) < objs.len()
}

/// Where `object_index_from` lands: at or after `i`, on an object with the
/// id, and before the end exactly when such an object exists.
pub proof fn lemma_object_index(objs: Seq<LegislativeObject>, id: Seq<char>, i: int)
    requires
        0 <= i,
    ensures
        object_index_from(objs, id, i) <= objs.len(),
        object_index_from(objs, id, i) < objs.len() ==> i <= object_index_from(objs, id, i)
            && objs[object_index_from(objs, id, i)].object_id@ == id,
        (exists|k: int| i <= k < objs.len() && (#[trigger] objs[k]).object_id@ == id) ==> object_index_from(
            objs,
            id,
            i,
        ) < objs.len(),
    decreases objs.len() - i,
{
    if i < objs.len() && objs[i].object_id@ != id {
        lemma_object_index(objs, id, i + 1);
        if exists|k: int| i <= k < objs.len() && (#[trigger] objs[k]).object_id@ == id {
            let k = choose|k: int| i <= k < objs.len() && (#[trigger] objs[k]).object_id@ == id;
            assert(i + 1 <= k);
        }
    }
}

/// A prediction can be made for the object in its context from these
/// senators: there is at least one, and every senator, the object and the
/// context are valid.
pub open spec fn predictable(senators: Seq<Senator>, obj: LegislativeObject, ctx: LegislativeContext) -> bool {
    &&& senators.len() > 0
    &&& forall|i: int| 0 <= i < senators.len() ==> (#[trigger] senators[i]).wf()
    &&& obj.wf()
    &&& ctx.wf()
}

/// A scorable example's object can be predicted for from these senators.
pub open spec fn example_ok(
    ex: EvaluationExample,
    objs: Seq<LegislativeObject>,
    ctxs: Seq<LegislativeContext>,
    senators: Seq<Senator>,
) -> bool {
    let j = object_index_from(objs, ex.object_id@, 0);
    scorable(ex, objs) ==> predictable(senators, objs[j], ctxs[j])
}

/// `p` is the prediction made for `obj` from the heuristic stances of
/// `senators` through the chamber analysis `an`.
pub open spec fn prediction_chain(
    stances: Seq<SenatorStance>,
    an: SenateAnalysis,
    p: NextEventPrediction,
    obj: LegislativeObject,
    ctx: LegislativeContext,
    senators: Seq<Senator>,
) -> bool {
    &&& stances.len() == senators.len()
    &&& forall|i: int| 0 <= i < stances.len() ==> heuristic_stance_matches(#[trigger] stances[i], senators[i], obj, ctx)
    &&& analysis_matches(an, obj, ctx, stances)
    &&& prediction_matches(p, obj, ctx, an)
}

/// (top-1 hit, top-k hit) of a prediction against the actual event.
pub open spec fn hits_of(p: NextEventPrediction, actual: SenateEvent) -> (bool, bool) {
    let top1 = p.predicted_event.same_spec(actual);
    (top1, top1 || exists|k: int|
        0 <= k < p.alternative_events@.len() && (#[trigger] p.alternative_events@[k]).event.same_spec(actual))
}

pub open spec fn count_first(s: Seq<(bool, bool)>) -> int
    decreases s.len(),
{
    if s.len() == 0 {
        0
    } else {
        count_first(s.drop_last()) + if s.last().0 {
            1int
        } else {
            0int
        }
    }
}

pub open spec fn count_second(s: Seq<(bool, bool)>) -> int
    decreases s.len(),
{
    if s.len() == 0 {
        0
    } else {
        count_second(s.drop_last()) + if s.last().1 {
            1int
        } else {
            0int
        }
    }
}

pub open spec fn count_unscorable(exs: Seq<EvaluationExample>, objs: Seq<LegislativeObject>) -> int
    decreases exs.len(),
{
    if exs.len() == 0 {
        0
    } else {
        count_unscorable(exs.drop_last(), objs) + if scorable(exs.last(), objs) {
            0int
        } else {
            1int
        }
    }
}

/// The outcome of one example: for a scorable example, the hits of the
/// prediction made for its object; (false, false) otherwise.
pub open spec fn outcome_ok(
    h: (bool, bool),
    ex: EvaluationExample,
    objs: Seq<LegislativeObject>,
    ctxs: Seq<LegislativeContext>,
    senators: Seq<Senator>,
) -> bool {
    if scorable(ex, objs) {
        let j = object_index_from(objs, ex.object_id@, 0);
        exists|stances: Seq<SenatorStance>, an: SenateAnalysis, p: NextEventPrediction|
            #[trigger] prediction_chain(stances, an, p, objs[j], ctxs[j], senators) && h == hits_of(
                p,
                ex.actual_next_event->0,
            )
    } else {
        h == (false, false)
    }
}

pub open spec fn outcomes_match(
    outcome: Seq<(bool, bool)>,
    exs: Seq<EvaluationExample>,
    objs: Seq<LegislativeObject>,
    ctxs: Seq<LegislativeContext>,
    senators: Seq<Senator>,
) -> bool {
    &&& outcome.len() == exs.len()
    &&& forall|i: int| 0 <= i < exs.len() ==> outcome_ok(#[trigger] outcome[i], exs[i], objs, ctxs, senators)
}

pub open spec fn summary_notes(snap: DataSnapshot) -> Seq<Seq<char>> {
    seq![
        "evaluated snapshot "@ + iso_date_text(snap.snapshot_date.day_number as int),
        "examples are scored strictly against future-only aligned events"@,
    ]
}

/// The summary's counts and rates follow from the outcomes; the rates divide
/// by the scorable examples (at least one).
pub open spec fn summary_matches(
    sum: EvaluationSummary,
    snap: DataSnapshot,
    exs: Seq<EvaluationExample>,
    objs: Seq<LegislativeObject>,
    outcome: Seq<(bool, bool)>,
) -> bool {
    let unscorable = count_unscorable(exs, objs);
    let scored = if exs.len() - unscorable > 1 {
        exs.len() - unscorable
    } else {
        1
    };
    &&& sum.total_examples == exs.len()
    &&& sum.unscorable_examples == unscorable
    &&& sum.top_1_next_event_accuracy == ratio_spec(count_first(outcome), scored)
    &&& sum.top_k_next_event_accuracy == ratio_spec(count_second(outcome), scored)
    &&& sum.trajectory_prefix_match_rate == ratio_spec(count_first(outcome), scored)
    &&& string_views(sum.notes@) == summary_notes(snap)
}

/// The simulator inputs evaluation builds from a snapshot: feature-driven
/// senator profiles, legislative objects and default contexts.
pub open spec fn evaluation_inputs(snap: DataSnapshot, ss: Seq<Senator>, objs: Seq<LegislativeObject>, ctxs: Seq<LegislativeContext>) -> bool {
    &&& exists|recs: Seq<crate::model::features::SenatorFeatureRecord>|
        features_match(recs, snap, snap.vote_records@, default_windows()) && #[trigger] senators_from_features(ss, recs, snap)
    &&& objs.len() == snap.legislative_records@.len()
    &&& forall|i: int| 0 <= i < objs.len() ==> object_from_record(#[trigger] objs[i], snap.legislative_records@[i])
    &&& ctxs.len() == snap.legislative_records@.len()
    &&& forall|i: int|
        0 <= i < ctxs.len() ==> default_context_spec(
            #[trigger] ctxs[i],
            snap.snapshot_date,
            snap.legislative_records@[i].current_stage,
        )
}

/// The example has a label and names an object of the snapshot.
pub open spec fn labeled_in_snapshot(ex: EvaluationExample, snap: DataSnapshot) -> bool {
    &&& ex.actual_next_event is Some
    &&& exists|j: int|
        0 <= j < snap.legislative_records@.len() && (#[trigger] snap.legislative_records@[j]).object_id@
            == ex.object_id@
}

/// The examples can be scored against the snapshot: it is valid, its public
/// signals keep every senator profile valid, and it has senators to predict
/// with unless no example is labeled for one of its objects.
pub open spec fn evaluable(snap: DataSnapshot, exs: Seq<EvaluationExample>) -> bool {
    &&& snap.wf()
    &&& signals_in_range(snap)
    &&& (snap.roster_records@.len() > 0 || forall|k: int| 0 <= k < exs.len() ==> !labeled_in_snapshot(#[trigger] exs[k], snap))
}

/// The summary is scored from these inputs and per-example outcomes.
pub open spec fn evaluation_result(
    sum: EvaluationSummary,
    snap: DataSnapshot,
    exs: Seq<EvaluationExample>,
    ss: Seq<Senator>,
    objs: Seq<LegislativeObject>,
    ctxs: Seq<LegislativeContext>,
    outcome: Seq<(bool, bool)>,
) -> bool {
    &&& evaluation_inputs(snap, ss, objs, ctxs)
    &&& outcomes_match(outcome, exs, objs, ctxs, ss)
    &&& summary_matches(sum, snap, exs, objs, outcome)
    &&& sum.wf()
}

/// The summary scores the examples against predictions from the snapshot's
/// feature-driven senators, objects and default contexts.
pub open spec fn scored_from(sum: EvaluationSummary, snap: DataSnapshot, exs: Seq<EvaluationExample>) -> bool {
    exists|
        ss: Seq<Senator>,
        objs: Seq<LegislativeObject>,
        ctxs: Seq<LegislativeContext>,
        outcome: Seq<(bool, bool)>,
    | #[trigger] evaluation_result(sum, snap, exs, ss, objs, ctxs, outcome)
}

fn find_object(objects: &Vec<LegislativeObject>, id: &String) -> (r: usize)
    ensures
        r == object_index_from(objects@, id@, 0),
{
    let mut i: usize = 0;
    while i < objects.len()
        invariant
            i <= objects@.len(),
            object_index_from(objects@, id@, 0) == object_index_from(objects@, id@, i as int),
        decreases objects.len() - i,
    {
        if objects[i].object_id == *id {
            return i;
        }
        i = i + 1;
    }
    i
}

/// The top-1 and top-k hits of a prediction.
fn score_prediction(p: &NextEventPrediction, actual: &SenateEvent) -> (r: (bool, bool))
    ensures
        r == hits_of(*p, *actual),
{
    let top1 = p.predicted_event.same(actual);
    if top1 {
        return (true, true);
    }
    let mut k: usize = 0;
    while k < p.alternative_events.len()
        invariant
            k <= p.alternative_events@.len(),
            !p.predicted_event.same_spec(*actual),
            forall|j: int| 0 <= j < k ==> !(#[trigger] p.alternative_events@[j]).event.same_spec(*actual),
        decreases p.alternative_events.len() - k,
    {
        if p.alternative_events[k].event.same(actual) {
            proof {
                assert(p.alternative_events@[k as int].event.same_spec(*actual));
            }
            return (false, true);
        }
        k = k + 1;
    }
    (false, false)
}

/// Predicts the next event for one object from every senator's heuristic
/// stance.
fn predict_for_object(
    senators: &Vec<Senator>,
    object: &LegislativeObject,
    context: &LegislativeContext,
) -> (r: Result<NextEventPrediction, SenateSimError>)
    ensures
        r is Ok <==> predictable(senators@, *object, *context),
        r matches Ok(p) ==> exists|stances: Seq<SenatorStance>, an: SenateAnalysis|
            #[trigger] prediction_chain(stances, an, p, *object, *context, senators@),
{
    let mut stances: Vec<SenatorStance> = Vec::new();
    let mut i: usize = 0;
    while i < senators.len()
        invariant
            i <= senators@.len(),
            stances@.len() == i,
            forall|k: int| 0 <= k < i ==> (#[trigger] senators@[k]).wf(),
            i > 0 ==> object.wf() && context.wf(),
            forall|k: int|
                0 <= k < i ==> heuristic_stance_matches(#[trigger] stances@[k], senators@[k], *object, *context),
        decreases senators.len() - i,
    {
        let stance = derive_stance(&senators[i], object, context)?;
        stances.push(stance);
        i = i + 1;
    }
    proof {
        if senators@.len() > 0 {
            assert forall|k: int| 0 <= k < stances@.len() implies (#[trigger] stances@[k]).wf()
                && stances@[k].object_id@ == object.object_id@ by {
                assert(heuristic_stance_matches(stances@[k], senators@[k], *object, *context));
            }
        }
    }
    let analysis = analyze_chamber(object, context, stances.as_slice())?;
    let prediction = predict_next_event(object, context, &analysis)?;
    proof {
        assert(prediction_chain(stances@, analysis, prediction, *object, *context, senators@));
    }
    Ok(prediction)
}

/// Scores one example: whether it is scorable, and its hits.
fn score_example(
    example: &EvaluationExample,
    senators: &Vec<Senator>,
    objects: &Vec<LegislativeObject>,
    contexts: &Vec<LegislativeContext>,
) -> (r: Result<(bool, (bool, bool)), SenateSimError>)
    requires
        objects@.len() == contexts@.len(),
    ensures
        r is Ok <==> example_ok(*example, objects@, contexts@, senators@),
        r matches Ok(x) ==> x.0 == scorable(*example, objects@) && outcome_ok(
            x.1,
            *example,
            objects@,
            contexts@,
            senators@,
        ),
        r matches Ok(x) ==> (x.1.0 ==> x.1.1),
{
    match &example.actual_next_event {
        None => Ok((false, (false, false))),
        Some(actual) => {
            let index = find_object(objects, &example.object_id);
            if index < objects.len() {
                let prediction = predict_for_object(senators, &objects[index], &contexts[index])?;
                let h = score_prediction(&prediction, actual);
                Ok((true, h))
            } else {
                Ok((false, (false, false)))
            }
        },
    }
}

/// The outcomes match the examples and the hit counts count them.
pub open spec fn outcomes_counted(
    outcome: Seq<(bool, bool)>,
    exs: Seq<EvaluationExample>,
    objs: Seq<LegislativeObject>,
    ctxs: Seq<LegislativeContext>,
    senators: Seq<Senator>,
    top_1: int,
    top_k: int,
) -> bool {
    &&& outcomes_match(outcome, exs, objs, ctxs, senators)
    &&& top_1 == count_first(outcome)
    &&& top_k == count_second(outcome)
}

/// Scores every example: (total, unscorable, top-1 hits, top-k hits).
fn score_examples(
    examples: &[EvaluationExample],
    senators: &Vec<Senator>,
    objects: &Vec<LegislativeObject>,
    contexts: &Vec<LegislativeContext>,
) -> (r: Result<(usize, usize, usize, usize), SenateSimError>)
    requires
        objects@.len() == contexts@.len(),
    ensures
        r is Ok <==> forall|i: int|
            0 <= i < examples@.len() ==> example_ok(#[trigger] examples@[i], objects@, contexts@, senators@),
        r matches Ok(c) ==> {
            &&& c.0 == examples@.len()
            &&& c.1 == count_unscorable(examples@, objects@)
            &&& c.2 <= c.3
            &&& c.3 + c.1 <= c.0
            &&& exists|outcome: Seq<(bool, bool)>|
                #[trigger] outcomes_counted(outcome, examples@, objects@, contexts@, senators@, c.2 as int, c.3 as int)
        },
{
    let ghost mut outcome: Seq<(bool, bool)> = Seq::empty();
    let mut total: usize = 0;
    let mut top_1_hits: usize = 0;
    let mut top_k_hits: usize = 0;
    let mut unscorable: usize = 0;
    let mut i: usize = 0;
    proof {
        assert(examples@.subrange(0, 0) =~= Seq::<EvaluationExample>::empty());
    }
    while i < examples.len()
        invariant
            i <= examples@.len(),
            objects@.len() == contexts@.len(),
            total == i,
            outcome.len() == i,
            unscorable == count_unscorable(examples@.subrange(0, i as int), objects@),
            top_1_hits == count_first(outcome),
            top_k_hits == count_second(outcome),
            top_1_hits <= top_k_hits,
            top_k_hits + unscorable <= i,
            outcomes_match(outcome, examples@.subrange(0, i as int), objects@, contexts@, senators@),
            forall|k: int| 0 <= k < i ==> example_ok(#[trigger] examples@[k], objects@, contexts@, senators@),
        decreases examples.len() - i,
    {
        let ghost before = outcome;
        proof {
            assert(examples@.subrange(0, i + 1).drop_last() =~= examples@.subrange(0, i as int));
            assert(examples@.subrange(0, i + 1).last() == examples@[i as int]);
        }
        let (is_scorable, h) = score_example(&examples[i], &senators, &objects, &contexts)?;
        total = total + 1;
        if !is_scorable {
            unscorable = unscorable + 1;
        }
        if h.0 {
            top_1_hits = top_1_hits + 1;
        }
        if h.1 {
            top_k_hits = top_k_hits + 1;
        }
        proof {
            outcome = outcome.push(h);
            assert(outcome.drop_last() =~= before);
            let exs = examples@.subrange(0, i + 1);
            assert forall|k: int| 0 <= k < exs.len() implies outcome_ok(
                #[trigger] outcome[k],
                exs[k],
                objects@,
                contexts@,
                senators@,
            ) by {
                if k < i {
                    assert(exs[k] == examples@.subrange(0, i as int)[k]);
                    assert(outcome[k] == before[k]);
                }
            }
        }
        i = i + 1;
    }
    proof {
        assert(examples@.subrange(0, examples@.len() as int) =~= examples@);
        assert(outcomes_counted(outcome, examples@, objects@, contexts@, senators@, top_1_hits as int, top_k_hits as int));
    }
    let counts = (total, unscorable, top_1_hits, top_k_hits);
    proof {
        assert(outcomes_counted(outcome, examples@, objects@, contexts@, senators@, counts.2 as int, counts.3 as int));
    }
    Ok(counts)
}

/// Scores the simulator's next-event predictions against labeled examples.
/// Senators are profiled from the snapshot's historical features; an example
/// without a label, or whose object is not in the snapshot, is unscorable.
/// The first step of a rollout from the snapshot state is the next-event
/// prediction, so the prefix-match rate equals the top-1 rate.
#[verifier::rlimit(40)]
pub fn evaluate_snapshot_examples(snapshot: &DataSnapshot, examples: &[EvaluationExample]) -> (r: Result<EvaluationSummary, SenateSimError>)
    requires
        snapshot.snapshot_date.wf(),
        crate::util::calendar::MIN_DAY <= snapshot.snapshot_date.day_number - 365,
    ensures
        r is Ok ==> snapshot.wf(),
        !snapshot.wf() ==> r is Err,
        r is Ok <==> evaluable(*snapshot, examples@),
        r matches Ok(sum) ==> scored_from(sum, *snapshot, examples@),
{
    let config = FeatureWindowConfig::default();
    let features = build_senator_features_for_snapshot(snapshot, snapshot.vote_records.as_slice(), &config)?;
    proof {
        assert forall|i: int| 0 <= i < features@.len() implies crate::features::materialize::dated_ok(
            #[trigger] features@[i],
        ) by {
            assert(features@[i].snapshot_date == snapshot.snapshot_date);
        }
        assert forall|i: int| 0 <= i < features@.len() implies materializable(#[trigger] features@[i])
            && features@[i].senator_id@ == snapshot.roster_records@[i].senator_id@ by {
            assert(features@[i].wf());
            let date = snapshot.snapshot_date.day_number as int;
            let votes = snapshot.vote_records@;
            assert(feature_matches(
                features@[i],
                snapshot.snapshot_date,
                snapshot.roster_records@[i],
                votes.filter(crate::features::windows::window_pred(date, config.baseline_lookback_days)),
                votes.filter(crate::features::windows::window_pred(date, Some(config.recent_lookback_days))),
            ));
        }
        assert(signals_in_range(*snapshot) <==> forall|i: int|
            0 <= i < features@.len() ==> enrichable(#[trigger] features@[i], snapshot.public_signal_summary)) by {
            if signals_in_range(*snapshot) {
                assert forall|i: int| 0 <= i < features@.len() implies enrichable(
                    #[trigger] features@[i],
                    snapshot.public_signal_summary,
                ) by {
                    assert(snapshot.roster_records@[i].senator_id@ == features@[i].senator_id@);
                }
            }
            if forall|i: int|
                0 <= i < features@.len() ==> enrichable(#[trigger] features@[i], snapshot.public_signal_summary) {
                assert forall|i: int| 0 <= i < snapshot.roster_records@.len() implies (
                snapshot.public_signal_summary matches Some(sm) ==> public_salience(
                    sm,
                    (#[trigger] snapshot.roster_records@[i]).senator_id@,
                ) <= 10000) by {
                    assert(enrichable(features@[i], snapshot.public_signal_summary));
                }
            }
        }
    }
    let senators = snapshot_with_features_to_senators(snapshot, features.as_slice())?;
    let objects = snapshot_to_legislative_objects(snapshot)?;
    let contexts = snapshot_to_contexts(snapshot)?;
    proof {
        assert forall|k: int| 0 <= k < examples@.len() implies (example_ok(
            #[trigger] examples@[k],
            objects@,
            contexts@,
            senators@,
        ) <==> (labeled_in_snapshot(examples@[k], *snapshot) ==> snapshot.roster_records@.len() > 0)) by {
            let ex = examples@[k];
            lemma_object_index(objects@, ex.object_id@, 0);
            let j = object_index_from(objects@, ex.object_id@, 0);
            if labeled_in_snapshot(ex, *snapshot) {
                let m = choose|m: int|
                    0 <= m < snapshot.legislative_records@.len() && (
                    #[trigger] snapshot.legislative_records@[m]).object_id@ == ex.object_id@;
                assert(object_from_record(objects@[m], snapshot.legislative_records@[m]));
                assert(objects@[m].object_id@ == ex.object_id@);
            }
            if scorable(ex, objects@) {
                assert(object_from_record(objects@[j], snapshot.legislative_records@[j]));
                assert(snapshot.legislative_records@[j].object_id@ == ex.object_id@);
                assert(objects@[j].wf());
                assert(contexts@[j].wf());
            }
        }
    }
    proof {
        assert(senators_from_features(senators@, features@, *snapshot));
        assert(evaluation_inputs(*snapshot, senators@, objects@, contexts@));
    }

    let (total, unscorable, top_1_hits, top_k_hits) = score_examples(examples, &senators, &objects, &contexts)?;
    let ghost outcome = choose|outcome: Seq<(bool, bool)>| #[trigger] outcomes_counted(
        outcome,
        examples@,
        objects@,
        contexts@,
        senators@,
        top_1_hits as int,
        top_k_hits as int,
    );
    let scorable_count = total - unscorable;
    let denominator = if scorable_count > 1 {
        scorable_count
    } else {
        1
    };
    let mut notes: Vec<String> = Vec::new();
    let mut first = String::from_str("evaluated snapshot ");
    first.append(snapshot.snapshot_date.iso_text().as_str());
    notes.push(first);
    notes.push(String::from_str("examples are scored strictly against future-only aligned events"));
    proof {
        assert(string_views(notes@) =~= summary_notes(*snapshot));
    }
    let top_1 = ratio(top_1_hits, denominator);
    let summary = EvaluationSummary {
        total_examples: total,
        top_1_next_event_accuracy: top_1,
        top_k_next_event_accuracy: ratio(top_k_hits, denominator),
        trajectory_prefix_match_rate: top_1,
        unscorable_examples: unscorable,
        notes,
    };
    summary.validate()?;
    proof {
        assert(evaluation_result(summary, *snapshot, examples@, senators@, objects@, contexts@, outcome));
        assert(exists|
            ss: Seq<Senator>,
            objs: Seq<LegislativeObject>,
            ctxs: Seq<LegislativeContext>,
            outcome: Seq<(bool, bool)>,
        | #[trigger] evaluation_result(summary, *snapshot, examples@, ss, objs, ctxs, outcome));
    }
    proof {
        assert(scored_from(summary, *snapshot, examples@));
    }
    Ok(summary)
}

} // verus!
