//! Evaluation examples and actual trajectories: what really happened to each
//! legislative object after a snapshot date, read from its timeline.

use vstd::prelude::*;
use crate::model::context::ProceduralStage;
use crate::model::error::SenateSimError;
use crate::model::evaluation::{
    ActualTrajectory, ActualTrajectoryEvent, AlignmentReport, EvaluationExample,
    HistoricalActionEvent, HistoricalTimeline,
};
use crate::model::events::SenateEvent;
use crate::model::snapshot::DataSnapshot;
use crate::util::calendar::{compact_date_text, iso_date_text};
use crate::eval::timeline::flat_events;
use crate::util::text::{decimal_digits, decimal_text, string_views};

verus! {

/// Examples, actual trajectories and the alignment report of one snapshot.
pub struct EvaluationArtifacts {
    pub examples: Vec<EvaluationExample>,
    pub trajectories: Vec<ActualTrajectory>,
    pub alignment_report: AlignmentReport,
}

/// The position of the first timeline for `id` at or after `i` (the length
/// when there is none).
pub open spec fn timeline_index_from(ts: Seq<HistoricalTimeline>, id: Seq<char>, i: int) -> int
    decreases ts.len() - i,
{
    if i < 0 || i >= ts.len() {
        ts.len() as int
    } else if ts[i].object_id@ == id {
        i
    } else {
        timeline_index_from(ts, id, i + 1)
    }
}

/// A timeline entry that can label what happened after `date`: consequential,
/// aligned with an event, and strictly later than `date`.
pub open spec fn future_label(e: HistoricalActionEvent, date: int) -> bool {
    e.is_consequential && e.action_date.day_number > date && e.aligned_senate_event is Some
}

/// The position of the first future label at or after `i` (the length when
/// there is none).
pub open spec fn label_index_from(evs: Seq<HistoricalActionEvent>, date: int, i: int) -> int
    decreases evs.len() - i,
{
    if i < 0 || i >= evs.len() {
        evs.len() as int
    } else if future_label(evs[i], date) {
        i
    } else {
        label_index_from(evs, date, i + 1)
    }
}

pub open spec fn snapshot_path_text(date: int) -> Seq<char> {
    "data/snapshots/"@ + iso_date_text(date) + "/snapshot.json"@
}

pub open spec fn example_id_text(date: int, object_id: Seq<char>, index: nat) -> Seq<char> {
    compact_date_text(date) + ":"@ + object_id + ":"@ + decimal_digits(index)
}

pub open spec fn labeled_note(date: int) -> Seq<char> {
    "aligned next event selected strictly after snapshot date at "@ + iso_date_text(date)
}

pub open spec fn unlabeled_note() -> Seq<char> {
    "no consequential future event found; labeled as NoMeaningfulMovement"@
}

/// `ex` is the example built for the legislative record at `index`.
pub open spec fn example_matches(ex: EvaluationExample, snap: DataSnapshot, ts: Seq<HistoricalTimeline>, index: int) -> bool {
    let rec = snap.legislative_records@[index];
    let date = snap.snapshot_date.day_number as int;
    let ti = timeline_index_from(ts, rec.object_id@, 0);
    let evs = if ti < ts.len() {
        ts[ti].events@
    } else {
        Seq::empty()
    };
    let li = label_index_from(evs, date, 0);
    &&& ex.example_id@ == example_id_text(date, rec.object_id@, index as nat)
    &&& ex.snapshot_date == snap.snapshot_date
    &&& ex.object_id@ == rec.object_id@
    &&& ex.current_stage == Some(rec.current_stage)
    &&& ex.snapshot_path@ == snapshot_path_text(date)
    &&& if li < evs.len() {
        &&& ex.actual_next_event == evs[li].aligned_senate_event
        &&& ex.actual_next_event_date == Some(evs[li].action_date)
        &&& ex.timeline_position == li
        &&& string_views(ex.notes@) == seq![labeled_note(evs[li].action_date.day_number as int)]
    } else {
        &&& ex.actual_next_event == Some(SenateEvent::NoMeaningfulMovement)
        &&& ex.actual_next_event_date is None
        &&& ex.timeline_position == 0
        &&& string_views(ex.notes@) == seq![unlabeled_note()]
    }
}

fn find_timeline(timelines: &[HistoricalTimeline], id: &String) -> (r: usize)
    ensures
        r == timeline_index_from(timelines@, id@, 0),
{
    let mut i: usize = 0;
    while i < timelines.len()
        invariant
            i <= timelines@.len(),
            timeline_index_from(timelines@, id@, 0) == timeline_index_from(timelines@, id@, i as int),
        decreases timelines.len() - i,
    {
        if timelines[i].object_id == *id {
            return i;
        }
        i = i + 1;
    }
    i
}

fn first_future_consequential_event(snapshot_date: i32, events: &Vec<HistoricalActionEvent>) -> (r: usize)
    ensures
        r == label_index_from(events@, snapshot_date as int, 0),
{
    let mut i: usize = 0;
    while i < events.len()
        invariant
            i <= events@.len(),
            label_index_from(events@, snapshot_date as int, 0) == label_index_from(
                events@,
                snapshot_date as int,
                i as int,
            ),
        decreases events.len() - i,
    {
        let e = &events[i];
        if e.is_consequential && e.action_date.day_number > snapshot_date
            && e.aligned_senate_event.is_some() {
            return i;
        }
        i = i + 1;
    }
    i
}

fn copy_event_option(e: &Option<SenateEvent>) -> (r: Option<SenateEvent>)
    ensures
        r == *e,
{
    match e {
        Some(x) => Some(x.copy()),
        None => None,
    }
}

/// One example per legislative record of the snapshot: the first consequential
/// aligned event strictly after the snapshot date in the record's timeline
/// (the first timeline with its id), or `NoMeaningfulMovement` when there is
/// none.
pub fn generate_next_event_examples(snapshot: &DataSnapshot, timelines: &[HistoricalTimeline]) -> (r: Result<Vec<EvaluationExample>, SenateSimError>)
    ensures
        r is Ok <==> snapshot.wf(),
        r matches Ok(exs) ==> exs@.len() == snapshot.legislative_records@.len() && forall|i: int|
            0 <= i < exs@.len() ==> example_matches(#[trigger] exs@[i], *snapshot, timelines@, i),
{
    snapshot.validate()?;
    let date = snapshot.snapshot_date.day_number;
    let mut snapshot_path = String::from_str("data/snapshots/");
    snapshot_path.append(snapshot.snapshot_date.iso_text().as_str());
    snapshot_path.append("/snapshot.json");
    let compact = snapshot.snapshot_date.compact_text();
    let mut examples: Vec<EvaluationExample> = Vec::new();
    let mut index: usize = 0;
    while index < snapshot.legislative_records.len()
        invariant
            index <= snapshot.legislative_records@.len(),
            examples@.len() == index,
            date == snapshot.snapshot_date.day_number,
            snapshot_path@ == snapshot_path_text(date as int),
            compact@ == compact_date_text(date as int),
            forall|i: int| 0 <= i < index ==> example_matches(#[trigger] examples@[i], *snapshot, timelines@, i),
        decreases snapshot.legislative_records.len() - index,
    {
        let record = &snapshot.legislative_records[index];
        let mut example_id = compact.clone();
        example_id.append(":");
        example_id.append(record.object_id.as_str());
        example_id.append(":");
        example_id.append(decimal_text(index as u128).as_str());
        let ti = find_timeline(timelines, &record.object_id);
        let li: usize = if ti < timelines.len() {
            first_future_consequential_event(date, &timelines[ti].events)
        } else {
            0
        };
        let labeled = ti < timelines.len() && li < timelines[ti].events.len();
        let mut notes: Vec<String> = Vec::new();
        let example = if labeled {
            let e = &timelines[ti].events[li];
            let mut note = String::from_str("aligned next event selected strictly after snapshot date at ");
            note.append(e.action_date.iso_text().as_str());
            notes.push(note);
            proof {
                assert(string_views(notes@) =~= seq![labeled_note(e.action_date.day_number as int)]);
            }
            EvaluationExample {
                example_id,
                snapshot_date: snapshot.snapshot_date.copy(),
                object_id: record.object_id.clone(),
                current_stage: Some(record.current_stage.copy()),
                actual_next_event: copy_event_option(&e.aligned_senate_event),
                actual_next_event_date: Some(e.action_date.copy()),
                snapshot_path: snapshot_path.clone(),
                timeline_position: li,
                notes,
            }
        } else {
            notes.push(String::from_str("no consequential future event found; labeled as NoMeaningfulMovement"));
            proof {
                assert(string_views(notes@) =~= seq![unlabeled_note()]);
                if ti >= timelines.len() {
                    assert(label_index_from(Seq::<HistoricalActionEvent>::empty(), date as int, 0) == 0);
                }
            }
            EvaluationExample {
                example_id,
                snapshot_date: snapshot.snapshot_date.copy(),
                object_id: record.object_id.clone(),
                current_stage: Some(record.current_stage.copy()),
                actual_next_event: Some(SenateEvent::NoMeaningfulMovement),
                actual_next_event_date: None,
                snapshot_path: snapshot_path.clone(),
                timeline_position: 0,
                notes,
            }
        };
        proof {
            assert(example.example_id@ =~= example_id_text(
                date as int,
                record.object_id@,
                index as nat,
            ));
        }
        examples.push(example);
        index = index + 1;
    }
    Ok(examples)
}

pub open spec fn is_terminal_spec(e: SenateEvent) -> bool {
    matches!(e, SenateEvent::FinalPassageSucceeds | SenateEvent::FinalPassageFails | SenateEvent::ClotureFails)
}

/// Final passage (either way) and failed cloture end a trajectory.
pub fn is_terminal(event: &SenateEvent) -> (r: bool)
    ensures
        r == is_terminal_spec(*event),
{
    match event {
        SenateEvent::FinalPassageSucceeds | SenateEvent::FinalPassageFails
        | SenateEvent::ClotureFails => true,
        _ => false,
    }
}

pub open spec fn beyond_horizon(e: HistoricalActionEvent, date: int, horizon: Option<i64>) -> bool {
    horizon matches Some(d) && e.action_date.day_number - date > d
}

/// The positions of the entries a trajectory takes, scanning from `i` with
/// `taken` already taken: future labels in order, stopping before the first
/// one beyond the horizon, and after the one that reaches `max_steps` or is
/// terminal.
pub open spec fn trajectory_from(evs: Seq<HistoricalActionEvent>, date: int, max_steps: int, horizon: Option<i64>, i: int, taken: Seq<int>) -> Seq<int>
    decreases evs.len() - i,
{
    if i < 0 || i >= evs.len() {
        taken
    } else if !future_label(evs[i], date) {
        trajectory_from(evs, date, max_steps, horizon, i + 1, taken)
    } else if beyond_horizon(evs[i], date, horizon) {
        taken
    } else if taken.len() + 1 >= max_steps || is_terminal_spec(evs[i].aligned_senate_event->0) {
        taken.push(i)
    } else {
        trajectory_from(evs, date, max_steps, horizon, i + 1, taken.push(i))
    }
}

/// `t` is the trajectory step for timeline entry `e`.
pub open spec fn step_matches(t: ActualTrajectoryEvent, e: HistoricalActionEvent) -> bool {
    &&& Some(t.event) == e.aligned_senate_event
    &&& t.event_date == e.action_date
    &&& t.source_action_text@ == e.raw_action_text@
}

pub open spec fn trajectory_matches(tr: ActualTrajectory, snap: DataSnapshot, tl: HistoricalTimeline, max_steps: usize, horizon: Option<i64>) -> bool {
    let sel = trajectory_from(
        tl.events@,
        snap.snapshot_date.day_number as int,
        max_steps as int,
        horizon,
        0,
        Seq::empty(),
    );
    &&& tr.snapshot_date == snap.snapshot_date
    &&& tr.object_id@ == tl.object_id@
    &&& tr.horizon_days == horizon
    &&& tr.max_steps == max_steps
    &&& tr.events@.len() == sel.len()
    &&& forall|k: int| 0 <= k < sel.len() ==> step_matches(#[trigger] tr.events@[k], tl.events@[sel[k]])
}

/// What happened to an object after the snapshot: its consequential aligned
/// events strictly after the snapshot date, in timeline order, up to the
/// horizon, stopping after `max_steps` events or a terminal event.
pub fn generate_actual_trajectory(
    snapshot: &DataSnapshot,
    timeline: &HistoricalTimeline,
    max_steps: usize,
    horizon_days: Option<i64>,
) -> (r: Result<ActualTrajectory, SenateSimError>)
    ensures
        r matches Ok(tr) && trajectory_matches(tr, *snapshot, *timeline, max_steps, horizon_days),
        r matches Ok(tr) ==> forall|k: int|
            0 <= k < tr.events@.len() ==> {
                &&& (#[trigger] tr.events@[k]).event_date.day_number > snapshot.snapshot_date.day_number
                &&& (horizon_days matches Some(d) ==> tr.events@[k].event_date.day_number
                    - snapshot.snapshot_date.day_number <= d)
            },
        r matches Ok(tr) ==> forall|k: int|
            0 <= k < tr.events@.len() - 1 ==> !is_terminal_spec((#[trigger] tr.events@[k]).event),
        r matches Ok(tr) ==> tr.events@.len() <= max_steps || tr.events@.len() <= 1,
{
    let date = snapshot.snapshot_date.day_number;
    let ghost evs = timeline.events@;
    let ghost whole = trajectory_from(evs, date as int, max_steps as int, horizon_days, 0, Seq::empty());
    let ghost mut taken: Seq<int> = Seq::empty();
    let mut events: Vec<ActualTrajectoryEvent> = Vec::new();
    let mut i: usize = 0;
    while i < timeline.events.len()
        invariant_except_break
            evs == timeline.events@,
            i <= evs.len(),
            whole == trajectory_from(evs, date as int, max_steps as int, horizon_days, i as int, taken),
            events@.len() == taken.len(),
            taken.len() < max_steps || taken.len() == 0,
            forall|k: int| 0 <= k < taken.len() ==> 0 <= #[trigger] taken[k] < i,
            forall|k: int| 0 <= k < taken.len() ==> step_matches(#[trigger] events@[k], evs[taken[k]]),
            forall|k: int|
                0 <= k < events@.len() ==> {
                    &&& (#[trigger] events@[k]).event_date.day_number > date
                    &&& (horizon_days matches Some(d) ==> events@[k].event_date.day_number - date <= d)
                    &&& !is_terminal_spec(events@[k].event)
                },
        ensures
            whole == taken,
            events@.len() == taken.len(),
            forall|k: int| 0 <= k < taken.len() ==> step_matches(#[trigger] events@[k], evs[taken[k]]),
            forall|k: int|
                0 <= k < events@.len() ==> {
                    &&& (#[trigger] events@[k]).event_date.day_number > date
                    &&& (horizon_days matches Some(d) ==> events@[k].event_date.day_number - date <= d)
                },
            forall|k: int| 0 <= k < events@.len() - 1 ==> !is_terminal_spec((#[trigger] events@[k]).event),
            events@.len() <= max_steps || events@.len() <= 1,
        decreases timeline.events.len() - i,
    {
        let e = &timeline.events[i];
        if !e.is_consequential || e.action_date.day_number <= date {
            i = i + 1;
            continue;
        }
        let aligned = match &e.aligned_senate_event {
            Some(a) => a.copy(),
            None => {
                i = i + 1;
                continue;
            },
        };
        match horizon_days {
            Some(days) => {
                if (e.action_date.day_number as i64) - (date as i64) > days {
                    break;
                }
            },
            None => {},
        }
        let terminal = is_terminal(&aligned);
        events.push(
            ActualTrajectoryEvent {
                event: aligned,
                event_date: e.action_date.copy(),
                source_action_text: e.raw_action_text.clone(),
            },
        );
        proof {
            taken = taken.push(i as int);
        }
        if events.len() >= max_steps || terminal {
            break;
        }
        i = i + 1;
    }
    Ok(
        ActualTrajectory {
            snapshot_date: snapshot.snapshot_date.copy(),
            object_id: timeline.object_id.clone(),
            events,
            horizon_days,
            max_steps,
        },
    )
}

/// Consequential entries that no event could be aligned with.
pub open spec fn unaligned_count(evs: Seq<HistoricalActionEvent>) -> nat
    decreases evs.len(),
{
    if evs.len() == 0 {
        0
    } else {
        unaligned_count(evs.drop_last()) + if evs.last().is_consequential
            && evs.last().aligned_senate_event is None {
            1nat
        } else {
            0nat
        }
    }
}

pub proof fn lemma_unaligned_count_concat(a: Seq<HistoricalActionEvent>, b: Seq<HistoricalActionEvent>)
    ensures
        unaligned_count(a + b) == unaligned_count(a) + unaligned_count(b),
    decreases b.len(),
{
    if b.len() > 0 {
        lemma_unaligned_count_concat(a, b.drop_last());
        assert((a + b).drop_last() =~= a + b.drop_last());
    } else {
        assert(a + b =~= a);
    }
}

/// The positions of the legislative records that have a timeline, in order.
pub open spec fn records_with_timeline(snap: DataSnapshot, ts: Seq<HistoricalTimeline>, n: int) -> Seq<int>
    decreases n,
{
    if n <= 0 {
        Seq::empty()
    } else {
        let prev = records_with_timeline(snap, ts, n - 1);
        if timeline_index_from(ts, snap.legislative_records@[n - 1].object_id@, 0) < ts.len() {
            prev.push(n - 1)
        } else {
            prev
        }
    }
}

pub open spec fn artifacts_match(a: EvaluationArtifacts, snap: DataSnapshot, ts: Seq<HistoricalTimeline>, max_steps: usize, horizon: Option<i64>) -> bool {
    let n = snap.legislative_records@.len() as int;
    let sel = records_with_timeline(snap, ts, n);
    let unaligned = unaligned_count(flat_events(ts));
    &&& a.examples@.len() == n
    &&& forall|i: int| 0 <= i < n ==> example_matches(#[trigger] a.examples@[i], snap, ts, i)
    &&& a.trajectories@.len() == sel.len()
    &&& forall|k: int|
        0 <= k < sel.len() ==> trajectory_matches(
            #[trigger] a.trajectories@[k],
            snap,
            ts[timeline_index_from(ts, snap.legislative_records@[sel[k]].object_id@, 0)],
            max_steps,
            horizon,
        )
    &&& a.alignment_report.snapshot_date == snap.snapshot_date
    &&& a.alignment_report.objects_processed == n
    &&& a.alignment_report.examples_generated == n
    &&& a.alignment_report.ambiguous_actions == unaligned
    &&& a.alignment_report.unaligned_consequential_actions == unaligned
    &&& string_views(a.alignment_report.notes@) == seq![
        "evaluation artifacts built from snapshot "@ + iso_date_text(snap.snapshot_date.day_number as int),
        "labels only use consequential aligned events strictly after the snapshot date"@,
    ]
}

fn count_unaligned(timelines: &[HistoricalTimeline]) -> (r: usize)
    requires
        flat_events(timelines@).len() <= usize::MAX,
    ensures
        r == unaligned_count(flat_events(timelines@)),
{
    let mut count: usize = 0;
    let mut i: usize = 0;
    proof {
        assert(flat_events(timelines@.subrange(0, 0)) =~= Seq::<HistoricalActionEvent>::empty());
    }
    while i < timelines.len()
        invariant
            i <= timelines@.len(),
            flat_events(timelines@).len() <= usize::MAX,
            count == unaligned_count(flat_events(timelines@.subrange(0, i as int))),
            count <= flat_events(timelines@.subrange(0, i as int)).len(),
        decreases timelines.len() - i,
    {
        let ghost before = flat_events(timelines@.subrange(0, i as int));
        let events = &timelines[i].events;
        let mut j: usize = 0;
        proof {
            assert(events@.subrange(0, 0) =~= Seq::<HistoricalActionEvent>::empty());
            lemma_unaligned_count_concat(before, events@.subrange(0, 0));
            assert(before + events@.subrange(0, 0) =~= before);
            lemma_flat_prefix(timelines@, i as int);
            lemma_flat_prefix_len(timelines@, i as int + 1);
        }
        while j < events.len()
            invariant
                j <= events@.len(),
                i < timelines@.len(),
                events@ == timelines@[i as int].events@,
                before == flat_events(timelines@.subrange(0, i as int)),
                before.len() + events@.len() <= usize::MAX,
                count == unaligned_count(before + events@.subrange(0, j as int)),
                count <= before.len() + j,
            decreases events.len() - j,
        {
            proof {
                assert((before + events@.subrange(0, j + 1)).drop_last() =~= before + events@.subrange(
                    0,
                    j as int,
                ));
                assert((before + events@.subrange(0, j + 1)).last() == events@[j as int]);
            }
            if events[j].is_consequential && events[j].aligned_senate_event.is_none() {
                count = count + 1;
            }
            j = j + 1;
        }
        proof {
            assert(events@.subrange(0, events@.len() as int) =~= events@);
            lemma_flat_prefix(timelines@, i as int);
        }
        i = i + 1;
    }
    proof {
        assert(timelines@.subrange(0, timelines@.len() as int) =~= timelines@);
    }
    count
}

pub proof fn lemma_flat_prefix(ts: Seq<HistoricalTimeline>, i: int)
    requires
        0 <= i < ts.len(),
    ensures
        flat_events(ts.subrange(0, i + 1)) == flat_events(ts.subrange(0, i)) + ts[i].events@,
{
    assert(ts.subrange(0, i + 1).drop_last() =~= ts.subrange(0, i));
}

pub proof fn lemma_flat_prefix_len(ts: Seq<HistoricalTimeline>, i: int)
    requires
        0 <= i <= ts.len(),
    ensures
        flat_events(ts.subrange(0, i)).len() <= flat_events(ts).len(),
    decreases ts.len() - i,
{
    if i < ts.len() {
        lemma_flat_prefix_len(ts, i + 1);
        lemma_flat_prefix(ts, i);
    } else {
        assert(ts.subrange(0, i) =~= ts);
    }
}

/// Examples for every legislative record, the actual trajectory of every
/// record that has a timeline, and a report counting the consequential
/// actions no event could be aligned with.
pub fn build_evaluation_artifacts(
    snapshot: &DataSnapshot,
    timelines: &[HistoricalTimeline],
    max_steps: usize,
    horizon_days: Option<i64>,
) -> (r: Result<EvaluationArtifacts, SenateSimError>)
    requires
        flat_events(timelines@).len() <= usize::MAX,
    ensures
        r is Ok <==> snapshot.wf(),
        r matches Ok(a) ==> artifacts_match(a, *snapshot, timelines@, max_steps, horizon_days),
{
    let examples = generate_next_event_examples(snapshot, timelines)?;
    let unaligned = count_unaligned(timelines);
    let mut trajectories: Vec<ActualTrajectory> = Vec::new();
    let mut i: usize = 0;
    while i < snapshot.legislative_records.len()
        invariant
            i <= snapshot.legislative_records@.len(),
            trajectories@.len() == records_with_timeline(*snapshot, timelines@, i as int).len(),
            forall|k: int|
                0 <= k < trajectories@.len() ==> trajectory_matches(
                    #[trigger] trajectories@[k],
                    *snapshot,
                    timelines@[timeline_index_from(
                        timelines@,
                        snapshot.legislative_records@[records_with_timeline(
                            *snapshot,
                            timelines@,
                            i as int,
                        )[k]].object_id@,
                        0,
                    )],
                    max_steps,
                    horizon_days,
                ),
        decreases snapshot.legislative_records.len() - i,
    {
        let ghost sel_before = records_with_timeline(*snapshot, timelines@, i as int);
        let ti = find_timeline(timelines, &snapshot.legislative_records[i].object_id);
        if ti < timelines.len() {
            let tr = generate_actual_trajectory(snapshot, &timelines[ti], max_steps, horizon_days);
            match tr {
                Ok(t) => trajectories.push(t),
                Err(e) => return Err(e),
            }
            proof {
                assert(records_with_timeline(*snapshot, timelines@, i + 1) == sel_before.push(i as int));
            }
        }
        i = i + 1;
    }
    let mut notes: Vec<String> = Vec::new();
    let mut first = String::from_str("evaluation artifacts built from snapshot ");
    first.append(snapshot.snapshot_date.iso_text().as_str());
    notes.push(first);
    notes.push(String::from_str("labels only use consequential aligned events strictly after the snapshot date"));
    proof {
        assert(string_views(notes@) =~= seq![
            "evaluation artifacts built from snapshot "@ + iso_date_text(snapshot.snapshot_date.day_number as int),
            "labels only use consequential aligned events strictly after the snapshot date"@,
        ]);
    }
    let report = AlignmentReport {
        snapshot_date: snapshot.snapshot_date.copy(),
        objects_processed: snapshot.legislative_records.len(),
        examples_generated: examples.len(),
        ambiguous_actions: unaligned,
        unaligned_consequential_actions: unaligned,
        notes,
    };
    Ok(EvaluationArtifacts { examples, trajectories, alignment_report: report })
}

} // verus!
