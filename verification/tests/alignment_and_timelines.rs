use senate_simulator::eval::align::{align_action_to_senate_event, is_consequential_action};
use senate_simulator::eval::timeline::build_historical_timelines;
use senate_simulator::model::context::Chamber;
use senate_simulator::model::evaluation::HistoricalTimeline;
use senate_simulator::model::events::SenateEvent;
use senate_simulator::model::records::{NormalizedActionCategory, NormalizedActionRecord};
use senate_simulator::util::calendar::CalendarDate;

fn action(
    category: NormalizedActionCategory,
    action_text: &str,
) -> NormalizedActionRecord {
    NormalizedActionRecord {
        action_id: "act_1".to_string(),
        object_id: "obj_1".to_string(),
        action_date: CalendarDate::from_ymd(2026, 3, 9).unwrap(),
        chamber: Chamber::Senate,
        action_text: action_text.to_string(),
        category,
        as_of_date: CalendarDate::from_ymd(2026, 3, 9).unwrap(),
    }
}

#[test]
fn action_alignment_maps_representative_actions() {
    assert_eq!(
        align_action_to_senate_event(&action(
            NormalizedActionCategory::Cloture,
            "Cloture filed on the motion to proceed."
        )),
        Some(SenateEvent::ClotureFiled)
    );
    assert_eq!(
        align_action_to_senate_event(&action(
            NormalizedActionCategory::Passage,
            "Bill passed Senate by yea-nay vote."
        )),
        Some(SenateEvent::FinalPassageSucceeds)
    );
}

#[test]
fn consequential_filter_distinguishes_signal_from_noise() {
    assert!(is_consequential_action(&action(
        NormalizedActionCategory::MotionToProceed,
        "Motion to proceed filed."
    )));
    assert!(!is_consequential_action(&action(
        NormalizedActionCategory::Introduced,
        "Read twice and referred to committee."
    )));
}

fn dated_action(id: &str, date: (i32, u32, u32), text: &str) -> NormalizedActionRecord {
    NormalizedActionRecord {
        action_id: id.to_string(),
        object_id: "obj_1".to_string(),
        action_date: CalendarDate::from_ymd(date.0, date.1, date.2).unwrap(),
        chamber: Chamber::Senate,
        action_text: text.to_string(),
        category: NormalizedActionCategory::Cloture,
        as_of_date: CalendarDate::from_ymd(date.0, date.1, date.2).unwrap(),
    }
}

#[test]
fn timeline_ordering_is_deterministic() {
    let timelines = build_historical_timelines(&[
        dated_action("b", (2026, 3, 10), "Cloture vote scheduled."),
        dated_action("a", (2026, 3, 9), "Cloture filed."),
        dated_action("c", (2026, 3, 10), "Cloture invoked."),
    ])
    .unwrap();

    let HistoricalTimeline { events, .. } = &timelines[0];
    assert_eq!(events[0].source_record_id.as_deref(), Some("a"));
    assert_eq!(events[1].source_record_id.as_deref(), Some("b"));
    assert_eq!(events[2].source_record_id.as_deref(), Some("c"));
}

#[test]
fn timelines_ignore_the_order_actions_come_in() {
    let actions = || {
        vec![
            dated_action("b", (2026, 3, 10), "Cloture vote scheduled."),
            dated_action("a", (2026, 3, 9), "Cloture filed."),
            dated_action("c", (2026, 3, 10), "Cloture invoked."),
        ]
    };
    let forward = build_historical_timelines(&actions()).unwrap();
    let mut reversed_input = actions();
    reversed_input.reverse();
    let reversed = build_historical_timelines(&reversed_input).unwrap();
    assert_eq!(forward.len(), reversed.len());
    for (a, b) in forward.iter().zip(reversed.iter()) {
        assert_eq!(a.object_id, b.object_id);
        let ids = |t: &HistoricalTimeline| t.events.iter().map(|e| e.source_record_id.clone()).collect::<Vec<_>>();
        assert_eq!(ids(a), ids(b));
    }
}
