//! Alignment of normalized actions with simulator events.

use vstd::prelude::*;
use crate::model::events::SenateEvent;
use crate::model::records::{NormalizedActionCategory, NormalizedActionRecord};
use crate::util::text::{has_text, lower_chars, lower_seq, seq_contains};

verus! {

/// Categories whose actions always move a bill.
pub open spec fn consequential_category(c: NormalizedActionCategory) -> bool {
    matches!(
        c,
        NormalizedActionCategory::MotionToProceed | NormalizedActionCategory::Debate
            | NormalizedActionCategory::Amendment | NormalizedActionCategory::Cloture
            | NormalizedActionCategory::Passage | NormalizedActionCategory::Stall
    )
}

/// The lowercased text mentions a consequential step.
pub open spec fn consequential_text(t: Seq<char>) -> bool {
    ||| seq_contains(t, "motion to proceed"@)
    ||| seq_contains(t, "debate"@)
    ||| seq_contains(t, "amendment"@)
    ||| seq_contains(t, "cloture"@)
    ||| seq_contains(t, "passed"@)
    ||| seq_contains(t, "failed"@)
    ||| seq_contains(t, "blocked"@)
    ||| seq_contains(t, "returned to calendar"@)
    ||| seq_contains(t, "stall"@)
}

pub open spec fn is_consequential_spec(a: NormalizedActionRecord) -> bool {
    consequential_category(a.category) || consequential_text(lower_seq(a.action_text@))
}

/// An action is consequential when its category moves a bill or its text
/// (ignoring ASCII case) names a consequential step.
pub fn is_consequential_action(action: &NormalizedActionRecord) -> (r: bool)
    ensures
        r == is_consequential_spec(*action),
{
    match action.category {
        NormalizedActionCategory::MotionToProceed | NormalizedActionCategory::Debate
        | NormalizedActionCategory::Amendment | NormalizedActionCategory::Cloture
        | NormalizedActionCategory::Passage | NormalizedActionCategory::Stall => {
            return true;
        },
        _ => {},
    }
    let t = lower_chars(action.action_text.as_str());
    has_text(&t, "motion to proceed") || has_text(&t, "debate") || has_text(&t, "amendment")
        || has_text(&t, "cloture") || has_text(&t, "passed") || has_text(&t, "failed") || has_text(
        &t,
        "blocked",
    ) || has_text(&t, "returned to calendar") || has_text(&t, "stall")
}

/// The event an action stands for, by its category and its lowercased text.
pub open spec fn aligned_event(c: NormalizedActionCategory, t: Seq<char>) -> Option<SenateEvent> {
    match c {
        NormalizedActionCategory::MotionToProceed => Some(SenateEvent::MotionToProceedAttempted),
        NormalizedActionCategory::Debate => if seq_contains(t, "amendment"@) {
            Some(SenateEvent::AmendmentFightBegins)
        } else {
            Some(SenateEvent::DebateBegins)
        },
        NormalizedActionCategory::Amendment => Some(SenateEvent::AmendmentFightBegins),
        NormalizedActionCategory::Cloture => if seq_contains(t, "filed"@) {
            Some(SenateEvent::ClotureFiled)
        } else if seq_contains(t, "scheduled"@) {
            Some(SenateEvent::ClotureVoteScheduled)
        } else if seq_contains(t, "invoked"@) || seq_contains(t, "agreed to"@) {
            Some(SenateEvent::ClotureInvoked)
        } else if seq_contains(t, "failed"@) || seq_contains(t, "rejected"@) {
            Some(SenateEvent::ClotureFails)
        } else {
            None
        },
        NormalizedActionCategory::Passage => if seq_contains(t, "scheduled"@) {
            Some(SenateEvent::FinalPassageScheduled)
        } else if seq_contains(t, "failed"@) || seq_contains(t, "rejected"@) {
            Some(SenateEvent::FinalPassageFails)
        } else if seq_contains(t, "passed"@) || seq_contains(t, "agreed to"@) {
            Some(SenateEvent::FinalPassageSucceeds)
        } else {
            None
        },
        NormalizedActionCategory::Stall => if seq_contains(t, "returned to calendar"@) {
            Some(SenateEvent::ReturnedToCalendar)
        } else if seq_contains(t, "blocked"@) || seq_contains(t, "procedural"@) {
            Some(SenateEvent::ProceduralBlock)
        } else {
            Some(SenateEvent::NoMeaningfulMovement)
        },
        NormalizedActionCategory::Other => if seq_contains(t, "leadership"@) || seq_contains(
            t,
            "signals action"@,
        ) {
            Some(SenateEvent::LeadershipSignalsAction)
        } else if seq_contains(t, "negotiat"@) {
            Some(SenateEvent::NegotiationIntensifies)
        } else if seq_contains(t, "returned to calendar"@) {
            Some(SenateEvent::ReturnedToCalendar)
        } else {
            None
        },
        _ => None,
    }
}

pub open spec fn align_spec(a: NormalizedActionRecord) -> Option<SenateEvent> {
    aligned_event(a.category, lower_seq(a.action_text@))
}

/// The simulator event an action stands for, if any.
pub fn align_action_to_senate_event(action: &NormalizedActionRecord) -> (r: Option<SenateEvent>)
    ensures
        r == align_spec(*action),
{
    let t = lower_chars(action.action_text.as_str());
    match action.category {
        NormalizedActionCategory::MotionToProceed => Some(SenateEvent::MotionToProceedAttempted),
        NormalizedActionCategory::Debate => if has_text(&t, "amendment") {
            Some(SenateEvent::AmendmentFightBegins)
        } else {
            Some(SenateEvent::DebateBegins)
        },
        NormalizedActionCategory::Amendment => Some(SenateEvent::AmendmentFightBegins),
        NormalizedActionCategory::Cloture => if has_text(&t, "filed") {
            Some(SenateEvent::ClotureFiled)
        } else if has_text(&t, "scheduled") {
            Some(SenateEvent::ClotureVoteScheduled)
        } else if has_text(&t, "invoked") || has_text(&t, "agreed to") {
            Some(SenateEvent::ClotureInvoked)
        } else if has_text(&t, "failed") || has_text(&t, "rejected") {
            Some(SenateEvent::ClotureFails)
        } else {
            None
        },
        NormalizedActionCategory::Passage => if has_text(&t, "scheduled") {
            Some(SenateEvent::FinalPassageScheduled)
        } else if has_text(&t, "failed") || has_text(&t, "rejected") {
            Some(SenateEvent::FinalPassageFails)
        } else if has_text(&t, "passed") || has_text(&t, "agreed to") {
            Some(SenateEvent::FinalPassageSucceeds)
        } else {
            None
        },
        NormalizedActionCategory::Stall => if has_text(&t, "returned to calendar") {
            Some(SenateEvent::ReturnedToCalendar)
        } else if has_text(&t, "blocked") || has_text(&t, "procedural") {
            Some(SenateEvent::ProceduralBlock)
        } else {
            Some(SenateEvent::NoMeaningfulMovement)
        },
        NormalizedActionCategory::Other => if has_text(&t, "leadership") || has_text(
            &t,
            "signals action",
        ) {
            Some(SenateEvent::LeadershipSignalsAction)
        } else if has_text(&t, "negotiat") {
            Some(SenateEvent::NegotiationIntensifies)
        } else if has_text(&t, "returned to calendar") {
            Some(SenateEvent::ReturnedToCalendar)
        } else {
            None
        },
        NormalizedActionCategory::Introduced | NormalizedActionCategory::Referred
        | NormalizedActionCategory::Reported => None,
    }
}

/// Passage and cloture actions align by outcome: a passage action whose text
/// (in any ASCII case) says `failed` or `rejected`, and is not about
/// scheduling, aligns to passage failing; one that says `passed` or `agreed to`
/// and none of those aligns to passage succeeding. Passage is only ever found
/// to succeed for a passage action whose text says it passed or was agreed to
/// and says nothing of failing, rejection or scheduling. Likewise a cloture
/// action that says `failed` or `rejected` (and not filed, scheduled, invoked
/// or agreed to) aligns to cloture failing, and cloture is only found invoked
/// where the text says `invoked` or `agreed to`.
pub proof fn law_outcomes_align_by_their_words(a: NormalizedActionRecord)
    ensures
        ({
            let t = lower_seq(a.action_text@);
            &&& a.category == NormalizedActionCategory::Passage && !seq_contains(t, "scheduled"@) && (seq_contains(
                t,
                "failed"@,
            ) || seq_contains(t, "rejected"@)) ==> align_spec(a) == Some(SenateEvent::FinalPassageFails)
            &&& a.category == NormalizedActionCategory::Passage && !seq_contains(t, "scheduled"@) && !seq_contains(
                t,
                "failed"@,
            ) && !seq_contains(t, "rejected"@) && (seq_contains(t, "passed"@) || seq_contains(t, "agreed to"@))
                ==> align_spec(a) == Some(SenateEvent::FinalPassageSucceeds)
            &&& align_spec(a) == Some(SenateEvent::FinalPassageSucceeds) ==> a.category
                == NormalizedActionCategory::Passage && !seq_contains(t, "failed"@) && !seq_contains(t, "rejected"@)
                && !seq_contains(t, "scheduled"@) && (seq_contains(t, "passed"@) || seq_contains(t, "agreed to"@))
            &&& align_spec(a) == Some(SenateEvent::FinalPassageFails) ==> a.category == NormalizedActionCategory::Passage
                && (seq_contains(t, "failed"@) || seq_contains(t, "rejected"@))
            &&& a.category == NormalizedActionCategory::Cloture && !seq_contains(t, "filed"@) && !seq_contains(
                t,
                "scheduled"@,
            ) && !seq_contains(t, "invoked"@) && !seq_contains(t, "agreed to"@) && (seq_contains(t, "failed"@)
                || seq_contains(t, "rejected"@)) ==> align_spec(a) == Some(SenateEvent::ClotureFails)
            &&& align_spec(a) == Some(SenateEvent::ClotureInvoked) ==> a.category == NormalizedActionCategory::Cloture
                && (seq_contains(t, "invoked"@) || seq_contains(t, "agreed to"@))
            &&& align_spec(a) == Some(SenateEvent::ClotureFails) ==> a.category == NormalizedActionCategory::Cloture
                && (seq_contains(t, "failed"@) || seq_contains(t, "rejected"@))
        }),
{
}

} // verus!
