//! Historical timelines, evaluation examples and their results.

use vstd::prelude::*;
use crate::model::context::ProceduralStage;
use crate::model::error::SenateSimError;
use crate::model::events::SenateEvent;
use crate::model::records::NormalizedActionCategory;
use crate::util::calendar::CalendarDate;
use crate::util::score::{unit, SCALE};

verus! {

/// One action of a legislative object's history, aligned with an event.
pub struct HistoricalActionEvent {
    pub object_id: String,
    pub action_date: CalendarDate,
    pub raw_action_text: String,
    pub normalized_action_category: NormalizedActionCategory,
    pub aligned_senate_event: Option<SenateEvent>,
    pub is_consequential: bool,
    pub source_record_id: Option<String>,
}

/// The actions of one legislative object, in date order.
pub struct HistoricalTimeline {
    pub object_id: String,
    pub events: Vec<HistoricalActionEvent>,
}

/// A labeled example: what happened next to an object after a snapshot.
pub struct EvaluationExample {
    pub example_id: String,
    pub snapshot_date: CalendarDate,
    pub object_id: String,
    pub current_stage: Option<ProceduralStage>,
    pub actual_next_event: Option<SenateEvent>,
    pub actual_next_event_date: Option<CalendarDate>,
    pub snapshot_path: String,
    pub timeline_position: usize,
    pub notes: Vec<String>,
}

/// Accuracy of next-event predictions over a set of examples; the three
/// rates are unit scores in ten-thousandths.
pub struct EvaluationSummary {
    pub total_examples: usize,
    pub top_1_next_event_accuracy: i64,
    pub top_k_next_event_accuracy: i64,
    pub trajectory_prefix_match_rate: i64,
    pub unscorable_examples: usize,
    pub notes: Vec<String>,
}

pub struct ActualTrajectoryEvent {
    pub event: SenateEvent,
    pub event_date: CalendarDate,
    pub source_action_text: String,
}

/// The events that actually followed a snapshot, up to a horizon.
pub struct ActualTrajectory {
    pub snapshot_date: CalendarDate,
    pub object_id: String,
    pub events: Vec<ActualTrajectoryEvent>,
    pub horizon_days: Option<i64>,
    pub max_steps: usize,
}

/// Counts describing how actions were aligned for a snapshot.
pub struct AlignmentReport {
    pub snapshot_date: CalendarDate,
    pub objects_processed: usize,
    pub examples_generated: usize,
    pub ambiguous_actions: usize,
    pub unaligned_consequential_actions: usize,
    pub notes: Vec<String>,
}

/// The outcome of replaying one prediction against what happened next: the
/// Senate event of the first aligned consequential action after the snapshot
/// date; `prediction_confidence` is a unit score in ten-thousandths.
pub struct BacktestResult {
    pub snapshot_date: CalendarDate,
    pub object_id: String,
    pub predicted_next_event: Option<SenateEvent>,
    pub actual_next_event: Option<SenateEvent>,
    pub match_top_1: bool,
    pub match_top_k: bool,
    pub prediction_confidence: Option<i64>,
    pub notes: Vec<String>,
}

impl EvaluationSummary {
    /// A summary is valid when its rates are unit scores and no more examples
    /// are unscorable than there are.
    pub open spec fn wf(&self) -> bool {
        &&& unit(self.top_1_next_event_accuracy as int)
        &&& unit(self.top_k_next_event_accuracy as int)
        &&& unit(self.trajectory_prefix_match_rate as int)
        &&& self.unscorable_examples <= self.total_examples
    }

    pub fn validate(&self) -> (r: Result<(), SenateSimError>)
        ensures
            r is Ok <==> self.wf(),
    {
        if self.top_1_next_event_accuracy < 0 || self.top_1_next_event_accuracy > SCALE
            || self.top_k_next_event_accuracy < 0 || self.top_k_next_event_accuracy > SCALE
            || self.trajectory_prefix_match_rate < 0 || self.trajectory_prefix_match_rate > SCALE {
            return Err(SenateSimError::validation("evaluation_summary.rates", "must be within [0, 1]"));
        }
        if self.unscorable_examples > self.total_examples {
            return Err(SenateSimError::validation("evaluation_summary.unscorable_examples", "cannot exceed total_examples"));
        }
        Ok(())
    }
}

impl BacktestResult {
    /// A backtest result is valid when it names its object and its confidence,
    /// if any, is a unit score.
    pub open spec fn wf(&self) -> bool {
        &&& self.object_id@.len() > 0
        &&& (self.prediction_confidence matches Some(c) ==> unit(c as int))
    }

    pub fn validate(&self) -> (r: Result<(), SenateSimError>)
        ensures
            r is Ok <==> self.wf(),
    {
        if self.object_id.as_str().unicode_len() == 0 {
            return Err(SenateSimError::validation("backtest_result.object_id", "must not be empty"));
        }
        match self.prediction_confidence {
            Some(c) => if c < 0 || c > SCALE {
                return Err(SenateSimError::validation("backtest_result.prediction_confidence", "must be within [0, 1]"));
            },
            None => {},
        }
        Ok(())
    }
}

} // verus!
