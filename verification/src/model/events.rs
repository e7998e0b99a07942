use vstd::prelude::*;
use crate::model::analysis::PivotSummary;
use crate::model::context::ProceduralStage;
use crate::model::error::SenateSimError;
use crate::util::score::{unit, SCALE};

verus! {

#[derive(Debug, Clone, PartialEq, Eq)]
pub enum SenateEvent {
    NoMeaningfulMovement,
    LeadershipSignalsAction,
    MotionToProceedAttempted,
    DebateBegins,
    AmendmentFightBegins,
    ClotureFiled,
    ClotureVoteScheduled,
    ClotureInvoked,
    ClotureFails,
    FinalPassageScheduled,
    FinalPassageSucceeds,
    FinalPassageFails,
    NegotiationIntensifies,
    ProceduralBlock,
    ReturnedToCalendar,
    Other(String),
}

#[derive(Debug, Clone, Copy, PartialEq, Eq, Structural)]
pub enum FloorAction {
    LikelyAdvanceToDebate,
    LikelyClotureVote,
    LikelyClotureFailure,
    LikelyFinalPassage,
    LikelyNegotiation,
    LikelyAmendmentFight,
    LikelyProceduralBlock,
    LikelyStall,
}

/// A candidate next event with its unit score (ten-thousandths).
pub struct EventScore {
    pub event: SenateEvent,
    pub score: i64,
    pub reason: String,
}

/// The predicted next event for a legislative object.
pub struct NextEventPrediction {
    pub object_id: String,
    pub current_stage: ProceduralStage,
    pub predicted_event: SenateEvent,
    pub confidence: i64,
    pub alternative_events: Vec<EventScore>,
    pub top_reasons: Vec<String>,
    pub simple_majority_viable: bool,
    pub cloture_viable: bool,
    pub coalition_stability: i64,
    pub filibuster_risk: i64,
}

/// The likely next floor action for a legislative object.
pub struct FloorActionAssessment {
    pub object_id: String,
    pub procedural_stage: ProceduralStage,
    pub predicted_action: FloorAction,
    pub confidence: i64,
    pub simple_majority_viable: bool,
    pub cloture_viable: bool,
    pub coalition_stability: i64,
    pub filibuster_risk: i64,
    pub support_margin_estimate: i32,
    pub cloture_gap_estimate: i32,
    pub pivotal_senators: Vec<PivotSummary>,
    pub top_reasons: Vec<String>,
}

impl SenateEvent {
    pub fn copy(&self) -> (r: SenateEvent)
        ensures
            r == *self,
    {
        match self {
            SenateEvent::NoMeaningfulMovement => SenateEvent::NoMeaningfulMovement,
            SenateEvent::LeadershipSignalsAction => SenateEvent::LeadershipSignalsAction,
            SenateEvent::MotionToProceedAttempted => SenateEvent::MotionToProceedAttempted,
            SenateEvent::DebateBegins => SenateEvent::DebateBegins,
            SenateEvent::AmendmentFightBegins => SenateEvent::AmendmentFightBegins,
            SenateEvent::ClotureFiled => SenateEvent::ClotureFiled,
            SenateEvent::ClotureVoteScheduled => SenateEvent::ClotureVoteScheduled,
            SenateEvent::ClotureInvoked => SenateEvent::ClotureInvoked,
            SenateEvent::ClotureFails => SenateEvent::ClotureFails,
            SenateEvent::FinalPassageScheduled => SenateEvent::FinalPassageScheduled,
            SenateEvent::FinalPassageSucceeds => SenateEvent::FinalPassageSucceeds,
            SenateEvent::FinalPassageFails => SenateEvent::FinalPassageFails,
            SenateEvent::NegotiationIntensifies => SenateEvent::NegotiationIntensifies,
            SenateEvent::ProceduralBlock => SenateEvent::ProceduralBlock,
            SenateEvent::ReturnedToCalendar => SenateEvent::ReturnedToCalendar,
            SenateEvent::Other(s) => SenateEvent::Other(s.clone()),
        }
    }

    /// Events are the same when their variants agree and, for `Other`, their
    /// labels hold the same text.
    pub open spec fn same_spec(self, other: SenateEvent) -> bool {
        match (self, other) {
            (SenateEvent::Other(a), SenateEvent::Other(b)) => a@ == b@,
            _ => self.tag_spec() == other.tag_spec(),
        }
    }

    pub fn same(&self, other: &SenateEvent) -> (r: bool)
        ensures
            r == self.same_spec(*other),
    {
        match (self, other) {
            (SenateEvent::Other(a), SenateEvent::Other(b)) => *a == *b,
            (SenateEvent::Other(_), _) => false,
            (_, SenateEvent::Other(_)) => false,
            _ => self.tag() == other.tag(),
        }
    }

    /// The position of the event's variant in the declaration.
    pub open spec fn tag_spec(&self) -> u8 {
        match self {
            SenateEvent::NoMeaningfulMovement => 0,
            SenateEvent::LeadershipSignalsAction => 1,
            SenateEvent::MotionToProceedAttempted => 2,
            SenateEvent::DebateBegins => 3,
            SenateEvent::AmendmentFightBegins => 4,
            SenateEvent::ClotureFiled => 5,
            SenateEvent::ClotureVoteScheduled => 6,
            SenateEvent::ClotureInvoked => 7,
            SenateEvent::ClotureFails => 8,
            SenateEvent::FinalPassageScheduled => 9,
            SenateEvent::FinalPassageSucceeds => 10,
            SenateEvent::FinalPassageFails => 11,
            SenateEvent::NegotiationIntensifies => 12,
            SenateEvent::ProceduralBlock => 13,
            SenateEvent::ReturnedToCalendar => 14,
            SenateEvent::Other(_) => 15,
        }
    }

    #[verifier::when_used_as_spec(tag_spec)]
    pub fn tag(&self) -> (r: u8)
        ensures
            r == self.tag_spec(),
    {
        match self {
            SenateEvent::NoMeaningfulMovement => 0,
            SenateEvent::LeadershipSignalsAction => 1,
            SenateEvent::MotionToProceedAttempted => 2,
            SenateEvent::DebateBegins => 3,
            SenateEvent::AmendmentFightBegins => 4,
            SenateEvent::ClotureFiled => 5,
            SenateEvent::ClotureVoteScheduled => 6,
            SenateEvent::ClotureInvoked => 7,
            SenateEvent::ClotureFails => 8,
            SenateEvent::FinalPassageScheduled => 9,
            SenateEvent::FinalPassageSucceeds => 10,
            SenateEvent::FinalPassageFails => 11,
            SenateEvent::NegotiationIntensifies => 12,
            SenateEvent::ProceduralBlock => 13,
            SenateEvent::ReturnedToCalendar => 14,
            SenateEvent::Other(_) => 15,
        }
    }
}

impl EventScore {
    pub fn copy(&self) -> (r: EventScore)
        ensures
            r == *self,
    {
        EventScore { event: self.event.copy(), score: self.score, reason: self.reason.clone() }
    }
}

/// Scores in descending order.
pub open spec fn scores_descending(v: Seq<EventScore>) -> bool {
    forall|i: int, j: int| 0 <= i < j < v.len() ==> v[i].score >= v[j].score
}

impl NextEventPrediction {
    /// A prediction is valid when it names its object, its confidence and
    /// scores are unit scores, and its alternatives come in descending score order.
    pub open spec fn wf(&self) -> bool {
        &&& self.object_id@.len() > 0
        &&& unit(self.confidence as int)
        &&& unit(self.coalition_stability as int)
        &&& unit(self.filibuster_risk as int)
        &&& forall|i: int| 0 <= i < self.alternative_events.len() ==> unit(
            #[trigger] self.alternative_events@[i].score as int,
        )
        &&& scores_descending(self.alternative_events@)
    }

    pub fn validate(&self) -> (r: Result<(), SenateSimError>)
        ensures
            r is Ok <==> self.wf(),
    {
        if self.object_id.as_str().unicode_len() == 0 {
            return Err(SenateSimError::validation("next_event_prediction.object_id", "must not be empty"));
        }
        if self.confidence < 0 || self.confidence > SCALE || self.coalition_stability < 0
            || self.coalition_stability > SCALE || self.filibuster_risk < 0 || self.filibuster_risk
            > SCALE {
            return Err(SenateSimError::validation("next_event_prediction.scores", "must be within [0, 1]"));
        }
        let n = self.alternative_events.len();
        let mut i: usize = 0;
        while i < n
            invariant
                n == self.alternative_events@.len(),
                i <= n,
                forall|k: int| 0 <= k < i ==> unit(#[trigger] self.alternative_events@[k].score as int),
                forall|k: int| 0 <= k < i && k + 1 < n ==> #[trigger] self.alternative_events@[k].score
                    >= self.alternative_events@[k + 1].score,
            decreases n - i,
        {
            let s = self.alternative_events[i].score;
            if s < 0 || s > SCALE {
                return Err(SenateSimError::validation("next_event_prediction.alternative_events", "scores must be within [0, 1]"));
            }
            if i + 1 < n && s < self.alternative_events[i + 1].score {
                proof {
                    assert(!scores_descending(self.alternative_events@));
                }
                return Err(SenateSimError::validation("next_event_prediction.alternative_events", "must be sorted by descending score"));
            }
            i = i + 1;
        }
        proof {
            lemma_adjacent_descending(self.alternative_events@);
        }
        Ok(())
    }
}

/// Adjacent pairs in order make the whole sequence ordered.
pub proof fn lemma_adjacent_descending(v: Seq<EventScore>)
    requires
        forall|k: int| 0 <= k && k + 1 < v.len() ==> #[trigger] v[k].score >= v[k + 1].score,
    ensures
        scores_descending(v),
{
    assert forall|i: int, j: int| 0 <= i < j < v.len() implies v[i].score >= v[j].score by {
        lemma_descending_step(v, i, j);
    }
}

proof fn lemma_descending_step(v: Seq<EventScore>, i: int, j: int)
    requires
        0 <= i < j < v.len(),
        forall|k: int| 0 <= k && k + 1 < v.len() ==> #[trigger] v[k].score >= v[k + 1].score,
    ensures
        v[i].score >= v[j].score,
    decreases j - i,
{
    if j > i + 1 {
        lemma_descending_step(v, i, j - 1);
        assert(v[j - 1].score >= v[j].score);
    } else {
        assert(v[i].score >= v[i + 1].score);
    }
}

impl FloorActionAssessment {
    /// An assessment is valid when it names its object and its confidence,
    /// stability and risk are unit scores.
    pub open spec fn wf(&self) -> bool {
        &&& self.object_id@.len() > 0
        &&& unit(self.confidence as int)
        &&& unit(self.coalition_stability as int)
        &&& unit(self.filibuster_risk as int)
    }

    pub fn validate(&self) -> (r: Result<(), SenateSimError>)
        ensures
            r is Ok <==> self.wf(),
    {
        if self.object_id.as_str().unicode_len() == 0 {
            return Err(SenateSimError::validation("floor_action_assessment.object_id", "must not be empty"));
        }
        if self.confidence < 0 || self.confidence > SCALE || self.coalition_stability < 0
            || self.coalition_stability > SCALE || self.filibuster_risk < 0 || self.filibuster_risk
            > SCALE {
            return Err(SenateSimError::validation("floor_action_assessment.scores", "must be within [0, 1]"));
        }
        Ok(())
    }
}

} // verus!
