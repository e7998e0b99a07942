use vstd::prelude::*;
use crate::model::error::SenateSimError;
use crate::model::identity::Party;
use crate::util::score::{unit, SCALE};

verus! {

#[derive(Debug, Clone, Copy, PartialEq, Eq, Structural)]
pub enum Chamber {
    Senate,
    House,
}

#[derive(Debug, Clone, Copy, PartialEq, Eq, Structural)]
pub enum CongressionalSession {
    First,
    Second,
}

#[derive(Debug, Clone, PartialEq, Eq)]
pub enum ProceduralStage {
    Introduced,
    InCommittee,
    Reported,
    OnCalendar,
    MotionToProceed,
    Debate,
    AmendmentPending,
    ClotureFiled,
    ClotureVote,
    FinalPassage,
    Stalled,
    Conference,
    Other(String),
}

/// The procedural setting of a legislative object. `leadership_priority` and
/// `media_attention` are unit scores in ten-thousandths.
pub struct LegislativeContext {
    pub congress_number: u32,
    pub session: CongressionalSession,
    pub current_chamber: Chamber,
    pub procedural_stage: ProceduralStage,
    pub majority_party: Party,
    pub minority_party: Party,
    pub president_party: Party,
    pub days_until_election: Option<i32>,
    pub days_until_deadline: Option<i32>,
    pub under_unanimous_consent: bool,
    pub under_reconciliation: bool,
    pub leadership_priority: i64,
    pub media_attention: i64,
}

impl ProceduralStage {
    pub fn copy(&self) -> (r: ProceduralStage)
        ensures
            r == *self,
    {
        match self {
            ProceduralStage::Introduced => ProceduralStage::Introduced,
            ProceduralStage::InCommittee => ProceduralStage::InCommittee,
            ProceduralStage::Reported => ProceduralStage::Reported,
            ProceduralStage::OnCalendar => ProceduralStage::OnCalendar,
            ProceduralStage::MotionToProceed => ProceduralStage::MotionToProceed,
            ProceduralStage::Debate => ProceduralStage::Debate,
            ProceduralStage::AmendmentPending => ProceduralStage::AmendmentPending,
            ProceduralStage::ClotureFiled => ProceduralStage::ClotureFiled,
            ProceduralStage::ClotureVote => ProceduralStage::ClotureVote,
            ProceduralStage::FinalPassage => ProceduralStage::FinalPassage,
            ProceduralStage::Stalled => ProceduralStage::Stalled,
            ProceduralStage::Conference => ProceduralStage::Conference,
            ProceduralStage::Other(s) => ProceduralStage::Other(s.clone()),
        }
    }
}

impl LegislativeContext {
    /// A context is valid when its priority and attention are unit scores.
    pub open spec fn wf(&self) -> bool {
        &&& unit(self.leadership_priority as int)
        &&& unit(self.media_attention as int)
    }

    pub fn validate(&self) -> (r: Result<(), SenateSimError>)
        ensures
            r is Ok <==> self.wf(),
    {
        if self.leadership_priority < 0 || self.leadership_priority > SCALE {
            return Err(SenateSimError::validation("legislative_context.leadership_priority", "must be within [0, 1]"));
        }
        if self.media_attention < 0 || self.media_attention > SCALE {
            return Err(SenateSimError::validation("legislative_context.media_attention", "must be within [0, 1]"));
        }
        Ok(())
    }
}

} // verus!
