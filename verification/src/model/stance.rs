use vstd::prelude::*;
use crate::model::error::SenateSimError;
use crate::util::score::{unit, signed_unit, SCALE};

verus! {

#[derive(Debug, Clone, Copy, PartialEq, Eq, Structural)]
pub enum StanceLabel {
    Support,
    LeanSupport,
    Undecided,
    LeanOppose,
    Oppose,
}

#[derive(Debug, Clone, Copy, PartialEq, Eq, Structural)]
pub enum ProceduralPosture {
    SupportCloture,
    OpposeCloture,
    SupportDebate,
    OpposeDebate,
    SupportAmendmentProcess,
    BlockByProcedure,
    Unclear,
}

#[derive(Debug, Clone, Copy, PartialEq, Eq, Structural)]
pub enum PublicPosition {
    Support,
    Oppose,
    Undeclared,
    Negotiating,
    Mixed,
}

/// How a feature-driven stance was scored. Unit scores and signed adjustments
/// are in ten-thousandths.
pub struct StanceScoreBreakdown {
    pub domain_affinity_score: i64,
    pub procedural_compatibility_score: i64,
    pub party_alignment_score: i64,
    pub salience_adjustment: i64,
    pub controversy_adjustment: i64,
    pub recent_drift_adjustment: i64,
    pub attendance_adjustment: i64,
    pub coverage_score: i64,
    pub fallback_notes: Vec<String>,
    pub top_factors: Vec<String>,
}

/// One senator's estimated stance toward one legislative object. The seven
/// scores are unit scores in ten-thousandths.
pub struct SenatorStance {
    pub senator_id: String,
    pub object_id: String,
    pub context_id: Option<String>,
    pub substantive_support: i64,
    pub procedural_support: i64,
    pub public_support: i64,
    pub negotiability: i64,
    pub rigidity: i64,
    pub defection_probability: i64,
    pub absence_probability: i64,
    pub stance_label: StanceLabel,
    pub procedural_posture: ProceduralPosture,
    pub public_position: PublicPosition,
    pub top_factors: Vec<String>,
    pub score_breakdown: Option<StanceScoreBreakdown>,
}

impl SenatorStance {
    /// A stance is valid when it names its senator and object and its seven
    /// scores are unit scores.
    pub open spec fn wf(&self) -> bool {
        &&& self.senator_id@.len() > 0
        &&& self.object_id@.len() > 0
        &&& unit(self.substantive_support as int)
        &&& unit(self.procedural_support as int)
        &&& unit(self.public_support as int)
        &&& unit(self.negotiability as int)
        &&& unit(self.rigidity as int)
        &&& unit(self.defection_probability as int)
        &&& unit(self.absence_probability as int)
    }

    pub fn validate(&self) -> (r: Result<(), SenateSimError>)
        ensures
            r is Ok <==> self.wf(),
    {
        if self.senator_id.as_str().unicode_len() == 0 {
            return Err(SenateSimError::validation("senator_stance.senator_id", "must not be empty"));
        }
        if self.object_id.as_str().unicode_len() == 0 {
            return Err(SenateSimError::validation("senator_stance.object_id", "must not be empty"));
        }
        if !(0 <= self.substantive_support && self.substantive_support <= SCALE && 0
            <= self.procedural_support && self.procedural_support <= SCALE && 0
            <= self.public_support && self.public_support <= SCALE && 0 <= self.negotiability
            && self.negotiability <= SCALE && 0 <= self.rigidity && self.rigidity <= SCALE && 0
            <= self.defection_probability && self.defection_probability <= SCALE && 0
            <= self.absence_probability && self.absence_probability <= SCALE) {
            return Err(SenateSimError::validation("senator_stance.scores", "must be within [0, 1]"));
        }
        Ok(())
    }
}

impl StanceScoreBreakdown {
    pub open spec fn wf(&self) -> bool {
        &&& unit(self.domain_affinity_score as int)
        &&& unit(self.procedural_compatibility_score as int)
        &&& unit(self.party_alignment_score as int)
        &&& unit(self.coverage_score as int)
        &&& signed_unit(self.salience_adjustment as int)
        &&& signed_unit(self.controversy_adjustment as int)
        &&& signed_unit(self.recent_drift_adjustment as int)
        &&& signed_unit(self.attendance_adjustment as int)
    }
}

} // verus!
