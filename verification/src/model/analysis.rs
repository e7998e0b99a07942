use vstd::prelude::*;
use crate::model::context::ProceduralStage;
use crate::model::error::SenateSimError;
use crate::model::stance::{ProceduralPosture, PublicPosition, StanceLabel};
use crate::util::score::{unit, SCALE};

verus! {

/// A senator whose position is near the coalition boundary.
pub struct PivotSummary {
    pub senator_id: String,
    pub stance_label: StanceLabel,
    pub procedural_posture: ProceduralPosture,
    pub substantive_support: i64,
    pub procedural_support: i64,
    pub negotiability: i64,
    pub reason: String,
}

/// A senator flagged as a likely blocker or defector.
pub struct SenatorSignalSummary {
    pub senator_id: String,
    pub public_position: PublicPosition,
    pub defection_probability: i64,
    pub rigidity: i64,
    pub reason: String,
}

/// The chamber-level picture for one legislative object.
pub struct SenateAnalysis {
    pub object_id: String,
    pub procedural_stage: ProceduralStage,
    pub total_senators: usize,
    pub likely_support_count: usize,
    pub lean_support_count: usize,
    pub undecided_count: usize,
    pub lean_oppose_count: usize,
    pub likely_oppose_count: usize,
    pub expected_present_count: usize,
    pub simple_majority_viable: bool,
    pub cloture_viable: bool,
    pub filibuster_risk: i64,
    pub coalition_stability: i64,
    pub pivotal_senators: Vec<PivotSummary>,
    pub likely_defectors: Vec<SenatorSignalSummary>,
    pub likely_blockers: Vec<SenatorSignalSummary>,
    pub top_findings: Vec<String>,
}

impl PivotSummary {
    pub fn copy(&self) -> (r: PivotSummary)
        ensures
            r == *self,
    {
        PivotSummary {
            senator_id: self.senator_id.clone(),
            stance_label: self.stance_label,
            procedural_posture: self.procedural_posture,
            substantive_support: self.substantive_support,
            procedural_support: self.procedural_support,
            negotiability: self.negotiability,
            reason: self.reason.clone(),
        }
    }
}

/// A copy of a list of pivot summaries.
pub fn copy_pivots(v: &Vec<PivotSummary>) -> (r: Vec<PivotSummary>)
    ensures
        r@ == v@,
{
    let mut out: Vec<PivotSummary> = Vec::new();
    let mut i: usize = 0;
    while i < v.len()
        invariant
            i <= v.len(),
            out@ == v@.subrange(0, i as int),
        decreases v.len() - i,
    {
        out.push(v[i].copy());
        proof {
            assert(v@.subrange(0, i + 1) =~= v@.subrange(0, i as int).push(v@[i as int]));
        }
        i = i + 1;
    }
    proof {
        assert(v@.subrange(0, v.len() as int) =~= v@);
    }
    out
}

impl SenateAnalysis {
    /// An analysis is valid when it names its object, covers at least one
    /// senator, its stance buckets add up to the chamber, no more senators are
    /// expected present than exist, and its risk and stability are unit scores.
    pub open spec fn wf(&self) -> bool {
        &&& self.object_id@.len() > 0
        &&& self.total_senators > 0
        &&& self.likely_support_count + self.lean_support_count + self.undecided_count
            + self.lean_oppose_count + self.likely_oppose_count == self.total_senators
        &&& self.expected_present_count <= self.total_senators
        &&& unit(self.filibuster_risk as int)
        &&& unit(self.coalition_stability as int)
    }

    pub fn validate(&self) -> (r: Result<(), SenateSimError>)
        ensures
            r is Ok <==> self.wf(),
    {
        if self.object_id.as_str().unicode_len() == 0 {
            return Err(SenateSimError::validation("senate_analysis.object_id", "must not be empty"));
        }
        if self.total_senators == 0 {
            return Err(SenateSimError::validation("senate_analysis.total_senators", "must be positive"));
        }
        let a = self.likely_support_count as u128;
        let b = self.lean_support_count as u128;
        let c = self.undecided_count as u128;
        let d = self.lean_oppose_count as u128;
        let e = self.likely_oppose_count as u128;
        if a + b + c + d + e != self.total_senators as u128 {
            return Err(SenateSimError::validation("senate_analysis.counts", "stance buckets must add up to total_senators"));
        }
        if self.expected_present_count > self.total_senators {
            return Err(SenateSimError::validation("senate_analysis.expected_present_count", "must not exceed total_senators"));
        }
        if self.filibuster_risk < 0 || self.filibuster_risk > SCALE {
            return Err(SenateSimError::validation("senate_analysis.filibuster_risk", "must be within [0, 1]"));
        }
        if self.coalition_stability < 0 || self.coalition_stability > SCALE {
            return Err(SenateSimError::validation("senate_analysis.coalition_stability", "must be within [0, 1]"));
        }
        Ok(())
    }
}

} // verus!
