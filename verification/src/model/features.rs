//! Per-senator features derived from vote history.

use vstd::prelude::*;
use crate::model::error::SenateSimError;
use crate::model::identity::Party;
use crate::util::calendar::CalendarDate;
use crate::util::score::{signed_unit, unit, SCALE};

verus! {

/// A senator's behavioral features at a snapshot date. Rates and baselines
/// are unit scores and issue scores signed scores, in ten-thousandths.
pub struct SenatorFeatureRecord {
    pub snapshot_date: CalendarDate,
    pub senator_id: String,
    pub full_name: String,
    pub party: Party,
    pub state: String,
    pub party_loyalty_baseline: i64,
    pub bipartisanship_baseline: i64,
    pub attendance_reliability: i64,
    pub ideology_proxy: i64,
    pub cloture_support_baseline: i64,
    pub motion_to_proceed_baseline: i64,
    pub amendment_openness: i64,
    pub procedural_rigidity: i64,
    pub defense_score: i64,
    pub budget_tax_score: i64,
    pub healthcare_score: i64,
    pub immigration_score: i64,
    pub energy_climate_score: i64,
    pub judiciary_score: i64,
    pub technology_score: i64,
    pub foreign_policy_score: i64,
    pub labor_score: i64,
    pub education_score: i64,
    pub recent_party_loyalty: i64,
    pub recent_bipartisanship: i64,
    pub recent_cloture_support: i64,
    pub recent_attendance_reliability: i64,
    pub historical_vote_count: usize,
    pub recent_vote_count: usize,
    pub coverage_score: i64,
    pub notes: Vec<String>,
}

/// Totals over the feature records of one snapshot; `average_coverage_score`
/// is a unit score.
pub struct FeatureReport {
    pub snapshot_date: CalendarDate,
    pub senators_processed: usize,
    pub senators_with_sparse_history: usize,
    pub average_coverage_score: i64,
    pub notes: Vec<String>,
}

fn in_unit(x: i64) -> (r: bool)
    ensures
        r == unit(x as int),
{
    0 <= x && x <= SCALE
}

fn in_signed(x: i64) -> (r: bool)
    ensures
        r == signed_unit(x as int),
{
    -SCALE <= x && x <= SCALE
}

impl SenatorFeatureRecord {
    /// A feature record is valid when it names its senator and every rate and
    /// score lies in its range.
    pub open spec fn wf(&self) -> bool {
        &&& self.senator_id@.len() > 0
        &&& unit(self.party_loyalty_baseline as int)
        &&& unit(self.bipartisanship_baseline as int)
        &&& unit(self.attendance_reliability as int)
        &&& signed_unit(self.ideology_proxy as int)
        &&& unit(self.cloture_support_baseline as int)
        &&& unit(self.motion_to_proceed_baseline as int)
        &&& unit(self.amendment_openness as int)
        &&& unit(self.procedural_rigidity as int)
        &&& signed_unit(self.defense_score as int)
        &&& signed_unit(self.budget_tax_score as int)
        &&& signed_unit(self.healthcare_score as int)
        &&& signed_unit(self.immigration_score as int)
        &&& signed_unit(self.energy_climate_score as int)
        &&& signed_unit(self.judiciary_score as int)
        &&& signed_unit(self.technology_score as int)
        &&& signed_unit(self.foreign_policy_score as int)
        &&& signed_unit(self.labor_score as int)
        &&& signed_unit(self.education_score as int)
        &&& unit(self.recent_party_loyalty as int)
        &&& unit(self.recent_bipartisanship as int)
        &&& unit(self.recent_cloture_support as int)
        &&& unit(self.recent_attendance_reliability as int)
        &&& unit(self.coverage_score as int)
    }

    pub fn validate(&self) -> (r: Result<(), SenateSimError>)
        ensures
            r is Ok <==> self.wf(),
    {
        if self.senator_id.as_str().unicode_len() == 0 {
            return Err(SenateSimError::validation("senator_feature.senator_id", "must not be empty"));
        }
        if !(in_unit(self.party_loyalty_baseline) && in_unit(self.bipartisanship_baseline)
            && in_unit(self.attendance_reliability) && in_unit(self.cloture_support_baseline)
            && in_unit(self.motion_to_proceed_baseline) && in_unit(self.amendment_openness)
            && in_unit(self.procedural_rigidity) && in_unit(self.recent_party_loyalty) && in_unit(
            self.recent_bipartisanship,
        ) && in_unit(self.recent_cloture_support) && in_unit(self.recent_attendance_reliability)
            && in_unit(self.coverage_score)) {
            return Err(SenateSimError::validation("senator_feature.rates", "must be within [0, 1]"));
        }
        if !(in_signed(self.ideology_proxy) && in_signed(self.defense_score) && in_signed(
            self.budget_tax_score,
        ) && in_signed(self.healthcare_score) && in_signed(self.immigration_score) && in_signed(
            self.energy_climate_score,
        ) && in_signed(self.judiciary_score) && in_signed(self.technology_score) && in_signed(
            self.foreign_policy_score,
        ) && in_signed(self.labor_score) && in_signed(self.education_score)) {
            return Err(SenateSimError::validation("senator_feature.scores", "must be within [-1, 1]"));
        }
        Ok(())
    }
}

} // verus!
