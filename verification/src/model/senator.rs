use vstd::prelude::*;
use crate::model::error::SenateSimError;
use crate::model::identity::{Party, SenateClass};
use crate::model::stance::PublicPosition;
use crate::util::calendar::CalendarDate;
use crate::util::score::{signed_unit, unit, SCALE};

verus! {

pub struct Identity {
    pub senator_id: String,
    pub full_name: String,
    pub party: Party,
    pub state: String,
    pub class: SenateClass,
    pub start_date: CalendarDate,
    pub end_date: Option<CalendarDate>,
}

/// Slow-changing political attributes. `ideology_score` is signed; the rest
/// are unit scores (ten-thousandths).
pub struct StructuralProfile {
    pub ideology_score: i64,
    pub party_loyalty_baseline: i64,
    pub bipartisanship_baseline: i64,
    pub committee_assignments: Vec<String>,
    pub reelection_year: Option<i32>,
    pub electoral_vulnerability: i64,
}

/// Signed issue preferences (ten-thousandths, -1 to 1).
pub struct IssuePreferences {
    pub defense: i64,
    pub immigration: i64,
    pub energy_climate: i64,
    pub labor: i64,
    pub healthcare: i64,
    pub tax_spending: i64,
    pub judiciary: i64,
    pub trade: i64,
    pub tech_privacy: i64,
    pub foreign_policy: i64,
}

/// Procedural tendencies (unit scores).
pub struct Procedural {
    pub cloture_support_baseline: i64,
    pub motion_to_proceed_baseline: i64,
    pub uc_objection_tendency: i64,
    pub leadership_deference: i64,
    pub amendment_openness: i64,
    pub attendance_reliability: i64,
}

/// The senator's current political moment (unit scores).
pub struct DynamicState {
    pub current_public_position: PublicPosition,
    pub current_substantive_support: i64,
    pub current_procedural_support: i64,
    pub current_negotiability: i64,
    pub current_party_pressure: i64,
    pub current_issue_salience_in_state: i64,
}

/// A senator as a political agent.
pub struct Senator {
    pub identity: Identity,
    pub structural: StructuralProfile,
    pub issue_preferences: IssuePreferences,
    pub procedural: Procedural,
    pub dynamic_state: DynamicState,
    pub feature_coverage_score: Option<i64>,
    pub feature_notes: Vec<String>,
}

impl IssuePreferences {
    pub open spec fn wf(&self) -> bool {
        &&& signed_unit(self.defense as int)
        &&& signed_unit(self.immigration as int)
        &&& signed_unit(self.energy_climate as int)
        &&& signed_unit(self.labor as int)
        &&& signed_unit(self.healthcare as int)
        &&& signed_unit(self.tax_spending as int)
        &&& signed_unit(self.judiciary as int)
        &&& signed_unit(self.trade as int)
        &&& signed_unit(self.tech_privacy as int)
        &&& signed_unit(self.foreign_policy as int)
    }
}

impl Procedural {
    pub open spec fn wf(&self) -> bool {
        &&& unit(self.cloture_support_baseline as int)
        &&& unit(self.motion_to_proceed_baseline as int)
        &&& unit(self.uc_objection_tendency as int)
        &&& unit(self.leadership_deference as int)
        &&& unit(self.amendment_openness as int)
        &&& unit(self.attendance_reliability as int)
    }
}

impl DynamicState {
    pub open spec fn wf(&self) -> bool {
        &&& unit(self.current_substantive_support as int)
        &&& unit(self.current_procedural_support as int)
        &&& unit(self.current_negotiability as int)
        &&& unit(self.current_party_pressure as int)
        &&& unit(self.current_issue_salience_in_state as int)
    }
}

impl StructuralProfile {
    pub open spec fn wf(&self) -> bool {
        &&& signed_unit(self.ideology_score as int)
        &&& unit(self.party_loyalty_baseline as int)
        &&& unit(self.bipartisanship_baseline as int)
        &&& unit(self.electoral_vulnerability as int)
    }
}

fn in_unit(x: i64) -> (r: bool)
    ensures
        r == unit(x as int),
{
    0 <= x && x <= SCALE
}

fn in_signed(x: i64) -> (r: bool)
    ensures
        r == signed_unit(x as int),
{
    -SCALE <= x && x <= SCALE
}

impl Senator {
    /// A senator is valid when identified and every score lies in its range.
    pub open spec fn wf(&self) -> bool {
        &&& self.identity.senator_id@.len() > 0
        &&& self.structural.wf()
        &&& self.issue_preferences.wf()
        &&& self.procedural.wf()
        &&& self.dynamic_state.wf()
        &&& (self.feature_coverage_score matches Some(c) ==> unit(c as int))
    }

    pub fn validate(&self) -> (r: Result<(), SenateSimError>)
        ensures
            r is Ok <==> self.wf(),
    {
        if self.identity.senator_id.as_str().unicode_len() == 0 {
            return Err(SenateSimError::validation("senator.identity.senator_id", "must not be empty"));
        }
        let st = &self.structural;
        if !(in_signed(st.ideology_score) && in_unit(st.party_loyalty_baseline) && in_unit(
            st.bipartisanship_baseline,
        ) && in_unit(st.electoral_vulnerability)) {
            return Err(SenateSimError::validation("senator.structural", "scores out of range"));
        }
        let ip = &self.issue_preferences;
        if !(in_signed(ip.defense) && in_signed(ip.immigration) && in_signed(ip.energy_climate)
            && in_signed(ip.labor) && in_signed(ip.healthcare) && in_signed(ip.tax_spending)
            && in_signed(ip.judiciary) && in_signed(ip.trade) && in_signed(ip.tech_privacy)
            && in_signed(ip.foreign_policy)) {
            return Err(SenateSimError::validation("senator.issue_preferences", "scores must be within [-1, 1]"));
        }
        let p = &self.procedural;
        if !(in_unit(p.cloture_support_baseline) && in_unit(p.motion_to_proceed_baseline)
            && in_unit(p.uc_objection_tendency) && in_unit(p.leadership_deference) && in_unit(
            p.amendment_openness,
        ) && in_unit(p.attendance_reliability)) {
            return Err(SenateSimError::validation("senator.procedural", "scores must be within [0, 1]"));
        }
        let d = &self.dynamic_state;
        if !(in_unit(d.current_substantive_support) && in_unit(d.current_procedural_support)
            && in_unit(d.current_negotiability) && in_unit(d.current_party_pressure) && in_unit(
            d.current_issue_salience_in_state,
        )) {
            return Err(SenateSimError::validation("senator.dynamic_state", "scores must be within [0, 1]"));
        }
        match self.feature_coverage_score {
            Some(c) => if !in_unit(c) {
                return Err(SenateSimError::validation("senator.feature_coverage_score", "must be within [0, 1]"));
            },
            None => {},
        }
        Ok(())
    }
}

} // verus!
