use vstd::prelude::*;
use crate::model::context::Chamber;
use crate::model::error::SenateSimError;
use crate::util::calendar::CalendarDate;
use crate::util::score::{unit, SCALE};

verus! {

#[derive(Debug, Clone, PartialEq, Eq)]
pub enum PolicyDomain {
    Defense,
    BudgetTax,
    Healthcare,
    Immigration,
    EnergyClimate,
    Judiciary,
    Technology,
    ForeignPolicy,
    Labor,
    Education,
    Other(String),
}

#[derive(Debug, Clone, Copy, PartialEq, Eq, Structural)]
pub enum BudgetaryImpact {
    Moderate,
    High,
    Unknown,
}

#[derive(Debug, Clone, PartialEq, Eq)]
pub enum LegislativeObjectType {
    Bill,
    Amendment,
    ClotureVote,
    Other(String),
}

/// A bill, amendment or motion under consideration. `salience` and
/// `controversy` are unit scores in ten-thousandths.
pub struct LegislativeObject {
    pub object_id: String,
    pub title: String,
    pub object_type: LegislativeObjectType,
    pub policy_domain: PolicyDomain,
    pub summary: String,
    pub sponsor: Option<String>,
    pub cosponsors: Vec<String>,
    pub origin_chamber: Chamber,
    pub introduced_date: CalendarDate,
    pub current_version_label: Option<String>,
    pub budgetary_impact: BudgetaryImpact,
    pub salience: i64,
    pub controversy: i64,
}

impl PolicyDomain {
    pub fn copy(&self) -> (r: PolicyDomain)
        ensures
            r == *self,
    {
        match self {
            PolicyDomain::Defense => PolicyDomain::Defense,
            PolicyDomain::BudgetTax => PolicyDomain::BudgetTax,
            PolicyDomain::Healthcare => PolicyDomain::Healthcare,
            PolicyDomain::Immigration => PolicyDomain::Immigration,
            PolicyDomain::EnergyClimate => PolicyDomain::EnergyClimate,
            PolicyDomain::Judiciary => PolicyDomain::Judiciary,
            PolicyDomain::Technology => PolicyDomain::Technology,
            PolicyDomain::ForeignPolicy => PolicyDomain::ForeignPolicy,
            PolicyDomain::Labor => PolicyDomain::Labor,
            PolicyDomain::Education => PolicyDomain::Education,
            PolicyDomain::Other(s) => PolicyDomain::Other(s.clone()),
        }
    }

    /// Domains are the same when their variants agree and, for `Other`, their
    /// labels hold the same text.
    pub open spec fn same_spec(self, other: PolicyDomain) -> bool {
        match (self, other) {
            (PolicyDomain::Other(a), PolicyDomain::Other(b)) => a@ == b@,
            (PolicyDomain::Other(_), _) => false,
            (_, PolicyDomain::Other(_)) => false,
            _ => self == other,
        }
    }

    pub fn same(&self, other: &PolicyDomain) -> (r: bool)
        ensures
            r == self.same_spec(*other),
    {
        match (self, other) {
            (PolicyDomain::Defense, PolicyDomain::Defense) => true,
            (PolicyDomain::BudgetTax, PolicyDomain::BudgetTax) => true,
            (PolicyDomain::Healthcare, PolicyDomain::Healthcare) => true,
            (PolicyDomain::Immigration, PolicyDomain::Immigration) => true,
            (PolicyDomain::EnergyClimate, PolicyDomain::EnergyClimate) => true,
            (PolicyDomain::Judiciary, PolicyDomain::Judiciary) => true,
            (PolicyDomain::Technology, PolicyDomain::Technology) => true,
            (PolicyDomain::ForeignPolicy, PolicyDomain::ForeignPolicy) => true,
            (PolicyDomain::Labor, PolicyDomain::Labor) => true,
            (PolicyDomain::Education, PolicyDomain::Education) => true,
            (PolicyDomain::Other(a), PolicyDomain::Other(b)) => *a == *b,
            _ => false,
        }
    }
}

impl LegislativeObjectType {
    pub fn copy(&self) -> (r: LegislativeObjectType)
        ensures
            r == *self,
    {
        match self {
            LegislativeObjectType::Bill => LegislativeObjectType::Bill,
            LegislativeObjectType::Amendment => LegislativeObjectType::Amendment,
            LegislativeObjectType::ClotureVote => LegislativeObjectType::ClotureVote,
            LegislativeObjectType::Other(s) => LegislativeObjectType::Other(s.clone()),
        }
    }
}

impl LegislativeObject {
    /// A legislative object is valid when it has an id and a title and its
    /// salience and controversy are unit scores.
    pub open spec fn wf(&self) -> bool {
        &&& self.object_id@.len() > 0
        &&& self.title@.len() > 0
        &&& unit(self.salience as int)
        &&& unit(self.controversy as int)
    }

    pub fn validate(&self) -> (r: Result<(), SenateSimError>)
        ensures
            r is Ok <==> self.wf(),
    {
        if self.object_id.as_str().unicode_len() == 0 {
            return Err(SenateSimError::validation("legislative_object.object_id", "must not be empty"));
        }
        if self.title.as_str().unicode_len() == 0 {
            return Err(SenateSimError::validation("legislative_object.title", "must not be empty"));
        }
        if self.salience < 0 || self.salience > SCALE {
            return Err(SenateSimError::validation("legislative_object.salience", "must be within [0, 1]"));
        }
        if self.controversy < 0 || self.controversy > SCALE {
            return Err(SenateSimError::validation("legislative_object.controversy", "must be within [0, 1]"));
        }
        Ok(())
    }
}

} // verus!
