//! Source records: raw records as fetched (the plain values the library reads
//! from them) and the normalized records built from them.

use vstd::prelude::*;
use crate::model::context::{Chamber, ProceduralStage};
use crate::model::error::SenateSimError;
use crate::model::identity::{Party, SenateClass};
use crate::model::legislative::{BudgetaryImpact, LegislativeObjectType, PolicyDomain};
use crate::util::calendar::CalendarDate;
use crate::util::score::{unit, SCALE};

verus! {

#[derive(Debug, Clone, Copy, PartialEq, Eq, Structural)]
pub enum NormalizedActionCategory {
    Introduced,
    Referred,
    Reported,
    MotionToProceed,
    Debate,
    Amendment,
    Cloture,
    Passage,
    Stall,
    Other,
}

#[derive(Debug, Clone, Copy, PartialEq, Eq, Structural)]
pub enum VoteCategory {
    Passage,
    Cloture,
    MotionToProceed,
    Amendment,
    Nomination,
    Procedural,
    Other,
}

#[derive(Debug, Clone, Copy, PartialEq, Eq, Structural)]
pub enum VotePosition {
    Yea,
    Nay,
    Present,
    NotVoting,
    Unknown,
}

#[derive(Debug, Clone, Copy, PartialEq, Eq, Structural)]
pub enum ProceduralKind {
    Cloture,
    MotionToProceed,
    AmendmentProcess,
    Table,
    Recommit,
    Other,
}

/// A roster entry as fetched.
#[derive(Debug)]
pub struct RawRosterRecord {
    pub source_member_id: String,
    pub name: String,
    pub party: String,
    pub state: String,
    pub chamber: Chamber,
    pub start_date: Option<CalendarDate>,
    pub end_date: Option<CalendarDate>,
    pub as_of_date: CalendarDate,
    pub source_name: String,
    pub source_identifier: String,
    pub source_url: Option<String>,
}

/// A piece of legislation as fetched.
#[derive(Debug)]
pub struct RawLegislativeRecord {
    pub source_object_id: String,
    pub title: String,
    pub summary: Option<String>,
    pub sponsor: Option<String>,
    pub introduced_date: Option<CalendarDate>,
    pub latest_status_text: Option<String>,
    pub as_of_date: CalendarDate,
    pub source_name: String,
    pub source_identifier: String,
    pub source_url: Option<String>,
}

/// A floor or committee action as fetched.
#[derive(Debug)]
pub struct RawActionRecord {
    pub source_action_id: String,
    pub object_id: String,
    pub action_date: CalendarDate,
    pub chamber: Chamber,
    pub action_text: String,
    pub action_type: Option<String>,
    pub as_of_date: CalendarDate,
    pub source_name: String,
    pub source_identifier: String,
    pub source_url: Option<String>,
}

/// One senator's recorded vote as fetched; `member_state` and
/// `member_last_name` are the member details the vote listing carries.
#[derive(Debug)]
pub struct RawVoteRecord {
    pub source_vote_id: String,
    pub vote_date: CalendarDate,
    pub senator_id: String,
    pub senator_name: String,
    pub object_id: Option<String>,
    pub vote_category: String,
    pub vote_position: String,
    pub party_at_time: Party,
    pub policy_domain: Option<PolicyDomain>,
    pub is_procedural: bool,
    pub procedural_kind: Option<String>,
    pub as_of_date: CalendarDate,
    pub source_name: String,
    pub source_identifier: String,
    pub source_url: Option<String>,
    pub member_state: Option<String>,
    pub member_last_name: Option<String>,
}

pub struct NormalizedSenatorRecord {
    pub senator_id: String,
    pub full_name: String,
    pub party: Party,
    pub state: String,
    pub class: SenateClass,
    pub start_date: CalendarDate,
    pub end_date: Option<CalendarDate>,
    pub source_member_id: String,
    pub as_of_date: CalendarDate,
}

/// Normalized legislation; `salience` and `controversy` are unit scores.
pub struct NormalizedLegislativeRecord {
    pub object_id: String,
    pub title: String,
    pub summary: String,
    pub object_type: LegislativeObjectType,
    pub policy_domain: PolicyDomain,
    pub sponsor: Option<String>,
    pub introduced_date: CalendarDate,
    pub latest_status_text: Option<String>,
    pub current_stage: ProceduralStage,
    pub origin_chamber: Chamber,
    pub budgetary_impact: BudgetaryImpact,
    pub salience: i64,
    pub controversy: i64,
    pub as_of_date: CalendarDate,
}

pub struct NormalizedActionRecord {
    pub action_id: String,
    pub object_id: String,
    pub action_date: CalendarDate,
    pub chamber: Chamber,
    pub action_text: String,
    pub category: NormalizedActionCategory,
    pub as_of_date: CalendarDate,
}

pub struct NormalizedVoteRecord {
    pub vote_id: String,
    pub vote_date: CalendarDate,
    pub senator_id: String,
    pub senator_name: String,
    pub object_id: Option<String>,
    pub vote_category: VoteCategory,
    pub vote_position: VotePosition,
    pub party_at_time: Party,
    pub policy_domain: Option<PolicyDomain>,
    pub is_procedural: bool,
    pub procedural_kind: Option<ProceduralKind>,
    pub as_of_date: CalendarDate,
}

impl NormalizedSenatorRecord {
    /// A senator record is valid when its id, name and state are present.
    pub open spec fn wf(&self) -> bool {
        &&& self.senator_id@.len() > 0
        &&& self.full_name@.len() > 0
        &&& self.state@.len() > 0
    }

    pub fn validate(&self) -> (r: Result<(), SenateSimError>)
        ensures
            r is Ok <==> self.wf(),
    {
        if self.senator_id.as_str().unicode_len() == 0 {
            return Err(SenateSimError::validation("normalized_senator.senator_id", "must not be empty"));
        }
        if self.full_name.as_str().unicode_len() == 0 {
            return Err(SenateSimError::validation("normalized_senator.full_name", "must not be empty"));
        }
        if self.state.as_str().unicode_len() == 0 {
            return Err(SenateSimError::validation("normalized_senator.state", "must not be empty"));
        }
        Ok(())
    }
}

impl NormalizedLegislativeRecord {
    /// A legislative record is valid when it has an id and a title and its
    /// salience and controversy are unit scores.
    pub open spec fn wf(&self) -> bool {
        &&& self.object_id@.len() > 0
        &&& self.title@.len() > 0
        &&& unit(self.salience as int)
        &&& unit(self.controversy as int)
    }

    pub fn validate(&self) -> (r: Result<(), SenateSimError>)
        ensures
            r is Ok <==> self.wf(),
    {
        if self.object_id.as_str().unicode_len() == 0 {
            return Err(SenateSimError::validation("normalized_legislation.object_id", "must not be empty"));
        }
        if self.title.as_str().unicode_len() == 0 {
            return Err(SenateSimError::validation("normalized_legislation.title", "must not be empty"));
        }
        if self.salience < 0 || self.salience > SCALE || self.controversy < 0 || self.controversy
            > SCALE {
            return Err(SenateSimError::validation("normalized_legislation.scores", "must be within [0, 1]"));
        }
        Ok(())
    }
}

impl NormalizedActionRecord {
    /// An action record is valid when it names its action and its object.
    pub open spec fn wf(&self) -> bool {
        &&& self.action_id@.len() > 0
        &&& self.object_id@.len() > 0
    }

    pub fn validate(&self) -> (r: Result<(), SenateSimError>)
        ensures
            r is Ok <==> self.wf(),
    {
        if self.action_id.as_str().unicode_len() == 0 {
            return Err(SenateSimError::validation("normalized_action.action_id", "must not be empty"));
        }
        if self.object_id.as_str().unicode_len() == 0 {
            return Err(SenateSimError::validation("normalized_action.object_id", "must not be empty"));
        }
        Ok(())
    }

    pub fn copy(&self) -> (r: NormalizedActionRecord)
        ensures
            r.action_id@ == self.action_id@,
            r.object_id@ == self.object_id@,
            r.action_date == self.action_date,
            r.chamber == self.chamber,
            r.action_text@ == self.action_text@,
            r.category == self.category,
            r.as_of_date == self.as_of_date,
    {
        NormalizedActionRecord {
            action_id: self.action_id.clone(),
            object_id: self.object_id.clone(),
            action_date: self.action_date.copy(),
            chamber: self.chamber,
            action_text: self.action_text.clone(),
            category: self.category,
            as_of_date: self.as_of_date.copy(),
        }
    }
}

impl NormalizedVoteRecord {
    /// A vote record is valid when it names its roll call and its senator.
    pub open spec fn wf(&self) -> bool {
        &&& self.vote_id@.len() > 0
        &&& self.senator_id@.len() > 0
    }

    pub fn validate(&self) -> (r: Result<(), SenateSimError>)
        ensures
            r is Ok <==> self.wf(),
    {
        if self.vote_id.as_str().unicode_len() == 0 {
            return Err(SenateSimError::validation("normalized_vote.vote_id", "must not be empty"));
        }
        if self.senator_id.as_str().unicode_len() == 0 {
            return Err(SenateSimError::validation("normalized_vote.senator_id", "must not be empty"));
        }
        Ok(())
    }
}

fn copy_text(o: &Option<String>) -> (r: Option<String>)
    ensures
        r == *o,
{
    match o {
        Some(t) => Some(t.clone()),
        None => None,
    }
}

fn copy_date(o: &Option<CalendarDate>) -> (r: Option<CalendarDate>)
    ensures
        r == *o,
{
    match o {
        Some(d) => Some(d.copy()),
        None => None,
    }
}

impl RawRosterRecord {
    pub fn copy(&self) -> (r: RawRosterRecord)
        ensures
            r == *self,
    {
        RawRosterRecord {
            source_member_id: self.source_member_id.clone(),
            name: self.name.clone(),
            party: self.party.clone(),
            state: self.state.clone(),
            chamber: self.chamber,
            start_date: copy_date(&self.start_date),
            end_date: copy_date(&self.end_date),
            as_of_date: self.as_of_date.copy(),
            source_name: self.source_name.clone(),
            source_identifier: self.source_identifier.clone(),
            source_url: copy_text(&self.source_url),
        }
    }
}

impl RawLegislativeRecord {
    pub fn copy(&self) -> (r: RawLegislativeRecord)
        ensures
            r == *self,
    {
        RawLegislativeRecord {
            source_object_id: self.source_object_id.clone(),
            title: self.title.clone(),
            summary: copy_text(&self.summary),
            sponsor: copy_text(&self.sponsor),
            introduced_date: copy_date(&self.introduced_date),
            latest_status_text: copy_text(&self.latest_status_text),
            as_of_date: self.as_of_date.copy(),
            source_name: self.source_name.clone(),
            source_identifier: self.source_identifier.clone(),
            source_url: copy_text(&self.source_url),
        }
    }
}

impl RawVoteRecord {
    pub fn copy(&self) -> (r: RawVoteRecord)
        ensures
            r == *self,
    {
        RawVoteRecord {
            source_vote_id: self.source_vote_id.clone(),
            vote_date: self.vote_date.copy(),
            senator_id: self.senator_id.clone(),
            senator_name: self.senator_name.clone(),
            object_id: copy_text(&self.object_id),
            vote_category: self.vote_category.clone(),
            vote_position: self.vote_position.clone(),
            party_at_time: self.party_at_time.copy(),
            policy_domain: match &self.policy_domain {
                Some(d) => Some(d.copy()),
                None => None,
            },
            is_procedural: self.is_procedural,
            procedural_kind: copy_text(&self.procedural_kind),
            as_of_date: self.as_of_date.copy(),
            source_name: self.source_name.clone(),
            source_identifier: self.source_identifier.clone(),
            source_url: copy_text(&self.source_url),
            member_state: copy_text(&self.member_state),
            member_last_name: copy_text(&self.member_last_name),
        }
    }
}

} // verus!
