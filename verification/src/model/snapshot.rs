//! Dated snapshots of normalized records, and the public-signal records and
//! summary attached to them.

use vstd::prelude::*;
use crate::model::error::SenateSimError;
use crate::model::legislative::PolicyDomain;
use crate::model::records::{
    NormalizedActionRecord, NormalizedLegislativeRecord, NormalizedSenatorRecord,
    NormalizedVoteRecord,
};
use crate::util::calendar::CalendarDate;
use crate::util::score::{signed_unit, unit, SCALE};

verus! {

#[derive(Debug, Clone, Copy, PartialEq, Eq, Structural)]
pub enum PublicSignalScope {
    Senator,
    LegislativeObject,
    PolicyDomain,
    Mixed,
}

/// Where one source's records came from. `fetched_at` is a Unix time in
/// seconds.
pub struct SourceManifest {
    pub source_name: String,
    pub fetched_at: i64,
    pub as_of_date: CalendarDate,
    pub source_identifier: String,
    pub content_hash: String,
    pub record_count: usize,
}

/// Public attention to a senator, object or domain; `attention_score` is a
/// unit score and `tone_score` a signed score, in ten-thousandths.
pub struct NormalizedPublicSignalRecord {
    pub snapshot_date: CalendarDate,
    pub signal_id: String,
    pub signal_scope: PublicSignalScope,
    pub linked_senator_id: Option<String>,
    pub linked_object_id: Option<String>,
    pub policy_domain: Option<PolicyDomain>,
    pub mention_count: u32,
    pub attention_score: i64,
    pub tone_score: Option<i64>,
    pub source_count: Option<u32>,
    pub top_themes: Vec<String>,
    pub top_persons: Vec<String>,
    pub top_organizations: Vec<String>,
}

/// How strongly public coverage ties a senator to an object (unit score).
pub struct SenatorObjectSignalLink {
    pub senator_id: String,
    pub object_id: String,
    pub public_association_score: i64,
}

/// Attention scores per object and per senator (unit scores), keyed by id.
pub struct PublicSignalSummary {
    pub snapshot_date: CalendarDate,
    pub object_attention: Vec<(String, i64)>,
    pub senator_attention: Vec<(String, i64)>,
    pub senator_object_link_strength: Vec<SenatorObjectSignalLink>,
}

/// The normalized records of one day. `created_at` is a Unix time in seconds.
pub struct DataSnapshot {
    pub snapshot_date: CalendarDate,
    pub run_id: String,
    pub created_at: i64,
    pub roster_records: Vec<NormalizedSenatorRecord>,
    pub legislative_records: Vec<NormalizedLegislativeRecord>,
    pub action_records: Vec<NormalizedActionRecord>,
    pub vote_records: Vec<NormalizedVoteRecord>,
    pub public_signal_records: Vec<NormalizedPublicSignalRecord>,
    pub public_signal_summary: Option<PublicSignalSummary>,
    pub source_manifests: Vec<SourceManifest>,
}

impl NormalizedPublicSignalRecord {
    pub open spec fn wf(&self) -> bool {
        &&& self.signal_id@.len() > 0
        &&& unit(self.attention_score as int)
        &&& (self.tone_score matches Some(t) ==> signed_unit(t as int))
    }

    pub fn validate(&self) -> (r: Result<(), SenateSimError>)
        ensures
            r is Ok <==> self.wf(),
    {
        if self.signal_id.as_str().unicode_len() == 0 {
            return Err(SenateSimError::validation("public_signal.signal_id", "must not be empty"));
        }
        if self.attention_score < 0 || self.attention_score > SCALE {
            return Err(SenateSimError::validation("public_signal.attention_score", "must be within [0, 1]"));
        }
        match self.tone_score {
            Some(t) => if t < -SCALE || t > SCALE {
                return Err(SenateSimError::validation("public_signal.tone_score", "must be within [-1, 1]"));
            },
            None => {},
        }
        Ok(())
    }
}

impl PublicSignalSummary {
    /// A summary is valid when every attention and link score is a unit score.
    pub open spec fn wf(&self) -> bool {
        &&& forall|i: int|
            0 <= i < self.object_attention@.len() ==> unit((#[trigger] self.object_attention@[i]).1 as int)
        &&& forall|i: int|
            0 <= i < self.senator_attention@.len() ==> unit((#[trigger] self.senator_attention@[i]).1 as int)
        &&& forall|i: int|
            0 <= i < self.senator_object_link_strength@.len() ==> unit(
                (#[trigger] self.senator_object_link_strength@[i]).public_association_score as int,
            )
    }
}

impl DataSnapshot {
    /// A snapshot is valid when it has a run id and every record is valid.
    pub open spec fn wf(&self) -> bool {
        &&& self.run_id@.len() > 0
        &&& forall|i: int|
            0 <= i < self.roster_records@.len() ==> (#[trigger] self.roster_records@[i]).wf()
        &&& forall|i: int|
            0 <= i < self.legislative_records@.len() ==> (
            #[trigger] self.legislative_records@[i]).wf()
        &&& forall|i: int|
            0 <= i < self.action_records@.len() ==> (#[trigger] self.action_records@[i]).wf()
        &&& forall|i: int|
            0 <= i < self.vote_records@.len() ==> (#[trigger] self.vote_records@[i]).wf()
    }

    pub fn validate(&self) -> (r: Result<(), SenateSimError>)
        ensures
            r is Ok <==> self.wf(),
    {
        if self.run_id.as_str().unicode_len() == 0 {
            return Err(SenateSimError::validation("data_snapshot.run_id", "must not be empty"));
        }
        let mut i: usize = 0;
        while i < self.roster_records.len()
            invariant
                i <= self.roster_records@.len(),
                forall|k: int| 0 <= k < i ==> (#[trigger] self.roster_records@[k]).wf(),
            decreases self.roster_records.len() - i,
        {
            self.roster_records[i].validate()?;
            i = i + 1;
        }
        let mut i: usize = 0;
        while i < self.legislative_records.len()
            invariant
                i <= self.legislative_records@.len(),
                forall|k: int| 0 <= k < i ==> (#[trigger] self.legislative_records@[k]).wf(),
            decreases self.legislative_records.len() - i,
        {
            self.legislative_records[i].validate()?;
            i = i + 1;
        }
        let mut i: usize = 0;
        while i < self.action_records.len()
            invariant
                i <= self.action_records@.len(),
                forall|k: int| 0 <= k < i ==> (#[trigger] self.action_records@[k]).wf(),
            decreases self.action_records.len() - i,
        {
            self.action_records[i].validate()?;
            i = i + 1;
        }
        let mut i: usize = 0;
        while i < self.vote_records.len()
            invariant
                i <= self.vote_records@.len(),
                forall|k: int| 0 <= k < i ==> (#[trigger] self.vote_records@[k]).wf(),
            decreases self.vote_records.len() - i,
        {
            self.vote_records[i].validate()?;
            i = i + 1;
        }
        Ok(())
    }
}

/// Replaces the snapshot's public-signal records and summary.
pub fn attach_public_signals_to_snapshot(
    snapshot: &mut DataSnapshot,
    records: Vec<NormalizedPublicSignalRecord>,
    summary: PublicSignalSummary,
)
    ensures
        final(snapshot).public_signal_records == records,
        final(snapshot).public_signal_summary == Some(summary),
        final(snapshot).snapshot_date == old(snapshot).snapshot_date,
        final(snapshot).run_id == old(snapshot).run_id,
        final(snapshot).created_at == old(snapshot).created_at,
        final(snapshot).roster_records == old(snapshot).roster_records,
        final(snapshot).legislative_records == old(snapshot).legislative_records,
        final(snapshot).action_records == old(snapshot).action_records,
        final(snapshot).vote_records == old(snapshot).vote_records,
        final(snapshot).source_manifests == old(snapshot).source_manifests,
{
    snapshot.public_signal_records = records;
    snapshot.public_signal_summary = Some(summary);
}

} // verus!
