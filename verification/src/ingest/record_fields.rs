//! Raw records read from the fields of a JSON record: which fields must be
//! present, which may be null, and the error for the first field that is not
//! as required.

use vstd::prelude::*;
use crate::ingest::normalize::copy_text_option;
use crate::ingest::public_signals::{domain_named, parse_policy_domain};
use crate::ingest::senate_votes::{member_party, member_party_spec};
use crate::model::context::Chamber;
use crate::model::error::SenateSimError;
use crate::model::identity::Party;
use crate::model::legislative::PolicyDomain;
use crate::model::records::{RawActionRecord, RawLegislativeRecord, RawRosterRecord, RawVoteRecord};
use crate::util::calendar::{date_in_format, CalendarDate};
use crate::util::text::{eq_ignore_case, eq_ignore_case_text, trim_seq, trimmed};

verus! {

/// One field of a JSON record as the readers see it.
pub enum FieldValue {
    Missing,
    Null,
    Text(String),
    Bool(bool),
    Other,
}

/// What a field holds, as the contracts see it.
pub enum FieldView {
    Missing,
    Null,
    Text(Seq<char>),
    Bool(bool),
    Other,
}

impl View for FieldValue {
    type V = FieldView;

    open spec fn view(&self) -> FieldView {
        match self {
            FieldValue::Missing => FieldView::Missing,
            FieldValue::Null => FieldView::Null,
            FieldValue::Text(t) => FieldView::Text(t@),
            FieldValue::Bool(b) => FieldView::Bool(*b),
            FieldValue::Other => FieldView::Other,
        }
    }
}

/// The view of a record's fields, where it has them.
pub open spec fn fields_view<T: View>(record: Option<T>) -> Option<T::V> {
    match record {
        Some(f) => Some(f@),
        None => None,
    }
}

/// A field error: the field's name and the message.
pub type FieldError = (Seq<char>, Seq<char>);

pub open spec fn is_field_error(e: SenateSimError, fe: FieldError) -> bool {
    e matches SenateSimError::Validation { field, message } && field@ == fe.0 && message@ == fe.1
}

/// The first of two checks that fails.
pub open spec fn first_error(a: Option<FieldError>, b: Option<FieldError>) -> Option<FieldError> {
    if a is Some {
        a
    } else {
        b
    }
}

/// A required text field must be a text that is not blank.
pub open spec fn required_string_error(v: FieldView, name: Seq<char>) -> Option<FieldError> {
    match v {
        FieldView::Text(t) => if trim_seq(t).len() > 0 {
            None
        } else {
            Some((name, "must not be empty"@))
        },
        _ => Some((name, "must not be empty"@)),
    }
}

pub fn required_string(v: &FieldValue, name: &str) -> (r: Result<String, SenateSimError>)
    ensures
        match required_string_error(v@, name@) {
            Some(fe) => r matches Err(e) && is_field_error(e, fe),
            None => r matches Ok(s) && v@ == FieldView::Text(s@),
        },
{
    match v {
        FieldValue::Text(t) => {
            if trimmed(t.as_str()).as_str().unicode_len() > 0 {
                Ok(t.clone())
            } else {
                Err(SenateSimError::validation(name, "must not be empty"))
            }
        },
        _ => Err(SenateSimError::validation(name, "must not be empty")),
    }
}

/// An optional text field may be missing or null, or a text.
pub open spec fn optional_string_error(v: FieldView) -> Option<FieldError> {
    match v {
        FieldView::Text(_) | FieldView::Null | FieldView::Missing => None,
        _ => Some(("optional_string"@, "must be string or null"@)),
    }
}

pub open spec fn optional_text(v: FieldView) -> Option<Seq<char>> {
    match v {
        FieldView::Text(t) => Some(t),
        _ => None,
    }
}

pub open spec fn opt_view(o: Option<String>) -> Option<Seq<char>> {
    match o {
        Some(s) => Some(s@),
        None => None,
    }
}

pub fn optional_string(v: &FieldValue) -> (r: Result<Option<String>, SenateSimError>)
    ensures
        match optional_string_error(v@) {
            Some(fe) => r matches Err(e) && is_field_error(e, fe),
            None => r matches Ok(o) && opt_view(o) == optional_text(v@),
        },
{
    match v {
        FieldValue::Text(t) => Ok(Some(t.clone())),
        FieldValue::Null | FieldValue::Missing => Ok(None),
        _ => Err(SenateSimError::validation("optional_string", "must be string or null")),
    }
}

/// The day number of a `YYYY-MM-DD` text.
pub open spec fn iso_day(t: Seq<char>) -> Option<int> {
    date_in_format(t, "%Y-%m-%d"@)
}

/// An optional date field may be missing or null, or an ISO date text.
pub open spec fn optional_date_error(v: FieldView) -> Option<FieldError> {
    match v {
        FieldView::Text(t) => if iso_day(t) is Some {
            None
        } else {
            Some(("optional_date"@, "invalid date "@ + t))
        },
        FieldView::Null | FieldView::Missing => None,
        _ => Some(("optional_date"@, "must be string or null"@)),
    }
}

pub open spec fn optional_day(v: FieldView) -> Option<int> {
    match v {
        FieldView::Text(t) => iso_day(t),
        _ => None,
    }
}

pub open spec fn date_day(o: Option<CalendarDate>) -> Option<int> {
    match o {
        Some(d) => Some(d.day_number as int),
        None => None,
    }
}

pub fn optional_date(v: &FieldValue) -> (r: Result<Option<CalendarDate>, SenateSimError>)
    ensures
        match optional_date_error(v@) {
            Some(fe) => r matches Err(e) && is_field_error(e, fe),
            None => r matches Ok(o) && date_day(o) == optional_day(v@) && (o matches Some(d) ==> d.wf()),
        },
{
    match v {
        FieldValue::Text(t) => match CalendarDate::parse_with_format(t.as_str(), "%Y-%m-%d") {
            Some(d) => Ok(Some(d)),
            None => {
                let mut message = String::from_str("invalid date ");
                message.append(t.as_str());
                Err(SenateSimError::Validation { field: String::from_str("optional_date"), message })
            },
        },
        FieldValue::Null | FieldValue::Missing => Ok(None),
        _ => Err(SenateSimError::validation("optional_date", "must be string or null")),
    }
}

/// A required date field must be an ISO date text.
pub open spec fn required_date_error(v: FieldView, name: Seq<char>) -> Option<FieldError> {
    match v {
        FieldView::Text(t) => if iso_day(t) is Some {
            None
        } else {
            Some((name, "invalid date "@ + t))
        },
        _ => Some((name, "must not be empty"@)),
    }
}

pub fn required_date(v: &FieldValue, name: &str) -> (r: Result<CalendarDate, SenateSimError>)
    ensures
        match required_date_error(v@, name@) {
            Some(fe) => r matches Err(e) && is_field_error(e, fe),
            None => r matches Ok(d) && Some(d.day_number as int) == optional_day(v@) && d.wf(),
        },
{
    match v {
        FieldValue::Text(t) => match CalendarDate::parse_with_format(t.as_str(), "%Y-%m-%d") {
            Some(d) => Ok(d),
            None => {
                let mut message = String::from_str("invalid date ");
                message.append(t.as_str());
                Err(SenateSimError::Validation { field: String::from_str(name), message })
            },
        },
        _ => Err(SenateSimError::validation(name, "must not be empty")),
    }
}

/// The chamber field: `House` (any ASCII case) for the House, any other text
/// for the Senate; it must be a text.
pub open spec fn chamber_error(v: FieldView) -> Option<FieldError> {
    match v {
        FieldView::Text(_) => None,
        _ => Some(("raw_action_record.chamber"@, "must not be empty"@)),
    }
}

pub open spec fn chamber_of(v: FieldView) -> Chamber {
    match v {
        FieldView::Text(t) => if eq_ignore_case(t, "house"@) {
            Chamber::House
        } else {
            Chamber::Senate
        },
        _ => Chamber::Senate,
    }
}

pub fn parse_chamber(v: &FieldValue) -> (r: Result<Chamber, SenateSimError>)
    ensures
        match chamber_error(v@) {
            Some(fe) => r matches Err(e) && is_field_error(e, fe),
            None => r == Ok::<Chamber, SenateSimError>(chamber_of(v@)),
        },
{
    match v {
        FieldValue::Text(t) => if eq_ignore_case_text(t.as_str(), "house") {
            Ok(Chamber::House)
        } else {
            Ok(Chamber::Senate)
        },
        _ => Err(SenateSimError::validation("raw_action_record.chamber", "must not be empty")),
    }
}

/// The fields of a roster record.
pub struct RosterFields {
    pub source_member_id: FieldValue,
    pub name: FieldValue,
    pub party: FieldValue,
    pub state: FieldValue,
    pub start_date: FieldValue,
    pub end_date: FieldValue,
    pub source_name: FieldValue,
    pub source_identifier: FieldValue,
    pub source_url: FieldValue,
}

/// The view of each field.
pub struct RosterFieldsView {
    pub source_member_id: FieldView,
    pub name: FieldView,
    pub party: FieldView,
    pub state: FieldView,
    pub start_date: FieldView,
    pub end_date: FieldView,
    pub source_name: FieldView,
    pub source_identifier: FieldView,
    pub source_url: FieldView,
}

impl View for RosterFields {
    type V = RosterFieldsView;

    open spec fn view(&self) -> RosterFieldsView {
        RosterFieldsView {
            source_member_id: self.source_member_id@,
            name: self.name@,
            party: self.party@,
            state: self.state@,
            start_date: self.start_date@,
            end_date: self.end_date@,
            source_name: self.source_name@,
            source_identifier: self.source_identifier@,
            source_url: self.source_url@,
        }
    }
}

/// The error for the first roster field that is not as required, in field
/// order; a record that is not an object is refused first.
pub open spec fn roster_error(record: Option<RosterFieldsView>) -> Option<FieldError> {
    match record {
        None => Some(("raw_roster_record"@, "fixture records must be JSON objects"@)),
        Some(f) => first_error(required_string_error(f.source_member_id, "source_member_id"@), first_error(
            required_string_error(f.name, "name"@),
            first_error(required_string_error(f.party, "party"@), first_error(
                required_string_error(f.state, "state"@),
                first_error(optional_date_error(f.start_date), first_error(
                    optional_date_error(f.end_date),
                    first_error(required_string_error(f.source_name, "source_name"@), first_error(
                        required_string_error(f.source_identifier, "source_identifier"@),
                        optional_string_error(f.source_url),
                    )),
                )),
            )),
        )),
    }
}

pub open spec fn text_of(v: FieldView) -> Seq<char> {
    match v {
        FieldView::Text(t) => t,
        _ => Seq::empty(),
    }
}

/// The roster record the fields give, for a run date.
pub open spec fn roster_from_fields(r: RawRosterRecord, f: RosterFieldsView, run_date: CalendarDate) -> bool {
    &&& r.source_member_id@ == text_of(f.source_member_id)
    &&& r.name@ == text_of(f.name)
    &&& r.party@ == text_of(f.party)
    &&& r.state@ == text_of(f.state)
    &&& r.chamber == Chamber::Senate
    &&& date_day(r.start_date) == optional_day(f.start_date)
    &&& date_day(r.end_date) == optional_day(f.end_date)
    &&& r.as_of_date == run_date
    &&& r.source_name@ == text_of(f.source_name)
    &&& r.source_identifier@ == text_of(f.source_identifier)
    &&& opt_view(r.source_url) == optional_text(f.source_url)
}

/// Reads a roster record; `None` stands for a record that is not a JSON object.
pub fn parse_raw_roster_record_value(record: &Option<RosterFields>, run_date: &CalendarDate) -> (r: Result<
    RawRosterRecord,
    SenateSimError,
>)
    ensures
        match roster_error(fields_view(*record)) {
            Some(fe) => r matches Err(e) && is_field_error(e, fe),
            None => r matches Ok(raw) && *record matches Some(f) && roster_from_fields(raw, f@, *run_date),
        },
{
    let f = match record {
        Some(f) => f,
        None => {
            return Err(SenateSimError::validation("raw_roster_record", "fixture records must be JSON objects"));
        },
    };
    let source_member_id = required_string(&f.source_member_id, "source_member_id")?;
    let name = required_string(&f.name, "name")?;
    let party = required_string(&f.party, "party")?;
    let state = required_string(&f.state, "state")?;
    let start_date = optional_date(&f.start_date)?;
    let end_date = optional_date(&f.end_date)?;
    let source_name = required_string(&f.source_name, "source_name")?;
    let source_identifier = required_string(&f.source_identifier, "source_identifier")?;
    let source_url = optional_string(&f.source_url)?;
    Ok(
        RawRosterRecord {
            source_member_id,
            name,
            party,
            state,
            chamber: Chamber::Senate,
            start_date,
            end_date,
            as_of_date: run_date.copy(),
            source_name,
            source_identifier,
            source_url,
        },
    )
}

/// The fields of an action record.
pub struct ActionFields {
    pub source_action_id: FieldValue,
    pub object_id: FieldValue,
    pub action_date: FieldValue,
    pub action_text: FieldValue,
    pub action_type: FieldValue,
    pub chamber: FieldValue,
    pub source_name: FieldValue,
    pub source_identifier: FieldValue,
    pub source_url: FieldValue,
}

/// The view of each field.
pub struct ActionFieldsView {
    pub source_action_id: FieldView,
    pub object_id: FieldView,
    pub action_date: FieldView,
    pub action_text: FieldView,
    pub action_type: FieldView,
    pub chamber: FieldView,
    pub source_name: FieldView,
    pub source_identifier: FieldView,
    pub source_url: FieldView,
}

impl View for ActionFields {
    type V = ActionFieldsView;

    open spec fn view(&self) -> ActionFieldsView {
        ActionFieldsView {
            source_action_id: self.source_action_id@,
            object_id: self.object_id@,
            action_date: self.action_date@,
            action_text: self.action_text@,
            action_type: self.action_type@,
            chamber: self.chamber@,
            source_name: self.source_name@,
            source_identifier: self.source_identifier@,
            source_url: self.source_url@,
        }
    }
}

pub open spec fn action_error(record: Option<ActionFieldsView>) -> Option<FieldError> {
    match record {
        None => Some(("raw_action_record"@, "fixture records must be JSON objects"@)),
        Some(f) => first_error(required_string_error(f.source_action_id, "source_action_id"@), first_error(
            required_string_error(f.object_id, "object_id"@),
            first_error(required_date_error(f.action_date, "action_date"@), first_error(
                required_string_error(f.action_text, "action_text"@),
                first_error(optional_string_error(f.action_type), first_error(
                    chamber_error(f.chamber),
                    first_error(required_string_error(f.source_name, "source_name"@), first_error(
                        required_string_error(f.source_identifier, "source_identifier"@),
                        optional_string_error(f.source_url),
                    )),
                )),
            )),
        )),
    }
}

pub open spec fn action_from_fields(r: RawActionRecord, f: ActionFieldsView, run_date: CalendarDate) -> bool {
    &&& r.source_action_id@ == text_of(f.source_action_id)
    &&& r.object_id@ == text_of(f.object_id)
    &&& Some(r.action_date.day_number as int) == optional_day(f.action_date)
    &&& r.action_text@ == text_of(f.action_text)
    &&& opt_view(r.action_type) == optional_text(f.action_type)
    &&& r.chamber == chamber_of(f.chamber)
    &&& r.as_of_date == run_date
    &&& r.source_name@ == text_of(f.source_name)
    &&& r.source_identifier@ == text_of(f.source_identifier)
    &&& opt_view(r.source_url) == optional_text(f.source_url)
}

/// Reads an action record; `None` stands for a record that is not a JSON
/// object.
pub fn parse_raw_action_record_value(record: &Option<ActionFields>, run_date: &CalendarDate) -> (r: Result<
    RawActionRecord,
    SenateSimError,
>)
    ensures
        match action_error(fields_view(*record)) {
            Some(fe) => r matches Err(e) && is_field_error(e, fe),
            None => r matches Ok(raw) && *record matches Some(f) && action_from_fields(raw, f@, *run_date),
        },
{
    let f = match record {
        Some(f) => f,
        None => {
            return Err(SenateSimError::validation("raw_action_record", "fixture records must be JSON objects"));
        },
    };
    let source_action_id = required_string(&f.source_action_id, "source_action_id")?;
    let object_id = required_string(&f.object_id, "object_id")?;
    let action_date = required_date(&f.action_date, "action_date")?;
    let action_text = required_string(&f.action_text, "action_text")?;
    let action_type = optional_string(&f.action_type)?;
    let chamber = parse_chamber(&f.chamber)?;
    let source_name = required_string(&f.source_name, "source_name")?;
    let source_identifier = required_string(&f.source_identifier, "source_identifier")?;
    let source_url = optional_string(&f.source_url)?;
    Ok(
        RawActionRecord {
            source_action_id,
            object_id,
            action_date,
            chamber,
            action_text,
            action_type,
            as_of_date: run_date.copy(),
            source_name,
            source_identifier,
            source_url,
        },
    )
}

/// The fields of a vote record; `member_state` and `member_last_name` are
/// those of its `member` object, where it has one.
pub struct VoteFields {
    pub source_vote_id: FieldValue,
    pub vote_date: FieldValue,
    pub senator_id: FieldValue,
    pub senator_name: FieldValue,
    pub object_id: FieldValue,
    pub vote_category: FieldValue,
    pub vote_position: FieldValue,
    pub party_at_time: FieldValue,
    pub policy_domain: FieldValue,
    pub is_procedural: FieldValue,
    pub procedural_kind: FieldValue,
    pub source_name: FieldValue,
    pub source_identifier: FieldValue,
    pub source_url: FieldValue,
    pub member_state: Option<String>,
    pub member_last_name: Option<String>,
}

pub open spec fn bool_error(v: FieldView) -> Option<FieldError> {
    match v {
        FieldView::Bool(_) => None,
        _ => Some(("raw_vote_record.is_procedural"@, "must be boolean"@)),
    }
}

pub open spec fn vote_error(record: Option<VoteFields>) -> Option<FieldError> {
    match record {
        None => Some(("raw_vote_record"@, "fixture records must be JSON objects"@)),
        Some(f) => first_error(required_string_error(f.source_vote_id@, "source_vote_id"@), first_error(
            required_date_error(f.vote_date@, "vote_date"@),
            first_error(required_string_error(f.senator_id@, "senator_id"@), first_error(
                required_string_error(f.senator_name@, "senator_name"@),
                first_error(optional_string_error(f.object_id@), first_error(
                    required_string_error(f.vote_category@, "vote_category"@),
                    first_error(required_string_error(f.vote_position@, "vote_position"@), first_error(
                        required_string_error(f.party_at_time@, "party_at_time"@),
                        first_error(optional_string_error(f.policy_domain@), first_error(
                            bool_error(f.is_procedural@),
                            first_error(optional_string_error(f.procedural_kind@), first_error(
                                required_string_error(f.source_name@, "source_name"@),
                                first_error(
                                    required_string_error(f.source_identifier@, "source_identifier"@),
                                    optional_string_error(f.source_url@),
                                ),
                            )),
                        )),
                    )),
                )),
            )),
        )),
    }
}

pub open spec fn vote_from_fields(r: RawVoteRecord, f: VoteFields, run_date: CalendarDate) -> bool {
    &&& r.source_vote_id@ == text_of(f.source_vote_id@)
    &&& Some(r.vote_date.day_number as int) == optional_day(f.vote_date@)
    &&& r.senator_id@ == text_of(f.senator_id@)
    &&& r.senator_name@ == text_of(f.senator_name@)
    &&& opt_view(r.object_id) == optional_text(f.object_id@)
    &&& r.vote_category@ == text_of(f.vote_category@)
    &&& r.vote_position@ == text_of(f.vote_position@)
    &&& member_party_spec(r.party_at_time, text_of(f.party_at_time@))
    &&& match optional_text(f.policy_domain@) {
        Some(t) => r.policy_domain matches Some(d) && domain_named(d, t),
        None => r.policy_domain is None,
    }
    &&& f.is_procedural@ == FieldView::Bool(r.is_procedural)
    &&& opt_view(r.procedural_kind) == optional_text(f.procedural_kind@)
    &&& r.as_of_date == run_date
    &&& r.source_name@ == text_of(f.source_name@)
    &&& r.source_identifier@ == text_of(f.source_identifier@)
    &&& opt_view(r.source_url) == optional_text(f.source_url@)
    &&& r.member_state == f.member_state
    &&& r.member_last_name == f.member_last_name
}

/// Reads a vote record; `None` stands for a record that is not a JSON object.
pub fn parse_raw_vote_record_value(record: &Option<VoteFields>, run_date: &CalendarDate) -> (r: Result<
    RawVoteRecord,
    SenateSimError,
>)
    ensures
        match vote_error(*record) {
            Some(fe) => r matches Err(e) && is_field_error(e, fe),
            None => r matches Ok(raw) && *record matches Some(f) && vote_from_fields(raw, f, *run_date),
        },
{
    let f = match record {
        Some(f) => f,
        None => {
            return Err(SenateSimError::validation("raw_vote_record", "fixture records must be JSON objects"));
        },
    };
    let source_vote_id = required_string(&f.source_vote_id, "source_vote_id")?;
    let vote_date = required_date(&f.vote_date, "vote_date")?;
    let senator_id = required_string(&f.senator_id, "senator_id")?;
    let senator_name = required_string(&f.senator_name, "senator_name")?;
    let object_id = optional_string(&f.object_id)?;
    let vote_category = required_string(&f.vote_category, "vote_category")?;
    let vote_position = required_string(&f.vote_position, "vote_position")?;
    let party_text = required_string(&f.party_at_time, "party_at_time")?;
    let party_at_time = member_party(party_text.as_str());
    let domain_text = optional_string(&f.policy_domain)?;
    let policy_domain = match &domain_text {
        Some(t) => Some(parse_policy_domain(t.as_str())),
        None => None,
    };
    let is_procedural = match &f.is_procedural {
        FieldValue::Bool(b) => *b,
        _ => {
            return Err(SenateSimError::validation("raw_vote_record.is_procedural", "must be boolean"));
        },
    };
    let procedural_kind = optional_string(&f.procedural_kind)?;
    let source_name = required_string(&f.source_name, "source_name")?;
    let source_identifier = required_string(&f.source_identifier, "source_identifier")?;
    let source_url = optional_string(&f.source_url)?;
    Ok(
        RawVoteRecord {
            source_vote_id,
            vote_date,
            senator_id,
            senator_name,
            object_id,
            vote_category,
            vote_position,
            party_at_time,
            policy_domain,
            is_procedural,
            procedural_kind,
            as_of_date: run_date.copy(),
            source_name,
            source_identifier,
            source_url,
            member_state: copy_text_option(&f.member_state),
            member_last_name: copy_text_option(&f.member_last_name),
        },
    )
}

/// The fields of a legislation record.
pub struct LegislationFields {
    pub source_object_id: FieldValue,
    pub title: FieldValue,
    pub summary: FieldValue,
    pub sponsor: FieldValue,
    pub introduced_date: FieldValue,
    pub latest_status_text: FieldValue,
    pub source_name: FieldValue,
    pub source_identifier: FieldValue,
    pub source_url: FieldValue,
}

/// The view of each field.
pub struct LegislationFieldsView {
    pub source_object_id: FieldView,
    pub title: FieldView,
    pub summary: FieldView,
    pub sponsor: FieldView,
    pub introduced_date: FieldView,
    pub latest_status_text: FieldView,
    pub source_name: FieldView,
    pub source_identifier: FieldView,
    pub source_url: FieldView,
}

impl View for LegislationFields {
    type V = LegislationFieldsView;

    open spec fn view(&self) -> LegislationFieldsView {
        LegislationFieldsView {
            source_object_id: self.source_object_id@,
            title: self.title@,
            summary: self.summary@,
            sponsor: self.sponsor@,
            introduced_date: self.introduced_date@,
            latest_status_text: self.latest_status_text@,
            source_name: self.source_name@,
            source_identifier: self.source_identifier@,
            source_url: self.source_url@,
        }
    }
}

pub open spec fn legislation_error(record: Option<LegislationFieldsView>) -> Option<FieldError> {
    match record {
        None => Some(("raw_legislative_record"@, "fixture records must be JSON objects"@)),
        Some(f) => first_error(required_string_error(f.source_object_id, "source_object_id"@), first_error(
            required_string_error(f.title, "title"@),
            first_error(optional_string_error(f.summary), first_error(
                optional_string_error(f.sponsor),
                first_error(optional_date_error(f.introduced_date), first_error(
                    optional_string_error(f.latest_status_text),
                    first_error(required_string_error(f.source_name, "source_name"@), first_error(
                        required_string_error(f.source_identifier, "source_identifier"@),
                        optional_string_error(f.source_url),
                    )),
                )),
            )),
        )),
    }
}

pub open spec fn legislation_from_fields(r: RawLegislativeRecord, f: LegislationFieldsView, run_date: CalendarDate) -> bool {
    &&& r.source_object_id@ == text_of(f.source_object_id)
    &&& r.title@ == text_of(f.title)
    &&& opt_view(r.summary) == optional_text(f.summary)
    &&& opt_view(r.sponsor) == optional_text(f.sponsor)
    &&& date_day(r.introduced_date) == optional_day(f.introduced_date)
    &&& opt_view(r.latest_status_text) == optional_text(f.latest_status_text)
    &&& r.as_of_date == run_date
    &&& r.source_name@ == text_of(f.source_name)
    &&& r.source_identifier@ == text_of(f.source_identifier)
    &&& opt_view(r.source_url) == optional_text(f.source_url)
}

/// Reads a legislation record; `None` stands for a record that is not a JSON
/// object.
pub fn parse_raw_legislative_record_value(record: &Option<LegislationFields>, run_date: &CalendarDate) -> (r: Result<
    RawLegislativeRecord,
    SenateSimError,
>)
    ensures
        match legislation_error(fields_view(*record)) {
            Some(fe) => r matches Err(e) && is_field_error(e, fe),
            None => r matches Ok(raw) && *record matches Some(f) && legislation_from_fields(raw, f@, *run_date),
        },
{
    let f = match record {
        Some(f) => f,
        None => {
            return Err(
                SenateSimError::validation("raw_legislative_record", "fixture records must be JSON objects"),
            );
        },
    };
    let source_object_id = required_string(&f.source_object_id, "source_object_id")?;
    let title = required_string(&f.title, "title")?;
    let summary = optional_string(&f.summary)?;
    let sponsor = optional_string(&f.sponsor)?;
    let introduced_date = optional_date(&f.introduced_date)?;
    let latest_status_text = optional_string(&f.latest_status_text)?;
    let source_name = required_string(&f.source_name, "source_name")?;
    let source_identifier = required_string(&f.source_identifier, "source_identifier")?;
    let source_url = optional_string(&f.source_url)?;
    Ok(
        RawLegislativeRecord {
            source_object_id,
            title,
            summary,
            sponsor,
            introduced_date,
            latest_status_text,
            as_of_date: run_date.copy(),
            source_name,
            source_identifier,
            source_url,
        },
    )
}

} // verus!
