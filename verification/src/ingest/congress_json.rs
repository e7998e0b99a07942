//! Reading Congress API listings: the items of a listing, and the roster,
//! legislation and action records that its members, bills and actions give.
//!
//! A listing is JSON text. It is read one level at a time: a parsed value
//! keeps the elements of an array and the member values of an object as JSON
//! text, and a step into one of them parses that text in turn.

use vstd::prelude::*;
use serde_json::Value;
use crate::ingest::live::{
    action_chamber_spec, action_chamber_text, bill_object_id, bill_object_id_spec, fallback_action_id,
    state_code_for, state_code_for_spec, term_start_date_text,
};
use crate::ingest::record_fields::{
    action_error, action_from_fields, is_field_error, legislation_error, legislation_from_fields, opt_view,
    parse_raw_action_record_value, parse_raw_legislative_record_value, parse_raw_roster_record_value,
    roster_error, roster_from_fields, ActionFields, ActionFieldsView, FieldError, FieldValue, FieldView,
    LegislationFields, LegislationFieldsView, RosterFields, RosterFieldsView,
};
use crate::model::error::SenateSimError;
use crate::model::records::{RawActionRecord, RawLegislativeRecord, RawRosterRecord};
use crate::util::calendar::CalendarDate;
use crate::util::order::same_text;
use crate::util::text::{decimal_digits, decimal_text, eq_ignore_case, eq_ignore_case_text, lower_chars, lower_seq, string_of};

verus! {

/// A JSON value one level deep: the elements of an array and the member
/// values of an object are kept as JSON text.
pub enum JsonNode {
    Null,
    Bool(bool),
    /// A number, with its value where it is an `i64`.
    Number(Option<i64>),
    Text(String),
    Array(Vec<String>),
    Object(Vec<(String, String)>),
}

/// The view of a [`JsonNode`].
pub enum JsonView {
    Null,
    Bool(bool),
    Number(Option<i64>),
    Text(Seq<char>),
    Array(Seq<Seq<char>>),
    Object(Seq<(Seq<char>, Seq<char>)>),
}

pub open spec fn texts_view(v: Seq<String>) -> Seq<Seq<char>> {
    v.map_values(|s: String| s@)
}

pub open spec fn members_view(v: Seq<(String, String)>) -> Seq<(Seq<char>, Seq<char>)> {
    v.map_values(|m: (String, String)| (m.0@, m.1@))
}

impl View for JsonNode {
    type V = JsonView;

    open spec fn view(&self) -> JsonView {
        match self {
            JsonNode::Null => JsonView::Null,
            JsonNode::Bool(b) => JsonView::Bool(*b),
            JsonNode::Number(n) => JsonView::Number(*n),
            JsonNode::Text(s) => JsonView::Text(s@),
            JsonNode::Array(items) => JsonView::Array(texts_view(items@)),
            JsonNode::Object(members) => JsonView::Object(members_view(members@)),
        }
    }
}

/// What `serde_json` reads from a JSON text, one level deep; `None` where the
/// text is not JSON.
pub uninterp spec fn json_of(text: Seq<char>) -> Option<JsonView>;

/// `serde_json::from_str` into a `serde_json::Value`, taken one level deep: a
/// number by `as_i64`, each array element and each member value by its JSON
/// text (`to_string`), the members in the order the map gives them. Claimed:
/// the result is `json_of` of the text, `None` where `from_str` fails.
#[verifier::external_body]
fn parse_json(text: &str) -> (r: Option<JsonNode>)
    ensures
        match r {
            Some(n) => json_of(text@) == Some(n@),
            None => json_of(text@) is None,
        },
{
    let value: Value = serde_json::from_str(text).ok()?;
    Some(
        match value {
            Value::Null => JsonNode::Null,
            Value::Bool(b) => JsonNode::Bool(b),
            Value::Number(n) => JsonNode::Number(n.as_i64()),
            Value::String(s) => JsonNode::Text(s),
            Value::Array(items) => JsonNode::Array(items.iter().map(|v| v.to_string()).collect()),
            Value::Object(map) => JsonNode::Object(map.iter().map(|(k, v)| (k.clone(), v.to_string())).collect()),
        },
    )
}

/// Whether a text is JSON.
pub fn is_json_text(text: &str) -> (r: bool)
    ensures
        r == json_of(text@) is Some,
{
    parse_json(text).is_some()
}

/// The value a JSON text holds; a text that is not JSON counts as `null`.
pub open spec fn value_of(text: Seq<char>) -> JsonView {
    match json_of(text) {
        Some(v) => v,
        None => JsonView::Null,
    }
}

fn node_of(text: &str) -> (r: JsonNode)
    ensures
        r@ == value_of(text@),
{
    match parse_json(text) {
        Some(n) => n,
        None => JsonNode::Null,
    }
}

/// The value text of an object's first member named `key`.
pub open spec fn member_text(members: Seq<(Seq<char>, Seq<char>)>, key: Seq<char>) -> Option<Seq<char>>
    decreases members.len(),
{
    if members.len() == 0 {
        None
    } else if members[0].0 == key {
        Some(members[0].1)
    } else {
        member_text(members.drop_first(), key)
    }
}

fn member_in(members: &Vec<(String, String)>, key: &str) -> (r: Option<String>)
    ensures
        opt_view(r) == member_text(members_view(members@), key@),
{
    let ghost mv = members_view(members@);
    let mut i: usize = 0;
    assert(mv.subrange(0, mv.len() as int) =~= mv);
    while i < members.len()
        invariant
            i <= members@.len(),
            mv == members_view(members@),
            member_text(mv, key@) == member_text(mv.subrange(i as int, mv.len() as int), key@),
        decreases members@.len() - i,
    {
        let ghost rest = mv.subrange(i as int, mv.len() as int);
        assert(rest[0] == mv[i as int]);
        if same_text(members[i].0.as_str(), key) {
            return Some(members[i].1.clone());
        }
        assert(rest.drop_first() =~= mv.subrange(i + 1, mv.len() as int));
        i = i + 1;
    }
    None
}

/// `get(key)` on a value: an object's member, nothing on any other value.
pub open spec fn get_of(v: JsonView, key: Seq<char>) -> Option<Seq<char>> {
    match v {
        JsonView::Object(m) => member_text(m, key),
        _ => None,
    }
}

/// One step of a JSON pointer whose steps are member names or `0`: an
/// object's member, or an array's first element for the step `0`.
pub open spec fn pointer_of(v: JsonView, token: Seq<char>) -> Option<Seq<char>> {
    match v {
        JsonView::Object(m) => member_text(m, token),
        JsonView::Array(items) => if token == "0"@ && items.len() > 0 {
            Some(items[0])
        } else {
            None
        },
        _ => None,
    }
}

pub open spec fn get_in(t: Option<Seq<char>>, key: Seq<char>) -> Option<Seq<char>> {
    match t {
        Some(s) => get_of(value_of(s), key),
        None => None,
    }
}

pub open spec fn pointer_in(t: Option<Seq<char>>, token: Seq<char>) -> Option<Seq<char>> {
    match t {
        Some(s) => pointer_of(value_of(s), token),
        None => None,
    }
}

/// The first of two values that exists.
pub open spec fn or_else(a: Option<Seq<char>>, b: Option<Seq<char>>) -> Option<Seq<char>> {
    if a is Some {
        a
    } else {
        b
    }
}

/// The text of a value that is a JSON string.
pub open spec fn str_in(t: Option<Seq<char>>) -> Option<Seq<char>> {
    match t {
        Some(s) => match value_of(s) {
            JsonView::Text(x) => Some(x),
            _ => None,
        },
        None => None,
    }
}

pub open spec fn text_or(o: Option<Seq<char>>, d: Seq<char>) -> Seq<char> {
    match o {
        Some(x) => x,
        None => d,
    }
}

/// A value as a record field; a value that does not exist is `null`.
pub open spec fn field_in(t: Option<Seq<char>>) -> FieldView {
    match t {
        None => FieldView::Null,
        Some(s) => match value_of(s) {
            JsonView::Null => FieldView::Null,
            JsonView::Text(x) => FieldView::Text(x),
            JsonView::Bool(b) => FieldView::Bool(b),
            _ => FieldView::Other,
        },
    }
}

fn get_member(text: &str, key: &str) -> (r: Option<String>)
    ensures
        opt_view(r) == get_of(value_of(text@), key@),
{
    match node_of(text) {
        JsonNode::Object(m) => member_in(&m, key),
        _ => None,
    }
}

fn get_text(t: &Option<String>, key: &str) -> (r: Option<String>)
    ensures
        opt_view(r) == get_in(opt_view(*t), key@),
{
    match t {
        Some(s) => get_member(s.as_str(), key),
        None => None,
    }
}

fn pointer_text(t: &Option<String>, token: &str) -> (r: Option<String>)
    ensures
        opt_view(r) == pointer_in(opt_view(*t), token@),
{
    match t {
        Some(s) => match node_of(s.as_str()) {
            JsonNode::Object(m) => member_in(&m, token),
            JsonNode::Array(items) => {
                if same_text(token, "0") && items.len() > 0 {
                    Some(items[0].clone())
                } else {
                    None
                }
            },
            _ => None,
        },
        None => None,
    }
}

fn or_else_text(a: Option<String>, b: Option<String>) -> (r: Option<String>)
    ensures
        opt_view(r) == or_else(opt_view(a), opt_view(b)),
{
    if a.is_some() {
        a
    } else {
        b
    }
}

fn str_text(t: &Option<String>) -> (r: Option<String>)
    ensures
        opt_view(r) == str_in(opt_view(*t)),
{
    match t {
        Some(s) => match node_of(s.as_str()) {
            JsonNode::Text(x) => Some(x),
            _ => None,
        },
        None => None,
    }
}

fn text_or_default(o: Option<String>, d: &str) -> (r: String)
    ensures
        r@ == text_or(opt_view(o), d@),
{
    match o {
        Some(x) => x,
        None => String::from_str(d),
    }
}

fn field_text(t: &Option<String>) -> (r: FieldValue)
    ensures
        r@ == field_in(opt_view(*t)),
{
    match t {
        None => FieldValue::Null,
        Some(s) => match node_of(s.as_str()) {
            JsonNode::Null => FieldValue::Null,
            JsonNode::Text(x) => FieldValue::Text(x),
            JsonNode::Bool(b) => FieldValue::Bool(b),
            _ => FieldValue::Other,
        },
    }
}

/// The text reached from `t` by following the member names in `keys`, as far
/// as they are found.
pub open spec fn descend(t: Seq<char>, keys: Seq<Seq<char>>) -> Seq<char>
    decreases keys.len(),
{
    if keys.len() == 0 {
        t
    } else {
        match get_of(value_of(t), keys[0]) {
            Some(n) => descend(n, keys.drop_first()),
            None => t,
        }
    }
}

/// The items of a listing value: the value itself where it is an array, else
/// its `item` member where that is an array, else none.
pub open spec fn items_of(v: JsonView) -> Seq<Seq<char>> {
    match v {
        JsonView::Array(items) => items,
        _ => match get_of(v, "item"@) {
            Some(t) => match value_of(t) {
                JsonView::Array(items) => items,
                _ => Seq::empty(),
            },
            None => Seq::empty(),
        },
    }
}

/// The items of a Congress API listing: start at its `payload` member where
/// it has one, follow `keys` as far as they are found, and take the items
/// there.
pub open spec fn congress_items_spec(payload: Seq<char>, keys: Seq<Seq<char>>) -> Seq<Seq<char>> {
    let start = text_or(get_of(value_of(payload), "payload"@), payload);
    items_of(value_of(descend(start, keys)))
}

fn descend_text(t: String, keys: &Vec<String>, i: usize) -> (r: String)
    requires
        i <= keys@.len(),
    ensures
        r@ == descend(t@, texts_view(keys@).subrange(i as int, keys@.len() as int)),
    decreases keys@.len() - i,
{
    let ghost ks = texts_view(keys@).subrange(i as int, keys@.len() as int);
    if i == keys.len() {
        return t;
    }
    assert(ks[0] == keys@[i as int]@);
    assert(ks.drop_first() =~= texts_view(keys@).subrange(i + 1, keys@.len() as int));
    match get_member(t.as_str(), keys[i].as_str()) {
        Some(n) => descend_text(n, keys, i + 1),
        None => t,
    }
}

fn empty_texts() -> (r: Vec<String>)
    ensures
        texts_view(r@) == Seq::<Seq<char>>::empty(),
{
    let r: Vec<String> = Vec::new();
    assert(texts_view(r@) =~= Seq::<Seq<char>>::empty());
    r
}

fn items_in(text: &str) -> (r: Vec<String>)
    ensures
        texts_view(r@) == items_of(value_of(text@)),
{
    match node_of(text) {
        JsonNode::Array(items) => items,
        JsonNode::Object(m) => match member_in(&m, "item") {
            Some(t) => match node_of(t.as_str()) {
                JsonNode::Array(items) => items,
                _ => empty_texts(),
            },
            None => empty_texts(),
        },
        _ => empty_texts(),
    }
}

/// The items of a Congress API listing, each as JSON text.
pub fn congress_items(payload: &str, keys: &Vec<String>) -> (r: Vec<String>)
    ensures
        texts_view(r@) == congress_items_spec(payload@, texts_view(keys@)),
{
    let start = match get_member(payload, "payload") {
        Some(p) => p,
        None => String::from_str(payload),
    };
    assert(texts_view(keys@).subrange(0, keys@.len() as int) =~= texts_view(keys@));
    let at = descend_text(start, keys, 0);
    items_in(at.as_str())
}

fn items_under(payload: &str, first: &str, second: &str) -> (r: Vec<String>)
    ensures
        texts_view(r@) == congress_items_spec(payload@, seq![first@, second@]),
{
    let mut keys: Vec<String> = Vec::new();
    keys.push(String::from_str(first));
    keys.push(String::from_str(second));
    assert(texts_view(keys@) =~= seq![first@, second@]);
    congress_items(payload, &keys)
}

/// Whether a term's `chamber` is `Senate`, in any ASCII case.
pub open spec fn senate_chamber(term: Seq<char>) -> bool {
    str_in(get_in(Some(term), "chamber"@)) matches Some(c) && eq_ignore_case(c, "Senate"@)
}

/// A member's terms: the array under `terms.item`, else none.
pub open spec fn member_terms(m: Seq<char>) -> Seq<Seq<char>> {
    match get_in(get_in(Some(m), "terms"@), "item"@) {
        Some(t) => match value_of(t) {
            JsonView::Array(ts) => ts,
            _ => Seq::empty(),
        },
        None => Seq::empty(),
    }
}

/// The last Senate term among the first `n` terms.
pub open spec fn last_senate_in(ts: Seq<Seq<char>>, n: int) -> Option<Seq<char>>
    decreases n,
{
    if n <= 0 {
        None
    } else if senate_chamber(ts[n - 1]) {
        Some(ts[n - 1])
    } else {
        last_senate_in(ts, n - 1)
    }
}

/// A member's last Senate term.
pub open spec fn senate_term_of(m: Seq<char>) -> Option<Seq<char>> {
    last_senate_in(member_terms(m), member_terms(m).len() as int)
}

fn is_senate_chamber(term: &str) -> (r: bool)
    ensures
        r == senate_chamber(term@),
{
    let t = Some(String::from_str(term));
    match str_text(&get_text(&t, "chamber")) {
        Some(c) => eq_ignore_case_text(c.as_str(), "Senate"),
        None => false,
    }
}

fn senate_term(member: &str) -> (r: Option<String>)
    ensures
        opt_view(r) == senate_term_of(member@),
{
    let m = Some(String::from_str(member));
    let terms: Vec<String> = match get_text(&get_text(&m, "terms"), "item") {
        Some(t) => match node_of(t.as_str()) {
            JsonNode::Array(ts) => ts,
            _ => empty_texts(),
        },
        None => empty_texts(),
    };
    let ghost tv = texts_view(terms@);
    assert(tv =~= member_terms(member@));
    let mut i: usize = terms.len();
    while i > 0
        invariant
            i <= terms@.len(),
            tv == texts_view(terms@),
            tv == member_terms(member@),
            last_senate_in(tv, tv.len() as int) == last_senate_in(tv, i as int),
        decreases i,
    {
        assert(tv[i - 1] == terms@[i - 1]@);
        if is_senate_chamber(terms[i - 1].as_str()) {
            assert(last_senate_in(tv, i as int) == Some(tv[i - 1]));
            return Some(terms[i - 1].clone());
        }
        i = i - 1;
    }
    None
}

/// A field of a member's first term (`/terms/item/0/<key>`).
pub open spec fn first_term_field(m: Seq<char>, key: Seq<char>) -> Option<Seq<char>> {
    pointer_in(pointer_in(pointer_in(pointer_in(Some(m), "terms"@), "item"@), "0"@), key)
}

/// A member's id: `bioguideId`, else `memberId`, where it is a string;
/// `unknown_member` otherwise.
pub open spec fn member_id_of(m: Seq<char>) -> Seq<char> {
    text_or(str_in(or_else(get_in(Some(m), "bioguideId"@), get_in(Some(m), "memberId"@))), "unknown_member"@)
}

/// A member's name: `directOrderName`, else `name`, else `fullName`, where it
/// is a string; `Unknown Member` otherwise.
pub open spec fn member_name_of(m: Seq<char>) -> Seq<char> {
    text_or(
        str_in(or_else(get_in(Some(m), "directOrderName"@), or_else(get_in(Some(m), "name"@), get_in(Some(m), "fullName"@)))),
        "Unknown Member"@,
    )
}

/// A member's party: the first term's `party`, else its `partyName`, else the
/// member's `partyName`, else its `party`, where it is a string; `Unknown`
/// otherwise.
pub open spec fn member_party_of(m: Seq<char>) -> Seq<char> {
    text_or(
        str_in(
            or_else(
                first_term_field(m, "party"@),
                or_else(first_term_field(m, "partyName"@), or_else(get_in(Some(m), "partyName"@), get_in(Some(m), "party"@))),
            ),
        ),
        "Unknown"@,
    )
}

/// A member's state code: from the first term's `stateCode`, else its
/// `state`, else the member's `state`, else its `stateCode`, where it is a
/// string (`XX` otherwise).
pub open spec fn member_state_of(m: Seq<char>) -> Seq<char> {
    state_code_for_spec(
        text_or(
            str_in(
                or_else(
                    first_term_field(m, "stateCode"@),
                    or_else(first_term_field(m, "state"@), or_else(get_in(Some(m), "state"@), get_in(Some(m), "stateCode"@))),
                ),
            ),
            "XX"@,
        ),
    )
}

/// The decimal text of an integer.
pub open spec fn int_text(n: int) -> Seq<char> {
    if n < 0 {
        "-"@ + decimal_digits((-n) as nat)
    } else {
        decimal_digits(n as nat)
    }
}

/// The start date of a term: the third of January of its `startYear`, a
/// number that is an `i64` or a string; `null` otherwise.
pub open spec fn term_start_of(term: Seq<char>) -> FieldView {
    match get_in(Some(term), "startYear"@) {
        Some(y) => match value_of(y) {
            JsonView::Number(Some(n)) => FieldView::Text(int_text(n as int) + "-01-03"@),
            JsonView::Text(x) => FieldView::Text(x + "-01-03"@),
            _ => FieldView::Null,
        },
        None => FieldView::Null,
    }
}

/// The roster fields of a member and its Senate term.
pub open spec fn roster_fields_of(m: Seq<char>, term: Seq<char>) -> RosterFieldsView {
    RosterFieldsView {
        source_member_id: FieldView::Text(member_id_of(m)),
        name: FieldView::Text(member_name_of(m)),
        party: FieldView::Text(member_party_of(m)),
        state: FieldView::Text(member_state_of(m)),
        start_date: term_start_of(term),
        end_date: FieldView::Null,
        source_name: FieldView::Text("congress_api"@),
        source_identifier: FieldView::Text(member_id_of(m)),
        source_url: field_in(get_in(Some(m), "url"@)),
    }
}

/// The members of a listing that have a Senate term, each with its last one.
pub open spec fn senate_members(items: Seq<Seq<char>>) -> Seq<(Seq<char>, Seq<char>)>
    decreases items.len(),
{
    if items.len() == 0 {
        Seq::empty()
    } else {
        let rest = senate_members(items.drop_last());
        match senate_term_of(items.last()) {
            Some(t) => rest.push((items.last(), t)),
            None => rest,
        }
    }
}

/// The Senate members of a members listing.
pub open spec fn roster_members(payload: Seq<char>) -> Seq<(Seq<char>, Seq<char>)> {
    senate_members(congress_items_spec(payload, seq!["members"@, "member"@]))
}

/// The error of a member's roster record, where one of its fields is not as
/// required.
pub open spec fn member_roster_error(m: (Seq<char>, Seq<char>)) -> Option<FieldError> {
    roster_error(Some(roster_fields_of(m.0, m.1)))
}

/// The error is the one a field check gives.
pub open spec fn fails_with(e: SenateSimError, check: Option<FieldError>) -> bool {
    check matches Some(fe) && is_field_error(e, fe)
}

pub proof fn lemma_senate_members_prefix(items: Seq<Seq<char>>, i: int)
    requires
        0 <= i <= items.len(),
    ensures
        senate_members(items.take(i)).len() <= senate_members(items).len(),
        forall|k: int|
            0 <= k < senate_members(items.take(i)).len() ==> #[trigger] senate_members(items.take(i))[k]
                == senate_members(items)[k],
    decreases items.len() - i,
{
    if i == items.len() {
        assert(items.take(i) =~= items);
    } else {
        lemma_senate_members_prefix(items, i + 1);
        let t = items.take(i + 1);
        assert(t.drop_last() =~= items.take(i));
        let a = senate_members(items.take(i));
        let b = senate_members(t);
        assert(senate_members(t.drop_last()) == a);
        assert(a.len() <= b.len());
        assert forall|k: int| 0 <= k < a.len() implies #[trigger] a[k] == senate_members(items)[k] by {
            assert(b[k] == a[k]);
        }
    }
}

fn int_text_of(n: i64) -> (r: String)
    ensures
        r@ == int_text(n as int),
{
    if n < 0 {
        let m: u128 = (0 - (n as i128)) as u128;
        let mut t = String::from_str("-");
        t.append(decimal_text(m).as_str());
        t
    } else {
        decimal_text(n as u128)
    }
}

fn term_start(term: &str) -> (r: FieldValue)
    ensures
        r@ == term_start_of(term@),
{
    let t = Some(String::from_str(term));
    match get_text(&t, "startYear") {
        Some(y) => match node_of(y.as_str()) {
            JsonNode::Number(Some(n)) => FieldValue::Text(term_start_date_text(int_text_of(n).as_str())),
            JsonNode::Text(x) => FieldValue::Text(term_start_date_text(x.as_str())),
            _ => FieldValue::Null,
        },
        None => FieldValue::Null,
    }
}

fn first_term_text(m: &Option<String>, key: &str) -> (r: Option<String>)
    requires
        m is Some,
    ensures
        opt_view(r) == first_term_field(m->0@, key@),
{
    pointer_text(&pointer_text(&pointer_text(&pointer_text(m, "terms"), "item"), "0"), key)
}

fn roster_fields(member: &str, term: &str) -> (f: RosterFields)
    ensures
        f@ == roster_fields_of(member@, term@),
{
    let m = Some(String::from_str(member));
    let id = text_or_default(str_text(&or_else_text(get_text(&m, "bioguideId"), get_text(&m, "memberId"))), "unknown_member");
    let name = text_or_default(
        str_text(&or_else_text(get_text(&m, "directOrderName"), or_else_text(get_text(&m, "name"), get_text(&m, "fullName")))),
        "Unknown Member",
    );
    let party = text_or_default(
        str_text(
            &or_else_text(
                first_term_text(&m, "party"),
                or_else_text(first_term_text(&m, "partyName"), or_else_text(get_text(&m, "partyName"), get_text(&m, "party"))),
            ),
        ),
        "Unknown",
    );
    let state = text_or_default(
        str_text(
            &or_else_text(
                first_term_text(&m, "stateCode"),
                or_else_text(first_term_text(&m, "state"), or_else_text(get_text(&m, "state"), get_text(&m, "stateCode"))),
            ),
        ),
        "XX",
    );
    let source_identifier = id.clone();
    RosterFields {
        source_member_id: FieldValue::Text(id),
        name: FieldValue::Text(name),
        party: FieldValue::Text(party),
        state: FieldValue::Text(state_code_for(state.as_str())),
        start_date: term_start(term),
        end_date: FieldValue::Null,
        source_name: FieldValue::Text(String::from_str("congress_api")),
        source_identifier: FieldValue::Text(source_identifier),
        source_url: field_text(&get_text(&m, "url")),
    }
}

/// The roster records of a Congress API members listing: one for each member
/// with a Senate term, in listing order, each read from the fields that
/// [`roster_fields_of`] gives; the error of the first member whose fields are
/// not as required.
pub fn roster_records_from_members(run_date: &CalendarDate, members_payload: &str) -> (r: Result<
    Vec<RawRosterRecord>,
    SenateSimError,
>)
    ensures
        match r {
            Ok(v) => v@.len() == roster_members(members_payload@).len() && forall|k: int|
                0 <= k < v@.len() ==> roster_from_fields(
                    #[trigger] v@[k],
                    roster_fields_of(roster_members(members_payload@)[k].0, roster_members(members_payload@)[k].1),
                    *run_date,
                ),
            Err(e) => exists|k: int|
                0 <= k < roster_members(members_payload@).len() && (forall|j: int|
                    0 <= j < k ==> member_roster_error(#[trigger] roster_members(members_payload@)[j]) is None)
                    && fails_with(e, member_roster_error(roster_members(members_payload@)[k])),
        },
        r is Ok <==> forall|k: int|
            0 <= k < roster_members(members_payload@).len() ==> member_roster_error(
                #[trigger] roster_members(members_payload@)[k],
            ) is None,
{
    let items = items_under(members_payload, "members", "member");
    let ghost iv = texts_view(items@);
    let ghost ms = roster_members(members_payload@);
    assert(ms == senate_members(iv));
    let mut out: Vec<RawRosterRecord> = Vec::new();
    let mut i: usize = 0;
    while i < items.len()
        invariant
            i <= items@.len(),
            iv == texts_view(items@),
            ms == senate_members(iv),
            ms == roster_members(members_payload@),
            out@.len() == senate_members(iv.take(i as int)).len(),
            out@.len() <= ms.len(),
            forall|k: int| 0 <= k < out@.len() ==> senate_members(iv.take(i as int))[k] == ms[k],
            forall|k: int| 0 <= k < out@.len() ==> member_roster_error(#[trigger] ms[k]) is None,
            forall|k: int|
                0 <= k < out@.len() ==> roster_from_fields(#[trigger] out@[k], roster_fields_of(ms[k].0, ms[k].1), *run_date),
        decreases items@.len() - i,
    {
        proof {
            lemma_senate_members_prefix(iv, i + 1);
            assert(iv.take(i + 1).drop_last() =~= iv.take(i as int));
            assert(iv.take(i + 1).last() == iv[i as int]);
        }
        match senate_term(items[i].as_str()) {
            None => {},
            Some(term) => {
                let ghost k = out@.len() as int;
                assert(senate_members(iv.take(i + 1))[k] == (iv[i as int], term@));
                assert(ms[k] == (items@[i as int]@, term@));
                let fields = roster_fields(items[i].as_str(), term.as_str());
                match parse_raw_roster_record_value(&Some(fields), run_date) {
                    Ok(rec) => {
                        out.push(rec);
                    },
                    Err(e) => {
                        assert(forall|j: int| 0 <= j < k ==> member_roster_error(#[trigger] ms[j]) is None);
                        return Err(e);
                    },
                }
            },
        }
        i = i + 1;
    }
    assert(iv.take(iv.len() as int) =~= iv);
    Ok(out)
}

/// A bill's `type`, where it is a string.
pub open spec fn bill_type_of(b: Seq<char>) -> Option<Seq<char>> {
    str_in(get_in(Some(b), "type"@))
}

/// A bill's number: its `number`, else its `billNumber`, where it is a string.
pub open spec fn bill_number_of(b: Seq<char>) -> Option<Seq<char>> {
    str_in(or_else(get_in(Some(b), "number"@), get_in(Some(b), "billNumber"@)))
}

/// The legislation fields of a bill.
pub open spec fn legislation_fields_of(b: Seq<char>) -> LegislationFieldsView {
    let id = bill_object_id_spec(bill_type_of(b), bill_number_of(b));
    LegislationFieldsView {
        source_object_id: FieldView::Text(id),
        title: FieldView::Text(
            text_or(str_in(or_else(get_in(Some(b), "title"@), get_in(Some(b), "latestTitle"@))), "Untitled legislation"@),
        ),
        summary: match or_else(
            str_in(get_in(Some(b), "summary"@)),
            str_in(pointer_in(pointer_in(pointer_in(Some(b), "summaries"@), "0"@), "text"@)),
        ) {
            Some(x) => FieldView::Text(x),
            None => FieldView::Null,
        },
        sponsor: field_in(
            or_else(
                pointer_in(pointer_in(pointer_in(Some(b), "sponsors"@), "0"@), "fullName"@),
                pointer_in(pointer_in(pointer_in(Some(b), "sponsors"@), "0"@), "name"@),
            ),
        ),
        introduced_date: field_in(get_in(Some(b), "introducedDate"@)),
        latest_status_text: field_in(
            or_else(get_in(get_in(Some(b), "latestAction"@), "text"@), get_in(Some(b), "updateDateIncludingText"@)),
        ),
        source_name: FieldView::Text("congress_api"@),
        source_identifier: FieldView::Text(id),
        source_url: field_in(get_in(Some(b), "url"@)),
    }
}

pub open spec fn bill_legislation_error(b: Seq<char>) -> Option<FieldError> {
    legislation_error(Some(legislation_fields_of(b)))
}

fn legislation_fields(bill: &str) -> (f: LegislationFields)
    ensures
        f@ == legislation_fields_of(bill@),
{
    let b = Some(String::from_str(bill));
    let bill_type = str_text(&get_text(&b, "type"));
    let bill_number = str_text(&or_else_text(get_text(&b, "number"), get_text(&b, "billNumber")));
    let id = bill_object_id(
        match &bill_type {
            Some(t) => Some(t.as_str()),
            None => None,
        },
        match &bill_number {
            Some(n) => Some(n.as_str()),
            None => None,
        },
    );
    let title = text_or_default(
        str_text(&or_else_text(get_text(&b, "title"), get_text(&b, "latestTitle"))),
        "Untitled legislation",
    );
    let summary = match or_else_text(
        str_text(&get_text(&b, "summary")),
        str_text(&pointer_text(&pointer_text(&pointer_text(&b, "summaries"), "0"), "text")),
    ) {
        Some(x) => FieldValue::Text(x),
        None => FieldValue::Null,
    };
    let sponsor = field_text(
        &or_else_text(
            pointer_text(&pointer_text(&pointer_text(&b, "sponsors"), "0"), "fullName"),
            pointer_text(&pointer_text(&pointer_text(&b, "sponsors"), "0"), "name"),
        ),
    );
    let status = field_text(
        &or_else_text(get_text(&get_text(&b, "latestAction"), "text"), get_text(&b, "updateDateIncludingText")),
    );
    let source_identifier = id.clone();
    LegislationFields {
        source_object_id: FieldValue::Text(id),
        title: FieldValue::Text(title),
        summary,
        sponsor,
        introduced_date: field_text(&get_text(&b, "introducedDate")),
        latest_status_text: status,
        source_name: FieldValue::Text(String::from_str("congress_api")),
        source_identifier: FieldValue::Text(source_identifier),
        source_url: field_text(&get_text(&b, "url")),
    }
}

/// The legislation records of a listing's bills, one for each bill in order,
/// each read from the fields that [`legislation_fields_of`] gives; the error
/// of the first bill whose fields are not as required.
pub fn legislative_records_from_bills(run_date: &CalendarDate, bills: &Vec<String>) -> (r: Result<
    Vec<RawLegislativeRecord>,
    SenateSimError,
>)
    ensures
        match r {
            Ok(v) => v@.len() == bills@.len() && forall|k: int|
                0 <= k < v@.len() ==> legislation_from_fields(
                    #[trigger] v@[k],
                    legislation_fields_of(bills@[k]@),
                    *run_date,
                ),
            Err(e) => exists|k: int|
                0 <= k < bills@.len() && (forall|j: int|
                    0 <= j < k ==> bill_legislation_error(#[trigger] bills@[j]@) is None) && fails_with(
                    e,
                    bill_legislation_error(bills@[k]@),
                ),
        },
        r is Ok <==> forall|k: int| 0 <= k < bills@.len() ==> bill_legislation_error(#[trigger] bills@[k]@) is None,
{
    let mut out: Vec<RawLegislativeRecord> = Vec::new();
    let mut i: usize = 0;
    while i < bills.len()
        invariant
            i <= bills@.len(),
            out@.len() == i,
            forall|k: int| 0 <= k < i ==> bill_legislation_error(#[trigger] bills@[k]@) is None,
            forall|k: int|
                0 <= k < i ==> legislation_from_fields(#[trigger] out@[k], legislation_fields_of(bills@[k]@), *run_date),
        decreases bills@.len() - i,
    {
        let fields = legislation_fields(bills[i].as_str());
        match parse_raw_legislative_record_value(&Some(fields), run_date) {
            Ok(rec) => {
                out.push(rec);
            },
            Err(e) => {
                return Err(e);
            },
        }
        i = i + 1;
    }
    Ok(out)
}

/// The code of an action, where its `actionCode` is a string.
pub open spec fn action_code_of(a: Seq<char>) -> Option<Seq<char>> {
    str_in(get_in(Some(a), "actionCode"@))
}

/// The id of an action at a position of the listing without a code.
pub open spec fn fallback_id(index: int) -> Seq<char> {
    "action_"@ + decimal_digits(index as nat)
}

/// An action's `actionCode` as a field; `action_<index>` where it has none.
pub open spec fn action_code_field(a: Seq<char>, index: int) -> FieldView {
    match get_in(Some(a), "actionCode"@) {
        Some(t) => field_in(Some(t)),
        None => FieldView::Text(fallback_id(index)),
    }
}

/// The action fields of the action at a position of the listing.
pub open spec fn action_fields_of(a: Seq<char>, index: int) -> ActionFieldsView {
    let own_id = text_or(action_code_of(a), fallback_id(index));
    ActionFieldsView {
        source_action_id: action_code_field(a, index),
        object_id: FieldView::Text(
            text_or(str_in(or_else(get_in(Some(a), "relatedObjectId"@), get_in(Some(a), "billId"@))), own_id),
        ),
        action_date: FieldView::Text(text_or(str_in(get_in(Some(a), "actionDate"@)), "1900-01-01"@)),
        action_text: FieldView::Text(text_or(str_in(get_in(Some(a), "text"@)), "Congress action"@)),
        action_type: field_in(get_in(Some(a), "type"@)),
        chamber: FieldView::Text(action_chamber_spec(action_code_of(a))),
        source_name: FieldView::Text("congress_api"@),
        source_identifier: action_code_field(a, index),
        source_url: field_in(get_in(Some(a), "url"@)),
    }
}

pub open spec fn listed_action_error(a: Seq<char>, index: int) -> Option<FieldError> {
    action_error(Some(action_fields_of(a, index)))
}

fn action_code_value(a: &Option<String>, index: usize) -> (r: FieldValue)
    requires
        a is Some,
    ensures
        r@ == action_code_field(a->0@, index as int),
{
    match get_text(a, "actionCode") {
        Some(t) => field_text(&Some(t)),
        None => FieldValue::Text(fallback_action_id(index)),
    }
}

fn action_fields(action: &str, index: usize) -> (f: ActionFields)
    ensures
        f@ == action_fields_of(action@, index as int),
{
    let a = Some(String::from_str(action));
    let code = str_text(&get_text(&a, "actionCode"));
    let own_id = match &code {
        Some(c) => c.clone(),
        None => fallback_action_id(index),
    };
    let object_id = text_or_default(str_text(&or_else_text(get_text(&a, "relatedObjectId"), get_text(&a, "billId"))), own_id.as_str());
    let chamber = action_chamber_text(
        match &code {
            Some(c) => Some(c.as_str()),
            None => None,
        },
    );
    ActionFields {
        source_action_id: action_code_value(&a, index),
        object_id: FieldValue::Text(object_id),
        action_date: FieldValue::Text(text_or_default(str_text(&get_text(&a, "actionDate")), "1900-01-01")),
        action_text: FieldValue::Text(text_or_default(str_text(&get_text(&a, "text")), "Congress action")),
        action_type: field_text(&get_text(&a, "type")),
        chamber: FieldValue::Text(chamber),
        source_name: FieldValue::Text(String::from_str("congress_api")),
        source_identifier: action_code_value(&a, index),
        source_url: field_text(&get_text(&a, "url")),
    }
}

/// The action records of a list of Congress API actions, one for each action
/// in order, each read from the fields that [`action_fields_of`] gives for its
/// position; the error of the first action whose fields are not as required.
pub fn action_records_from_actions(run_date: &CalendarDate, actions: &Vec<String>) -> (r: Result<
    Vec<RawActionRecord>,
    SenateSimError,
>)
    ensures
        match r {
            Ok(v) => v@.len() == actions@.len() && forall|k: int|
                0 <= k < v@.len() ==> action_from_fields(#[trigger] v@[k], action_fields_of(actions@[k]@, k), *run_date),
            Err(e) => exists|k: int|
                0 <= k < actions@.len() && (forall|j: int|
                    0 <= j < k ==> listed_action_error(#[trigger] actions@[j]@, j) is None) && fails_with(
                    e,
                    listed_action_error(actions@[k]@, k),
                ),
        },
        r is Ok <==> forall|k: int| 0 <= k < actions@.len() ==> listed_action_error(#[trigger] actions@[k]@, k) is None,
{
    let mut out: Vec<RawActionRecord> = Vec::new();
    let mut i: usize = 0;
    while i < actions.len()
        invariant
            i <= actions@.len(),
            out@.len() == i,
            forall|k: int| 0 <= k < i ==> listed_action_error(#[trigger] actions@[k]@, k) is None,
            forall|k: int|
                0 <= k < i ==> action_from_fields(#[trigger] out@[k], action_fields_of(actions@[k]@, k), *run_date),
        decreases actions@.len() - i,
    {
        let fields = action_fields(actions[i].as_str(), i);
        match parse_raw_action_record_value(&Some(fields), run_date) {
            Ok(rec) => {
                out.push(rec);
            },
            Err(e) => {
                return Err(e);
            },
        }
        i = i + 1;
    }
    Ok(out)
}

/// The bill type (lowercased) and number to fetch a bill's actions with, where
/// the bill's `type` is a string and its `number` (else `billNumber`) is one.
pub open spec fn bill_request_of(b: Seq<char>) -> Option<(Seq<char>, Seq<char>)> {
    match (bill_type_of(b), bill_number_of(b)) {
        (Some(t), Some(n)) => Some((lower_seq(t), n)),
        _ => None,
    }
}

pub fn bill_action_request(bill: &str) -> (r: Option<(String, String)>)
    ensures
        match r {
            Some(p) => bill_request_of(bill@) == Some((p.0@, p.1@)),
            None => bill_request_of(bill@) is None,
        },
{
    let b = Some(String::from_str(bill));
    let bill_type = str_text(&get_text(&b, "type"));
    let bill_number = str_text(&or_else_text(get_text(&b, "number"), get_text(&b, "billNumber")));
    match (bill_type, bill_number) {
        (Some(t), Some(n)) => Some((string_of(&lower_chars(t.as_str())), n)),
        _ => None,
    }
}

} // verus!
