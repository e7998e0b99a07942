//! Senate roll-call votes: checking that a fetched body is XML, and turning a
//! vote menu and a vote summary (as read from the Senate's XML) into vote
//! references and raw vote records.

use vstd::prelude::*;
use crate::ingest::live::{before_comma, before_comma_chars};
use crate::ingest::normalize::{copy_text_option, text_or_empty};
use crate::model::records::RawVoteRecord;
use crate::model::error::SenateSimError;
use crate::model::identity::Party;
use crate::model::legislative::PolicyDomain;
use crate::util::calendar::{date_in_format, CalendarDate};
use crate::util::text::{
    chars_of, eq_ignore_case, eq_ignore_case_text, has_text, lower_chars, lower_of, lower_seq, seq_contains,
    starts_with, starts_with_text, string_of, trim_seq, trim_start_seq, trimmed, trimmed_chars, decimal_digits,
    decimal_text,
};

verus! {

/// One roll-call vote of a session.
pub struct SenateVoteReference {
    pub congress: u32,
    pub session: u32,
    pub vote_number: u32,
    pub vote_date: CalendarDate,
}

/// One entry of a session's vote menu, as the XML gives it.
pub struct VoteMenuEntry {
    pub vote_number: String,
    pub vote_date: String,
}

/// A session's vote menu.
pub struct VoteMenu {
    pub congress_year: Option<i32>,
    pub votes: Vec<VoteMenuEntry>,
}

/// One senator's line of a vote summary.
pub struct VoteMember {
    pub lis_member_id: Option<String>,
    pub member_id: Option<String>,
    pub first_name: Option<String>,
    pub last_name: Option<String>,
    pub member_full: Option<String>,
    pub state: Option<String>,
    pub party: Option<String>,
    pub vote_cast: Option<String>,
}

/// The summary of one roll-call vote; the document fields are those of its
/// `document` element, absent when it is.
pub struct VoteSummary {
    pub vote_date: Option<String>,
    pub vote_question: Option<String>,
    pub vote_title: Option<String>,
    pub document_type: Option<String>,
    pub document_number: Option<String>,
    pub members: Vec<VoteMember>,
}

/// A body looks like XML: after leading whitespace it starts with `<?xml`, or
/// with `<` but not with `<!DOCTYPE html` or `<html`.
pub open spec fn looks_like_xml(body: Seq<char>) -> bool {
    let t = trim_start_seq(body);
    starts_with(t, "<?xml"@) || (starts_with(t, "<"@) && !starts_with(t, "<!DOCTYPE html"@) && !starts_with(
        t,
        "<html"@,
    ))
}

pub open spec fn first_chars(s: Seq<char>, n: int) -> Seq<char> {
    if s.len() <= n {
        s
    } else {
        s.subrange(0, n)
    }
}

pub fn trim_start_chars(s: &Vec<char>) -> (r: Vec<char>)
    ensures
        r@ == trim_start_seq(s@),
{
    let n = s.len();
    let mut start: usize = 0;
    while start < n && crate::util::text::is_whitespace_char(s[start])
        invariant
            n == s@.len(),
            start <= n,
            forall|j: int| 0 <= j < start ==> crate::util::text::is_white(#[trigger] s@[j]),
        decreases n - start,
    {
        start = start + 1;
    }
    proof {
        crate::util::text::lemma_leading_white_skip(s@, start as int);
        let rest = s@.subrange(start as int, n as int);
        if start < n {
            assert(rest[0] == s@[start as int]);
        }
        assert(crate::util::text::leading_white(rest) == 0);
    }
    let mut out: Vec<char> = Vec::new();
    let mut i: usize = start;
    while i < n
        invariant
            n == s@.len(),
            start <= i <= n,
            out@ == s@.subrange(start as int, i as int),
        decreases n - i,
    {
        out.push(s[i]);
        proof {
            assert(s@.subrange(start as int, i + 1) =~= s@.subrange(start as int, i as int).push(s@[i as int]));
        }
        i = i + 1;
    }
    out
}

/// Accepts a body that looks like XML; otherwise the error names the URL and
/// the first 80 characters of the body after leading whitespace.
pub fn validate_xml_response(url: &str, body: &str) -> (r: Result<(), SenateSimError>)
    ensures
        r is Ok <==> looks_like_xml(body@),
        r matches Err(e) ==> (e matches SenateSimError::UnexpectedResponseFormat { url: u, expected: x, body_prefix: p }
            && u@ == url@ && x@ == "XML"@ && p@ == first_chars(trim_start_seq(body@), 80)),
{
    let t = trim_start_chars(&chars_of(body));
    if starts_with_text(&t, "<?xml") || (starts_with_text(&t, "<") && !starts_with_text(&t, "<!DOCTYPE html")
        && !starts_with_text(&t, "<html")) {
        return Ok(());
    }
    let mut prefix: Vec<char> = Vec::new();
    let limit: usize = if t.len() < 80 {
        t.len()
    } else {
        80
    };
    let mut i: usize = 0;
    while i < limit
        invariant
            i <= limit <= t@.len(),
            limit == (if t@.len() < 80 { t@.len() } else { 80 }),
            prefix@ == t@.subrange(0, i as int),
        decreases limit - i,
    {
        prefix.push(t[i]);
        proof {
            assert(t@.subrange(0, i + 1) =~= t@.subrange(0, i as int).push(t@[i as int]));
        }
        i = i + 1;
    }
    proof {
        assert(t@.subrange(0, t@.len() as int) =~= t@);
    }
    Err(
        SenateSimError::UnexpectedResponseFormat {
            url: String::from_str(url),
            expected: String::from_str("XML"),
            body_prefix: string_of(&prefix),
        },
    )
}

/// The object a vote's document names: its type and number, trimmed and
/// lowercased, joined; none when either is missing or empty.
pub open spec fn object_id_spec(doc_type: Option<String>, doc_number: Option<String>) -> Option<Seq<char>> {
    match (doc_type, doc_number) {
        (Some(t), Some(n)) => {
            let a = lower_seq(trim_seq(t@));
            let b = lower_seq(trim_seq(n@));
            if a.len() == 0 || b.len() == 0 {
                None
            } else {
                Some(a + b)
            }
        },
        _ => None,
    }
}

pub fn build_object_id(document_type: &Option<String>, document_number: &Option<String>) -> (r: Option<String>)
    ensures
        match object_id_spec(*document_type, *document_number) {
            Some(id) => r matches Some(s) && s@ == id,
            None => r is None,
        },
{
    match (document_type, document_number) {
        (Some(t), Some(n)) => {
            let a = lower_of(&trimmed_chars(&chars_of(t.as_str())));
            let b = lower_of(&trimmed_chars(&chars_of(n.as_str())));
            if a.len() == 0 || b.len() == 0 {
                return None;
            }
            let mut id = string_of(&a);
            id.append(string_of(&b).as_str());
            Some(id)
        },
        _ => None,
    }
}

pub open spec fn mentions(title: Seq<char>, word: Seq<char>) -> bool {
    seq_contains(lower_seq(title), word)
}

/// The vote category a title suggests, by the first keyword it mentions
/// (ignoring ASCII case).
pub open spec fn vote_category_spec(title: Seq<char>) -> Seq<char> {
    if mentions(title, "cloture"@) {
        "Cloture"@
    } else if mentions(title, "motion to proceed"@) {
        "MotionToProceed"@
    } else if mentions(title, "amendment"@) {
        "Amendment"@
    } else if mentions(title, "nomination"@) {
        "Nomination"@
    } else if mentions(title, "passage"@) || mentions(title, "on passage"@) || mentions(title, "passed"@) {
        "Passage"@
    } else if mentions(title, "motion"@) || mentions(title, "table"@) {
        "Procedural"@
    } else {
        "Other"@
    }
}

pub fn infer_vote_category(title: &str) -> (r: String)
    ensures
        r@ == vote_category_spec(title@),
{
    let l = lower_chars(title);
    if has_text(&l, "cloture") {
        String::from_str("Cloture")
    } else if has_text(&l, "motion to proceed") {
        String::from_str("MotionToProceed")
    } else if has_text(&l, "amendment") {
        String::from_str("Amendment")
    } else if has_text(&l, "nomination") {
        String::from_str("Nomination")
    } else if has_text(&l, "passage") || has_text(&l, "on passage") || has_text(&l, "passed") {
        String::from_str("Passage")
    } else if has_text(&l, "motion") || has_text(&l, "table") {
        String::from_str("Procedural")
    } else {
        String::from_str("Other")
    }
}

/// The procedural kind a title suggests, if any.
pub open spec fn procedural_kind_spec(title: Seq<char>) -> Option<Seq<char>> {
    if mentions(title, "cloture"@) {
        Some("Cloture"@)
    } else if mentions(title, "motion to proceed"@) {
        Some("MotionToProceed"@)
    } else if mentions(title, "amendment"@) {
        Some("AmendmentProcess"@)
    } else if mentions(title, "table"@) {
        Some("Table"@)
    } else if mentions(title, "recommit"@) {
        Some("Recommit"@)
    } else {
        None
    }
}

pub open spec fn opt_text_view(o: Option<String>) -> Option<Seq<char>> {
    match o {
        Some(s) => Some(s@),
        None => None,
    }
}

pub fn infer_procedural_kind(title: &str) -> (r: Option<String>)
    ensures
        opt_text_view(r) == procedural_kind_spec(title@),
{
    let l = lower_chars(title);
    if has_text(&l, "cloture") {
        Some(String::from_str("Cloture"))
    } else if has_text(&l, "motion to proceed") {
        Some(String::from_str("MotionToProceed"))
    } else if has_text(&l, "amendment") {
        Some(String::from_str("AmendmentProcess"))
    } else if has_text(&l, "table") {
        Some(String::from_str("Table"))
    } else if has_text(&l, "recommit") {
        Some(String::from_str("Recommit"))
    } else {
        None
    }
}

/// The policy domain a title suggests, if any.
pub open spec fn title_domain_spec(title: Seq<char>) -> Option<PolicyDomain> {
    if mentions(title, "defense"@) {
        Some(PolicyDomain::Defense)
    } else if mentions(title, "budget"@) || mentions(title, "tax"@) {
        Some(PolicyDomain::BudgetTax)
    } else if mentions(title, "health"@) {
        Some(PolicyDomain::Healthcare)
    } else if mentions(title, "immigration"@) || mentions(title, "border"@) {
        Some(PolicyDomain::Immigration)
    } else if mentions(title, "energy"@) || mentions(title, "climate"@) {
        Some(PolicyDomain::EnergyClimate)
    } else if mentions(title, "judiciary"@) || mentions(title, "judge"@) {
        Some(PolicyDomain::Judiciary)
    } else if mentions(title, "technology"@) || mentions(title, "privacy"@) {
        Some(PolicyDomain::Technology)
    } else if mentions(title, "foreign"@) {
        Some(PolicyDomain::ForeignPolicy)
    } else if mentions(title, "labor"@) || mentions(title, "worker"@) {
        Some(PolicyDomain::Labor)
    } else if mentions(title, "education"@) || mentions(title, "school"@) {
        Some(PolicyDomain::Education)
    } else {
        None
    }
}

pub fn infer_policy_domain_from_text(title: &str) -> (r: Option<PolicyDomain>)
    ensures
        r == title_domain_spec(title@),
{
    let l = lower_chars(title);
    if has_text(&l, "defense") {
        Some(PolicyDomain::Defense)
    } else if has_text(&l, "budget") || has_text(&l, "tax") {
        Some(PolicyDomain::BudgetTax)
    } else if has_text(&l, "health") {
        Some(PolicyDomain::Healthcare)
    } else if has_text(&l, "immigration") || has_text(&l, "border") {
        Some(PolicyDomain::Immigration)
    } else if has_text(&l, "energy") || has_text(&l, "climate") {
        Some(PolicyDomain::EnergyClimate)
    } else if has_text(&l, "judiciary") || has_text(&l, "judge") {
        Some(PolicyDomain::Judiciary)
    } else if has_text(&l, "technology") || has_text(&l, "privacy") {
        Some(PolicyDomain::Technology)
    } else if has_text(&l, "foreign") {
        Some(PolicyDomain::ForeignPolicy)
    } else if has_text(&l, "labor") || has_text(&l, "worker") {
        Some(PolicyDomain::Labor)
    } else if has_text(&l, "education") || has_text(&l, "school") {
        Some(PolicyDomain::Education)
    } else {
        None
    }
}

/// The party a vote listing's party code names.
pub open spec fn member_party_spec(p: Party, v: Seq<char>) -> bool {
    if eq_ignore_case(v, "D"@) || eq_ignore_case(v, "Democrat"@) {
        p == Party::Democrat
    } else if eq_ignore_case(v, "R"@) || eq_ignore_case(v, "Republican"@) {
        p == Party::Republican
    } else if eq_ignore_case(v, "I"@) || eq_ignore_case(v, "Independent"@) {
        p == Party::Independent
    } else {
        p matches Party::Other(s) && s@ == v
    }
}

pub fn member_party(value: &str) -> (r: Party)
    ensures
        member_party_spec(r, value@),
{
    if eq_ignore_case_text(value, "D") || eq_ignore_case_text(value, "Democrat") {
        Party::Democrat
    } else if eq_ignore_case_text(value, "R") || eq_ignore_case_text(value, "Republican") {
        Party::Republican
    } else if eq_ignore_case_text(value, "I") || eq_ignore_case_text(value, "Independent") {
        Party::Independent
    } else {
        Party::Other(String::from_str(value))
    }
}

pub open spec fn text_or(o: Option<String>, default: Seq<char>) -> Seq<char> {
    match o {
        Some(s) => s@,
        None => default,
    }
}

/// An id made up for a member without one: last name, state and party,
/// lowercased, joined by `_`.
pub open spec fn synthesized_id_spec(m: VoteMember) -> Seq<char> {
    lower_seq(text_or(m.last_name, "member"@)) + "_"@ + lower_seq(text_or(m.state, "xx"@)) + "_"@ + lower_seq(
        text_or(m.party, "u"@),
    )
}

fn text_or_default<'a>(o: &'a Option<String>, default: &'a str) -> (r: &'a str)
    ensures
        r@ == text_or(*o, default@),
{
    match o {
        Some(s) => s.as_str(),
        None => default,
    }
}

pub fn synthesize_member_id(member: &VoteMember) -> (r: String)
    ensures
        r@ == synthesized_id_spec(*member),
{
    let mut out = string_of(&lower_chars(text_or_default(&member.last_name, "member")));
    out.append("_");
    out.append(string_of(&lower_chars(text_or_default(&member.state, "xx"))).as_str());
    out.append("_");
    out.append(string_of(&lower_chars(text_or_default(&member.party, "u"))).as_str());
    out
}

/// A member's name: first and last name, else the last name, else the full
/// name field, else `Unknown Senator`.
pub open spec fn member_name_spec(m: VoteMember) -> Seq<char> {
    match (m.first_name, m.last_name) {
        (Some(f), Some(l)) => f@ + " "@ + l@,
        (_, Some(l)) => l@,
        _ => text_or(m.member_full, "Unknown Senator"@),
    }
}

pub fn build_member_name(member: &VoteMember) -> (r: String)
    ensures
        r@ == member_name_spec(*member),
{
    match (&member.first_name, &member.last_name) {
        (Some(f), Some(l)) => {
            let mut out = f.clone();
            out.append(" ");
            out.append(l.as_str());
            out
        },
        (_, Some(l)) => l.clone(),
        _ => match &member.member_full {
            Some(full) => full.clone(),
            None => String::from_str("Unknown Senator"),
        },
    }
}

pub proof fn lemma_before_comma(v: Seq<char>)
    ensures
        before_comma(v).len() <= v.len(),
        before_comma(v) == v.subrange(0, before_comma(v).len() as int),
        before_comma(v).len() < v.len() ==> v[before_comma(v).len() as int] == ',',
        forall|j: int| 0 <= j < before_comma(v).len() ==> v[j] != ',',
    decreases v.len(),
{
    if v.len() > 0 && v[0] != ',' {
        let t = v.drop_first();
        lemma_before_comma(t);
        let f = before_comma(v);
        assert(f == seq![v[0]] + before_comma(t));
        assert(f =~= v.subrange(0, f.len() as int));
        assert forall|j: int| 0 <= j < f.len() implies v[j] != ',' by {
            if j > 0 {
                assert(v[j] == t[j - 1]);
            }
        }
        if f.len() < v.len() {
            assert(v[f.len() as int] == t[f.len() - 1]);
        }
    }
}

/// The text up to its second comma: `split(',').take(2)` joined by `,`.
pub open spec fn up_to_second_comma(v: Seq<char>) -> Seq<char> {
    let f = before_comma(v);
    if f.len() >= v.len() {
        v
    } else {
        f + seq![','] + before_comma(v.subrange(f.len() + 1int, v.len() as int))
    }
}

fn up_to_second_comma_chars(v: &Vec<char>) -> (r: Vec<char>)
    ensures
        r@ == up_to_second_comma(v@),
{
    let f = before_comma_chars(v);
    proof {
        lemma_before_comma(v@);
    }
    if f.len() >= v.len() {
        return v.clone();
    }
    let mut rest: Vec<char> = Vec::new();
    let mut i: usize = f.len() + 1;
    while i < v.len()
        invariant
            f@.len() + 1 <= i <= v@.len(),
            rest@ == v@.subrange(f@.len() + 1int, i as int),
        decreases v.len() - i,
    {
        rest.push(v[i]);
        proof {
            assert(v@.subrange(f@.len() + 1int, i + 1) =~= v@.subrange(f@.len() + 1int, i as int).push(v@[i as int]));
        }
        i = i + 1;
    }
    let g = before_comma_chars(&rest);
    let mut out = f;
    out.push(',');
    let mut k: usize = 0;
    let ghost head = out@;
    while k < g.len()
        invariant
            k <= g@.len(),
            out@ == head + g@.subrange(0, k as int),
        decreases g.len() - k,
    {
        out.push(g[k]);
        proof {
            assert(g@.subrange(0, k + 1) =~= g@.subrange(0, k as int).push(g@[k as int]));
        }
        k = k + 1;
    }
    proof {
        assert(g@.subrange(0, g@.len() as int) =~= g@);
    }
    out
}

/// The first of two readings that succeeds.
pub open spec fn either(a: Option<int>, b: Option<int>) -> Option<int> {
    if a is Some {
        a
    } else {
        b
    }
}

/// The day number of a vote date: the trimmed text read as `January 15,
/// 2026` (with or without a time), as an ISO date or as `15-Jan-2026` /
/// `15-Jan`; failing those, the text up to its second comma, trimmed, read as
/// `January 15,2026`.
pub open spec fn vote_date_spec(v: Seq<char>) -> Option<int> {
    let t = trim_seq(v);
    let p = trim_seq(up_to_second_comma(v));
    either(date_in_format(t, "%B %d, %Y"@), either(date_in_format(t, "%B %e, %Y"@), either(
        date_in_format(t, "%B %d, %Y, %I:%M %p"@), either(date_in_format(t, "%B %e, %Y, %I:%M %p"@), either(
            date_in_format(t, "%Y-%m-%d"@), either(date_in_format(t, "%d-%b-%Y"@), either(
                date_in_format(t, "%d-%b"@), either(date_in_format(p, "%B %d,%Y"@), date_in_format(p, "%B %e,%Y"@)),
            )),
        )),
    )))
}

/// The error for a vote date that cannot be read.
pub open spec fn is_date_error(e: SenateSimError, v: Seq<char>) -> bool {
    e matches SenateSimError::Validation { field, message } && field@ == "senate_vote_summary.vote_date"@
        && message@ == "invalid vote date "@ + v
}

/// Reads a vote date in any of the formats the Senate uses.
pub fn parse_vote_date(value: &str) -> (r: Result<CalendarDate, SenateSimError>)
    ensures
        match vote_date_spec(value@) {
            Some(n) => r matches Ok(d) && d.day_number == n && d.wf(),
            None => r matches Err(e) && is_date_error(e, value@),
        },
{
    let t = trimmed(value);
    let ts = t.as_str();
    if let Some(d) = CalendarDate::parse_with_format(ts, "%B %d, %Y") {
        return Ok(d);
    }
    if let Some(d) = CalendarDate::parse_with_format(ts, "%B %e, %Y") {
        return Ok(d);
    }
    if let Some(d) = CalendarDate::parse_with_format(ts, "%B %d, %Y, %I:%M %p") {
        return Ok(d);
    }
    if let Some(d) = CalendarDate::parse_with_format(ts, "%B %e, %Y, %I:%M %p") {
        return Ok(d);
    }
    if let Some(d) = CalendarDate::parse_with_format(ts, "%Y-%m-%d") {
        return Ok(d);
    }
    if let Some(d) = CalendarDate::parse_with_format(ts, "%d-%b-%Y") {
        return Ok(d);
    }
    if let Some(d) = CalendarDate::parse_with_format(ts, "%d-%b") {
        return Ok(d);
    }
    let p = string_of(&trimmed_chars(&up_to_second_comma_chars(&chars_of(value))));
    let ps = p.as_str();
    if let Some(d) = CalendarDate::parse_with_format(ps, "%B %d,%Y") {
        return Ok(d);
    }
    if let Some(d) = CalendarDate::parse_with_format(ps, "%B %e,%Y") {
        return Ok(d);
    }
    let mut message = String::from_str("invalid vote date ");
    message.append(value);
    Err(SenateSimError::Validation { field: String::from_str("senate_vote_summary.vote_date"), message })
}

/// A year as decimal text, with a leading `-` when negative.
pub open spec fn year_text(y: int) -> Seq<char> {
    if y < 0 {
        "-"@ + decimal_digits((-y) as nat)
    } else {
        decimal_digits(y as nat)
    }
}

fn year_string(y: i32) -> (r: String)
    ensures
        r@ == year_text(y as int),
{
    if y < 0 {
        let mut out = String::from_str("-");
        let m: i64 = -(y as i64);
        out.append(decimal_text(m as u128).as_str());
        out
    } else {
        decimal_text(y as u128)
    }
}

/// The day number of a vote-menu date: the trimmed text as `15-Jan-2026`, or
/// as `15-Jan` with the congress year appended, or as a vote date.
pub open spec fn index_date_spec(v: Seq<char>, congress_year: int) -> Option<int> {
    let t = trim_seq(v);
    either(date_in_format(t, "%d-%b-%Y"@), either(
        date_in_format(t + "-"@ + year_text(congress_year), "%d-%b-%Y"@),
        vote_date_spec(t),
    ))
}

fn parse_vote_index_date(value: &str, congress_year: i32) -> (r: Result<CalendarDate, SenateSimError>)
    ensures
        match index_date_spec(value@, congress_year as int) {
            Some(n) => r matches Ok(d) && d.day_number == n && d.wf(),
            None => r matches Err(e) && is_date_error(e, trim_seq(value@)),
        },
{
    let t = trimmed(value);
    if let Some(d) = CalendarDate::parse_with_format(t.as_str(), "%d-%b-%Y") {
        return Ok(d);
    }
    let mut with_year = t.clone();
    with_year.append("-");
    with_year.append(year_string(congress_year).as_str());
    if let Some(d) = CalendarDate::parse_with_format(with_year.as_str(), "%d-%b-%Y") {
        return Ok(d);
    }
    parse_vote_date(t.as_str())
}

pub open spec fn is_digit(c: char) -> bool {
    '0' <= c && c <= '9'
}

/// The value of a run of decimal digits.
pub open spec fn digits_value(ds: Seq<char>) -> int
    decreases ds.len(),
{
    if ds.len() == 0 {
        0
    } else {
        digits_value(ds.drop_last()) * 10 + (ds.last() as int - '0' as int)
    }
}

/// What `str::parse::<u32>` gives: an optional `+`, then one or more decimal
/// digits whose value fits in `u32`.
/// The text after an optional leading `+`.
pub open spec fn unsigned_body(s: Seq<char>) -> Seq<char> {
    if s.len() > 0 && s[0] == '+' {
        s.drop_first()
    } else {
        s
    }
}

pub open spec fn u32_text_value(s: Seq<char>) -> Option<int> {
    let body = unsigned_body(s);
    if body.len() == 0 || !(forall|i: int| 0 <= i < body.len() ==> is_digit(#[trigger] body[i])) {
        None
    } else if digits_value(body) > u32::MAX {
        None
    } else {
        Some(digits_value(body))
    }
}

proof fn lemma_digits_grow(ds: Seq<char>, k: int)
    requires
        0 <= k <= ds.len(),
        forall|i: int| 0 <= i < ds.len() ==> is_digit(#[trigger] ds[i]),
    ensures
        digits_value(ds) >= digits_value(ds.subrange(0, k)),
        digits_value(ds.subrange(0, k)) >= 0,
    decreases ds.len() - k,
{
    if k < ds.len() {
        lemma_digits_grow(ds, k + 1);
        let a = ds.subrange(0, k + 1);
        assert(a.drop_last() =~= ds.subrange(0, k));
        assert(a.last() == ds[k]);
    } else {
        assert(ds.subrange(0, k) =~= ds);
        lemma_digits_nonneg(ds);
    }
}

proof fn lemma_digits_nonneg(ds: Seq<char>)
    requires
        forall|i: int| 0 <= i < ds.len() ==> is_digit(#[trigger] ds[i]),
    ensures
        digits_value(ds) >= 0,
    decreases ds.len(),
{
    if ds.len() > 0 {
        let d = ds.drop_last();
        assert forall|i: int| 0 <= i < d.len() implies is_digit(#[trigger] d[i]) by {
            assert(d[i] == ds[i]);
        }
        lemma_digits_nonneg(d);
        assert(is_digit(ds[ds.len() - 1]));
    }
}

/// Reads a `u32` as `str::parse` does.
pub fn parse_u32_text(s: &str) -> (r: Option<u32>)
    ensures
        match u32_text_value(s@) {
            Some(v) => r matches Some(n) && n as int == v,
            None => r is None,
        },
{
    let cs = chars_of(s);
    let start: usize = if cs.len() > 0 && cs[0] == '+' {
        1
    } else {
        0
    };
    let ghost body = unsigned_body(s@);
    proof {
        assert(body =~= cs@.subrange(start as int, cs@.len() as int));
    }
    if start >= cs.len() {
        return None;
    }
    let mut i: usize = start;
    while i < cs.len()
        invariant
            start <= i <= cs@.len(),
            cs@ == s@,
            body == unsigned_body(s@),
            body == cs@.subrange(start as int, cs@.len() as int),
            forall|j: int| start <= j < i ==> is_digit(#[trigger] cs@[j]),
        decreases cs.len() - i,
    {
        if !('0' <= cs[i] && cs[i] <= '9') {
            proof {
                assert(body[i - start] == cs@[i as int]);
                assert(!is_digit(body[i - start]));
                assert(!(forall|j: int| 0 <= j < body.len() ==> is_digit(#[trigger] body[j])));
                assert(u32_text_value(s@) is None);
            }
            return None;
        }
        i = i + 1;
    }
    proof {
        assert forall|j: int| 0 <= j < body.len() implies is_digit(#[trigger] body[j]) by {
            assert(body[j] == cs@[start + j]);
        }
    }
    let mut acc: u64 = 0;
    let mut k: usize = start;
    while k < cs.len()
        invariant
            start <= k <= cs@.len(),
            body == unsigned_body(s@),
            body == cs@.subrange(start as int, cs@.len() as int),
            forall|j: int| 0 <= j < body.len() ==> is_digit(#[trigger] body[j]),
            acc == digits_value(body.subrange(0, k - start)),
            acc <= u32::MAX,
        decreases cs.len() - k,
    {
        proof {
            let a = body.subrange(0, k - start + 1);
            assert(a.drop_last() =~= body.subrange(0, k - start));
            assert(a.last() == cs@[k as int]);
            assert(is_digit(body[k - start]));
        }
        let d = (cs[k] as u32 - '0' as u32) as u64;
        acc = acc * 10 + d;
        proof {
            let a = body.subrange(0, k - start + 1);
            assert(body[k - start] == cs@[k as int]);
            assert(acc == digits_value(a));
        }
        if acc > 0xffff_ffff {
            proof {
                lemma_digits_grow(body, k - start + 1);
                assert(digits_value(body) > u32::MAX);
                assert(u32_text_value(s@) is None);
            }
            return None;
        }
        k = k + 1;
    }
    proof {
        assert(body.subrange(0, body.len() as int) =~= body);
    }
    Some(acc as u32)
}

/// A menu entry can be read: its number (trimmed) as a `u32` and its date.
pub open spec fn entry_ok(e: VoteMenuEntry, congress_year: int) -> bool {
    u32_text_value(trim_seq(e.vote_number@)) is Some && index_date_spec(e.vote_date@, congress_year) is Some
}

/// The error for the first menu entry that cannot be read: a bad number is
/// reported before a bad date.
pub open spec fn entry_error(e: SenateSimError, entry: VoteMenuEntry, congress_year: int) -> bool {
    if u32_text_value(trim_seq(entry.vote_number@)) is None {
        e matches SenateSimError::Validation { field, message } && field@ == "senate_vote_index.vote_number"@
            && message@ == "invalid vote number "@ + entry.vote_number@
    } else {
        is_date_error(e, trim_seq(entry.vote_date@))
    }
}

pub open spec fn menu_year(menu: VoteMenu) -> int {
    match menu.congress_year {
        Some(y) => y as int,
        None => 0,
    }
}

pub open spec fn first_bad_entry(menu: VoteMenu, e: SenateSimError) -> bool {
    exists|i: int|
        0 <= i < menu.votes@.len() && !entry_ok(#[trigger] menu.votes@[i], menu_year(menu)) && (forall|k: int|
            0 <= k < i ==> entry_ok(#[trigger] menu.votes@[k], menu_year(menu))) && entry_error(
            e,
            menu.votes@[i],
            menu_year(menu),
        )
}

/// The references of a vote menu, in order; refused at the first entry whose
/// number or date cannot be read (a missing congress year reads as 0).
pub fn vote_index_references(menu: &VoteMenu, congress: u32, session: u32) -> (r: Result<
    Vec<SenateVoteReference>,
    SenateSimError,
>)
    ensures
        r is Ok <==> forall|i: int| 0 <= i < menu.votes@.len() ==> entry_ok(#[trigger] menu.votes@[i], menu_year(*menu)),
        r matches Ok(v) ==> v@.len() == menu.votes@.len() && forall|i: int|
            0 <= i < v@.len() ==> {
                let e = menu.votes@[i];
                &&& (#[trigger] v@[i]).congress == congress
                &&& v@[i].session == session
                &&& u32_text_value(trim_seq(e.vote_number@)) == Some(v@[i].vote_number as int)
                &&& index_date_spec(e.vote_date@, menu_year(*menu)) == Some(v@[i].vote_date.day_number as int)
                &&& v@[i].vote_date.wf()
            },
        r matches Err(e) ==> first_bad_entry(*menu, e),
{
    let year: i32 = match menu.congress_year {
        Some(y) => y,
        None => 0,
    };
    let mut out: Vec<SenateVoteReference> = Vec::new();
    let mut i: usize = 0;
    while i < menu.votes.len()
        invariant
            i <= menu.votes@.len(),
            year == menu_year(*menu),
            out@.len() == i,
            forall|k: int| 0 <= k < i ==> entry_ok(#[trigger] menu.votes@[k], menu_year(*menu)),
            forall|k: int|
                0 <= k < i ==> {
                    let e = menu.votes@[k];
                    &&& (#[trigger] out@[k]).congress == congress
                    &&& out@[k].session == session
                    &&& u32_text_value(trim_seq(e.vote_number@)) == Some(out@[k].vote_number as int)
                    &&& index_date_spec(e.vote_date@, menu_year(*menu)) == Some(out@[k].vote_date.day_number as int)
                    &&& out@[k].vote_date.wf()
                },
        decreases menu.votes.len() - i,
    {
        let entry = &menu.votes[i];
        let number_text = trimmed(entry.vote_number.as_str());
        let number = match parse_u32_text(number_text.as_str()) {
            Some(n) => n,
            None => {
                let mut message = String::from_str("invalid vote number ");
                message.append(entry.vote_number.as_str());
                let e = SenateSimError::Validation { field: String::from_str("senate_vote_index.vote_number"), message };
                proof {
                    assert(!entry_ok(menu.votes@[i as int], menu_year(*menu)));
                    assert(first_bad_entry(*menu, e));
                }
                return Err(e);
            },
        };
        let date = match parse_vote_index_date(entry.vote_date.as_str(), year) {
            Ok(d) => d,
            Err(e) => {
                proof {
                    assert(!entry_ok(menu.votes@[i as int], menu_year(*menu)));
                    assert(first_bad_entry(*menu, e));
                }
                return Err(e);
            },
        };
        proof {
            let v = u32_text_value(trim_seq(entry.vote_number@));
            assert(v is Some);
            assert(v->0 <= u32::MAX);
            assert(v == Some(number as int));
            assert(entry_ok(menu.votes@[i as int], menu_year(*menu)));
        }
        let ghost before = out@;
        out.push(SenateVoteReference { congress, session, vote_number: number, vote_date: date });
        proof {
            assert(out@ == before.push(out@[i as int]));
        }
        i = i + 1;
    }
    Ok(out)
}

/// A vote's title: its title, else its question, else `Senate vote`.
pub open spec fn summary_title(s: VoteSummary) -> Seq<char> {
    match s.vote_title {
        Some(t) => t@,
        None => text_or(s.vote_question, "Senate vote"@),
    }
}

pub open spec fn procedural_category(c: Seq<char>) -> bool {
    c == "Cloture"@ || c == "MotionToProceed"@ || c == "Procedural"@
}

/// The raw record of one member's vote in a summary.
pub open spec fn member_vote_record(
    r: RawVoteRecord,
    s: VoteSummary,
    m: VoteMember,
    vote_day: int,
    run_date: CalendarDate,
    source_url: Seq<char>,
    source_identifier: Seq<char>,
) -> bool {
    let title = summary_title(s);
    &&& r.source_vote_id@ == source_identifier
    &&& r.vote_date.day_number == vote_day
    &&& r.senator_id@ == (match m.lis_member_id {
        Some(id) => id@,
        None => match m.member_id {
            Some(id) => id@,
            None => synthesized_id_spec(m),
        },
    })
    &&& r.senator_name@ == member_name_spec(m)
    &&& opt_text_view(r.object_id) == object_id_spec(s.document_type, s.document_number)
    &&& r.vote_category@ == vote_category_spec(title)
    &&& r.vote_position@ == text_or(m.vote_cast, "Unknown"@)
    &&& member_party_spec(r.party_at_time, text_or(m.party, "Unknown"@))
    &&& r.policy_domain == title_domain_spec(title)
    &&& r.is_procedural == (procedural_kind_spec(title) is Some || procedural_category(vote_category_spec(title)))
    &&& opt_text_view(r.procedural_kind) == procedural_kind_spec(title)
    &&& r.as_of_date == run_date
    &&& r.source_name@ == "senate_votes"@
    &&& r.source_identifier@ == source_identifier
    &&& r.source_url matches Some(u) && u@ == source_url
    &&& r.member_state == m.state
    &&& r.member_last_name == m.last_name
}

/// The raw records of a vote summary, one per member in order; refused when
/// the vote date (empty when missing) cannot be read.
pub fn vote_summary_to_raw(
    summary: &VoteSummary,
    run_date: &CalendarDate,
    source_url: &str,
    source_identifier: &str,
) -> (r: Result<Vec<RawVoteRecord>, SenateSimError>)
    ensures
        match vote_date_spec(text_or_empty(summary.vote_date)) {
            Some(n) => r matches Ok(v) && v@.len() == summary.members@.len() && forall|i: int|
                0 <= i < v@.len() ==> member_vote_record(
                    #[trigger] v@[i],
                    *summary,
                    summary.members@[i],
                    n,
                    *run_date,
                    source_url@,
                    source_identifier@,
                ),
            None => r matches Err(e) && is_date_error(e, text_or_empty(summary.vote_date)),
        },
{
    let date_text: &str = match &summary.vote_date {
        Some(t) => t.as_str(),
        None => {
            proof {
                reveal_strlit("");
            }
            ""
        },
    };
    proof {
        assert(date_text@ == text_or_empty(summary.vote_date));
    }
    let vote_date = match parse_vote_date(date_text) {
        Ok(d) => d,
        Err(e) => {
            return Err(e);
        },
    };
    let title: String = match &summary.vote_title {
        Some(t) => t.clone(),
        None => String::from_str(text_or_default(&summary.vote_question, "Senate vote")),
    };
    let object_id = build_object_id(&summary.document_type, &summary.document_number);
    let vote_category = infer_vote_category(title.as_str());
    let procedural_kind = infer_procedural_kind(title.as_str());
    let is_procedural = procedural_kind.is_some() || same_text_of(&vote_category, "Cloture") || same_text_of(
        &vote_category,
        "MotionToProceed",
    ) || same_text_of(&vote_category, "Procedural");
    let policy_domain = infer_policy_domain_from_text(title.as_str());
    let mut records: Vec<RawVoteRecord> = Vec::new();
    let mut i: usize = 0;
    while i < summary.members.len()
        invariant
            i <= summary.members@.len(),
            vote_date_spec(text_or_empty(summary.vote_date)) == Some(vote_date.day_number as int),
            title@ == summary_title(*summary),
            opt_text_view(object_id) == object_id_spec(summary.document_type, summary.document_number),
            vote_category@ == vote_category_spec(title@),
            opt_text_view(procedural_kind) == procedural_kind_spec(title@),
            is_procedural == (procedural_kind_spec(title@) is Some || procedural_category(vote_category_spec(title@))),
            policy_domain == title_domain_spec(title@),
            records@.len() == i,
            forall|k: int|
                0 <= k < i ==> member_vote_record(
                    #[trigger] records@[k],
                    *summary,
                    summary.members@[k],
                    vote_date.day_number as int,
                    *run_date,
                    source_url@,
                    source_identifier@,
                ),
        decreases summary.members.len() - i,
    {
        let member = &summary.members[i];
        let senator_id = match &member.lis_member_id {
            Some(id) => id.clone(),
            None => match &member.member_id {
                Some(id) => id.clone(),
                None => synthesize_member_id(member),
            },
        };
        let position = String::from_str(text_or_default(&member.vote_cast, "Unknown"));
        let party = member_party(text_or_default(&member.party, "Unknown"));
        let record = RawVoteRecord {
            source_vote_id: String::from_str(source_identifier),
            vote_date: vote_date.copy(),
            senator_id,
            senator_name: build_member_name(member),
            object_id: copy_text_option(&object_id),
            vote_category: vote_category.clone(),
            vote_position: position,
            party_at_time: party,
            policy_domain: match &policy_domain {
                Some(d) => Some(d.copy()),
                None => None,
            },
            is_procedural,
            procedural_kind: copy_text_option(&procedural_kind),
            as_of_date: run_date.copy(),
            source_name: String::from_str("senate_votes"),
            source_identifier: String::from_str(source_identifier),
            source_url: Some(String::from_str(source_url)),
            member_state: copy_text_option(&member.state),
            member_last_name: copy_text_option(&member.last_name),
        };
        records.push(record);
        i = i + 1;
    }
    Ok(records)
}

fn same_text_of(s: &String, t: &str) -> (r: bool)
    ensures
        r == (s@ == t@),
{
    crate::util::order::same_text(s.as_str(), t)
}

} // verus!
