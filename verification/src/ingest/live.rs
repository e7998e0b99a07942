//! Helpers of live ingestion: the congress and session a date falls in,
//! state names as postal codes, and matching vote records to roster members.

use vstd::prelude::*;
use crate::ingest::signal_terms::longer_than;
use crate::model::records::{RawActionRecord, RawLegislativeRecord, RawRosterRecord, RawVoteRecord};
use crate::ingest::normalize::text_or_empty;
use crate::util::calendar::{day_year, CalendarDate};
use crate::eval::timeline::is_index_perm;
use crate::ingest::senate_votes::SenateVoteReference;
use crate::model::error::SenateSimError;
use crate::util::order::{compare_text, lemma_text_order_basics, lemma_text_order_trans, same_text, text_order};
use crate::util::text::{
    chars_of, eq_ignore_case, eq_ignore_case_text, is_ascii_alnum, lower_of, lower_seq, string_of, trim_seq,
    trimmed_chars, upper_of, upper_seq, decimal_digits, decimal_text,
};
use crate::util::tokens::{char_views, pieces, same_counts, same_multiset, split_pieces, Separator};

verus! {

/// The raw records one live ingestion run gathers.
pub struct LiveIngestedRecords {
    pub roster: Vec<RawRosterRecord>,
    pub legislation: Vec<RawLegislativeRecord>,
    pub actions: Vec<RawActionRecord>,
    pub votes: Vec<RawVoteRecord>,
}

/// The number of the Congress sitting in `year`: each Congress spans two
/// years starting with an odd year, the first in 1789. The division rounds
/// toward zero.
pub open spec fn congress_of_year(year: int) -> int {
    let start = if year % 2 == 0 {
        year - 1
    } else {
        year
    };
    let d = start - 1789;
    (if d >= 0 {
        d / 2
    } else {
        -((-d) / 2)
    }) + 1
}

/// The Congress API key a live run uses: the configured key, refused when it
/// is missing or blank.
pub fn require_api_key(key: &Option<String>) -> (r: Result<String, SenateSimError>)
    ensures
        r is Ok <==> (key matches Some(k) && trim_seq(k@).len() > 0),
        r matches Ok(s) ==> (key matches Some(k) && s@ == k@),
        r matches Err(e) ==> (e matches SenateSimError::Validation { field, .. } && field@
            == "ingest.congress_api_key"@),
{
    match key {
        Some(k) => {
            let t = crate::util::text::trimmed(k.as_str());
            if t.as_str().unicode_len() > 0 {
                Ok(String::from_str(k.as_str()))
            } else {
                Err(SenateSimError::validation("ingest.congress_api_key", "live ingestion requires API_KEY_DATA_GOV"))
            }
        },
        None => Err(SenateSimError::validation("ingest.congress_api_key", "live ingestion requires API_KEY_DATA_GOV")),
    }
}

/// The Congress sitting on the date, as `u32` (wrapping for dates before the
/// first Congress).
pub fn infer_congress_number(run_date: &CalendarDate) -> (r: u32)
    ensures
        r == congress_of_year(day_year(run_date.day_number as int)) as u32,
{
    let year = run_date.year() as i64;
    let shifted = (year + 300000) as u64;
    let start: i64 = if shifted % 2 == 0 {
        year - 1
    } else {
        year
    };
    let d = start - 1789;
    let q: i64 = if d >= 0 {
        d / 2
    } else {
        -((-d) / 2)
    };
    (q + 1) as u32
}

/// The session of Congress on the date: 2 in even years, 1 in odd years.
pub fn infer_session_number(run_date: &CalendarDate) -> (r: u32)
    ensures
        r == (if day_year(run_date.day_number as int) % 2 == 0 {
            2u32
        } else {
            1u32
        }),
{
    let year = run_date.year() as i64;
    let shifted = (year + 300000) as u64;
    if shifted % 2 == 0 {
        2
    } else {
        1
    }
}

/// The postal code of a state (or the District of Columbia), by its lowercase
/// name.
pub open spec fn state_code_of(n: Seq<char>) -> Option<Seq<char>> {
    if n == "alabama"@ {
        Some("AL"@)
    } else if n == "alaska"@ {
        Some("AK"@)
    } else if n == "arizona"@ {
        Some("AZ"@)
    } else if n == "arkansas"@ {
        Some("AR"@)
    } else if n == "california"@ {
        Some("CA"@)
    } else if n == "colorado"@ {
        Some("CO"@)
    } else if n == "connecticut"@ {
        Some("CT"@)
    } else if n == "delaware"@ {
        Some("DE"@)
    } else if n == "florida"@ {
        Some("FL"@)
    } else if n == "georgia"@ {
        Some("GA"@)
    } else if n == "hawaii"@ {
        Some("HI"@)
    } else if n == "idaho"@ {
        Some("ID"@)
    } else if n == "illinois"@ {
        Some("IL"@)
    } else if n == "indiana"@ {
        Some("IN"@)
    } else if n == "iowa"@ {
        Some("IA"@)
    } else if n == "kansas"@ {
        Some("KS"@)
    } else if n == "kentucky"@ {
        Some("KY"@)
    } else if n == "louisiana"@ {
        Some("LA"@)
    } else if n == "maine"@ {
        Some("ME"@)
    } else if n == "maryland"@ {
        Some("MD"@)
    } else if n == "massachusetts"@ {
        Some("MA"@)
    } else if n == "michigan"@ {
        Some("MI"@)
    } else if n == "minnesota"@ {
        Some("MN"@)
    } else if n == "mississippi"@ {
        Some("MS"@)
    } else if n == "missouri"@ {
        Some("MO"@)
    } else if n == "montana"@ {
        Some("MT"@)
    } else if n == "nebraska"@ {
        Some("NE"@)
    } else if n == "nevada"@ {
        Some("NV"@)
    } else if n == "new hampshire"@ {
        Some("NH"@)
    } else if n == "new jersey"@ {
        Some("NJ"@)
    } else if n == "new mexico"@ {
        Some("NM"@)
    } else if n == "new york"@ {
        Some("NY"@)
    } else if n == "north carolina"@ {
        Some("NC"@)
    } else if n == "north dakota"@ {
        Some("ND"@)
    } else if n == "ohio"@ {
        Some("OH"@)
    } else if n == "oklahoma"@ {
        Some("OK"@)
    } else if n == "oregon"@ {
        Some("OR"@)
    } else if n == "pennsylvania"@ {
        Some("PA"@)
    } else if n == "rhode island"@ {
        Some("RI"@)
    } else if n == "south carolina"@ {
        Some("SC"@)
    } else if n == "south dakota"@ {
        Some("SD"@)
    } else if n == "tennessee"@ {
        Some("TN"@)
    } else if n == "texas"@ {
        Some("TX"@)
    } else if n == "utah"@ {
        Some("UT"@)
    } else if n == "vermont"@ {
        Some("VT"@)
    } else if n == "virginia"@ {
        Some("VA"@)
    } else if n == "washington"@ {
        Some("WA"@)
    } else if n == "west virginia"@ {
        Some("WV"@)
    } else if n == "wisconsin"@ {
        Some("WI"@)
    } else if n == "wyoming"@ {
        Some("WY"@)
    } else if n == "district of columbia"@ {
        Some("DC"@)
    } else {
        None
    }
}

/// The postal code for a state name, ignoring surrounding whitespace and ASCII
/// case.
pub fn state_name_to_code(value: &str) -> (r: Option<String>)
    ensures
        match state_code_of(lower_seq(trim_seq(value@))) {
            Some(c) => r matches Some(s) && s@ == c,
            None => r is None,
        },
{
    let cs = lower_of(&trimmed_chars(&chars_of(value)));
    let text = string_of(&cs);
    let n = text.as_str();
    let code =     if same_text(n, "alabama") {
        "AL"
    } else if same_text(n, "alaska") {
        "AK"
    } else if same_text(n, "arizona") {
        "AZ"
    } else if same_text(n, "arkansas") {
        "AR"
    } else if same_text(n, "california") {
        "CA"
    } else if same_text(n, "colorado") {
        "CO"
    } else if same_text(n, "connecticut") {
        "CT"
    } else if same_text(n, "delaware") {
        "DE"
    } else if same_text(n, "florida") {
        "FL"
    } else if same_text(n, "georgia") {
        "GA"
    } else if same_text(n, "hawaii") {
        "HI"
    } else if same_text(n, "idaho") {
        "ID"
    } else if same_text(n, "illinois") {
        "IL"
    } else if same_text(n, "indiana") {
        "IN"
    } else if same_text(n, "iowa") {
        "IA"
    } else if same_text(n, "kansas") {
        "KS"
    } else if same_text(n, "kentucky") {
        "KY"
    } else if same_text(n, "louisiana") {
        "LA"
    } else if same_text(n, "maine") {
        "ME"
    } else if same_text(n, "maryland") {
        "MD"
    } else if same_text(n, "massachusetts") {
        "MA"
    } else if same_text(n, "michigan") {
        "MI"
    } else if same_text(n, "minnesota") {
        "MN"
    } else if same_text(n, "mississippi") {
        "MS"
    } else if same_text(n, "missouri") {
        "MO"
    } else if same_text(n, "montana") {
        "MT"
    } else if same_text(n, "nebraska") {
        "NE"
    } else if same_text(n, "nevada") {
        "NV"
    } else if same_text(n, "new hampshire") {
        "NH"
    } else if same_text(n, "new jersey") {
        "NJ"
    } else if same_text(n, "new mexico") {
        "NM"
    } else if same_text(n, "new york") {
        "NY"
    } else if same_text(n, "north carolina") {
        "NC"
    } else if same_text(n, "north dakota") {
        "ND"
    } else if same_text(n, "ohio") {
        "OH"
    } else if same_text(n, "oklahoma") {
        "OK"
    } else if same_text(n, "oregon") {
        "OR"
    } else if same_text(n, "pennsylvania") {
        "PA"
    } else if same_text(n, "rhode island") {
        "RI"
    } else if same_text(n, "south carolina") {
        "SC"
    } else if same_text(n, "south dakota") {
        "SD"
    } else if same_text(n, "tennessee") {
        "TN"
    } else if same_text(n, "texas") {
        "TX"
    } else if same_text(n, "utah") {
        "UT"
    } else if same_text(n, "vermont") {
        "VT"
    } else if same_text(n, "virginia") {
        "VA"
    } else if same_text(n, "washington") {
        "WA"
    } else if same_text(n, "west virginia") {
        "WV"
    } else if same_text(n, "wisconsin") {
        "WI"
    } else if same_text(n, "wyoming") {
        "WY"
    } else if same_text(n, "district of columbia") {
        "DC"
    } else {
        return None;
    };
    Some(String::from_str(code))
}

/// The state code a member's state field gives: a two-byte value uppercased,
/// else the code for a state name, else `XX`.
pub open spec fn state_code_for_spec(state: Seq<char>) -> Seq<char> {
    if vstd::utf8::encode_utf8(state).len() == 2 {
        upper_seq(state)
    } else {
        match state_code_of(lower_seq(trim_seq(state))) {
            Some(c) => c,
            None => "XX"@,
        }
    }
}

pub fn state_code_for(state: &str) -> (r: String)
    ensures
        r@ == state_code_for_spec(state@),
{
    if state.as_bytes().len() == 2 {
        string_of(&upper_of(&chars_of(state)))
    } else {
        match state_name_to_code(state) {
            Some(code) => code,
            None => String::from_str("XX"),
        }
    }
}

pub open spec fn comma_as_space(c: char) -> char {
    if c == ',' {
        ' '
    } else {
        c
    }
}

/// The ASCII letters and digits of a text, in order.
pub open spec fn alnum_only(p: Seq<char>) -> Seq<char>
    decreases p.len(),
{
    if p.len() == 0 {
        Seq::empty()
    } else if is_ascii_alnum(p.last()) {
        alnum_only(p.drop_last()).push(p.last())
    } else {
        alnum_only(p.drop_last())
    }
}

/// The parts of a name: commas read as spaces, lowercased, split at
/// whitespace, each part cut down to its ASCII letters and digits, empty
/// parts dropped.
pub open spec fn name_parts(v: Seq<char>) -> Seq<Seq<char>> {
    longer_than(
        pieces(lower_seq(v.map_values(|c: char| comma_as_space(c))), Separator::Whitespace).map_values(
            |p: Seq<char>| alnum_only(p),
        ),
        0,
    )
}

/// The text before the first comma (all of it when there is none).
pub open spec fn before_comma(v: Seq<char>) -> Seq<char>
    decreases v.len(),
{
    if v.len() == 0 || v[0] == ',' {
        Seq::empty()
    } else {
        seq![v[0]] + before_comma(v.drop_first())
    }
}

/// A roster member is the voter when the ids agree up to ASCII case; or when
/// the names have the same parts and the states agree; or when the roster
/// name's surname (before its comma, trimmed) is the vote's last name and the
/// states agree. A missing state or last name on the vote reads as empty.
pub open spec fn roster_matches(ro: RawRosterRecord, vote: RawVoteRecord) -> bool {
    let st = text_or_empty(vote.member_state);
    ||| eq_ignore_case(ro.source_member_id@, vote.senator_id@)
    ||| same_counts(name_parts(ro.name@), name_parts(vote.senator_name@)) && eq_ignore_case(ro.state@, st)
    ||| eq_ignore_case(trim_seq(before_comma(ro.name@)), text_or_empty(vote.member_last_name))
        && eq_ignore_case(ro.state@, st)
}

/// `j` is the first roster member matching the vote.
pub open spec fn first_match(roster: Seq<RawRosterRecord>, vote: RawVoteRecord, j: int) -> bool {
    &&& 0 <= j < roster.len()
    &&& roster_matches(roster[j], vote)
    &&& forall|k: int| 0 <= k < j ==> !roster_matches(#[trigger] roster[k], vote)
}

pub open spec fn has_match(roster: Seq<RawRosterRecord>, vote: RawVoteRecord) -> bool {
    exists|j: int| #[trigger] first_match(roster, vote, j)
}

/// `out` is the vote with its senator id replaced by the id of the first
/// matching roster member, if any.
pub open spec fn reconciled(out: RawVoteRecord, vote: RawVoteRecord, roster: Seq<RawRosterRecord>) -> bool {
    &&& out == RawVoteRecord { senator_id: out.senator_id, ..vote }
    &&& if has_match(roster, vote) {
        exists|j: int| #[trigger] first_match(roster, vote, j) && out.senator_id@ == roster[j].source_member_id@
    } else {
        out.senator_id == vote.senator_id
    }
}

fn name_part_list(value: &str) -> (r: Vec<Vec<char>>)
    ensures
        char_views(r@) == name_parts(value@),
{
    let cs = chars_of(value);
    let mut spaced: Vec<char> = Vec::new();
    let mut i: usize = 0;
    while i < cs.len()
        invariant
            i <= cs@.len(),
            cs@ == value@,
            spaced@ == lower_seq(cs@.subrange(0, i as int).map_values(|c: char| comma_as_space(c))),
        decreases cs.len() - i,
    {
        let c = if cs[i] == ',' {
            ' '
        } else {
            cs[i]
        };
        spaced.push(crate::util::text::lower_ascii(c));
        proof {
            assert(lower_seq(cs@.subrange(0, i + 1).map_values(|c: char| comma_as_space(c))) =~= lower_seq(
                cs@.subrange(0, i as int).map_values(|c: char| comma_as_space(c)),
            ).push(crate::util::text::lower_char(c)));
        }
        i = i + 1;
    }
    proof {
        assert(cs@.subrange(0, cs@.len() as int) =~= cs@);
    }
    let text = string_of(&spaced);
    let ps = split_pieces(text.as_str(), Separator::Whitespace);
    let ghost pv = char_views(ps@).map_values(|p: Seq<char>| alnum_only(p));
    let mut out: Vec<Vec<char>> = Vec::new();
    let mut j: usize = 0;
    proof {
        assert(pv.subrange(0, 0) =~= Seq::<Seq<char>>::empty());
    }
    while j < ps.len()
        invariant
            j <= ps@.len(),
            pv == char_views(ps@).map_values(|p: Seq<char>| alnum_only(p)),
            char_views(out@) == longer_than(pv.subrange(0, j as int), 0),
        decreases ps.len() - j,
    {
        let part = &ps[j];
        let mut kept: Vec<char> = Vec::new();
        let mut k: usize = 0;
        while k < part.len()
            invariant
                k <= part@.len(),
                kept@ == alnum_only(part@.subrange(0, k as int)),
            decreases part.len() - k,
        {
            proof {
                assert(part@.subrange(0, k + 1).drop_last() =~= part@.subrange(0, k as int));
            }
            if crate::util::text::is_alnum(part[k]) {
                kept.push(part[k]);
            }
            k = k + 1;
        }
        proof {
            assert(part@.subrange(0, part@.len() as int) =~= part@);
            assert(pv.subrange(0, j + 1).drop_last() =~= pv.subrange(0, j as int));
            assert(pv.subrange(0, j + 1).last() == kept@);
        }
        if kept.len() > 0 {
            let ghost before = char_views(out@);
            out.push(kept);
            proof {
                assert(char_views(out@) =~= before.push(pv[j as int]));
            }
        }
        j = j + 1;
    }
    proof {
        assert(pv.subrange(0, pv.len() as int) =~= pv);
    }
    out
}

pub fn before_comma_chars(v: &Vec<char>) -> (r: Vec<char>)
    ensures
        r@ == before_comma(v@),
{
    let mut out: Vec<char> = Vec::new();
    let mut i: usize = 0;
    proof {
        assert(v@.subrange(0, v@.len() as int) =~= v@);
        assert(out@ + before_comma(v@.subrange(0, v@.len() as int)) =~= before_comma(v@));
    }
    while i < v.len() && v[i] != ','
        invariant
            i <= v@.len(),
            out@ == v@.subrange(0, i as int),
            before_comma(v@) == out@ + before_comma(v@.subrange(i as int, v@.len() as int)),
        decreases v.len() - i,
    {
        proof {
            let rest = v@.subrange(i as int, v@.len() as int);
            assert(rest[0] == v@[i as int]);
            assert(rest.drop_first() =~= v@.subrange(i + 1, v@.len() as int));
            assert(out@ + (seq![v@[i as int]] + before_comma(rest.drop_first())) =~= out@.push(v@[i as int])
                + before_comma(v@.subrange(i + 1, v@.len() as int)));
        }
        out.push(v[i]);
        proof {
            assert(out@ =~= v@.subrange(0, i + 1));
        }
        i = i + 1;
    }
    proof {
        let rest = v@.subrange(i as int, v@.len() as int);
        if i < v@.len() {
            assert(rest[0] == v@[i as int]);
        }
        assert(before_comma(rest) =~= Seq::<char>::empty());
        assert(out@ + Seq::<char>::empty() =~= out@);
    }
    out
}

fn option_text(o: &Option<String>) -> (r: &str)
    ensures
        r@ == text_or_empty(*o),
{
    match o {
        Some(s) => s.as_str(),
        None => {
            proof {
                reveal_strlit("");
            }
            ""
        },
    }
}

fn roster_matches_exec(ro: &RawRosterRecord, vote: &RawVoteRecord) -> (r: bool)
    ensures
        r == roster_matches(*ro, *vote),
{
    if eq_ignore_case_text(ro.source_member_id.as_str(), vote.senator_id.as_str()) {
        return true;
    }
    let st = option_text(&vote.member_state);
    if !eq_ignore_case_text(ro.state.as_str(), st) {
        return false;
    }
    let a = name_part_list(ro.name.as_str());
    let b = name_part_list(vote.senator_name.as_str());
    if same_multiset(&a, &b) {
        return true;
    }
    let surname = string_of(&trimmed_chars(&before_comma_chars(&chars_of(ro.name.as_str()))));
    eq_ignore_case_text(surname.as_str(), option_text(&vote.member_last_name))
}

fn find_roster_match(roster: &Vec<RawRosterRecord>, vote: &RawVoteRecord) -> (r: Option<usize>)
    ensures
        match r {
            Some(j) => first_match(roster@, *vote, j as int),
            None => forall|k: int| 0 <= k < roster@.len() ==> !roster_matches(#[trigger] roster@[k], *vote),
        },
{
    let mut j: usize = 0;
    while j < roster.len()
        invariant
            j <= roster@.len(),
            forall|k: int| 0 <= k < j ==> !roster_matches(#[trigger] roster@[k], *vote),
        decreases roster.len() - j,
    {
        if roster_matches_exec(&roster[j], vote) {
            return Some(j);
        }
        j = j + 1;
    }
    None
}

/// Gives each vote the id of the first roster member it matches, in order;
/// votes matching no member keep their id.
pub fn reconcile_vote_member_ids(roster_records: &Vec<RawRosterRecord>, vote_records: Vec<RawVoteRecord>) -> (r: Vec<
    RawVoteRecord,
>)
    ensures
        r@.len() == vote_records@.len(),
        forall|i: int| 0 <= i < r@.len() ==> reconciled(#[trigger] r@[i], vote_records@[i], roster_records@),
{
    let ghost orig = vote_records@;
    let mut rest = vote_records;
    let mut out: Vec<RawVoteRecord> = Vec::new();
    while rest.len() > 0
        invariant
            out@.len() + rest@.len() == orig.len(),
            rest@ == orig.subrange(out@.len() as int, orig.len() as int),
            forall|i: int| 0 <= i < out@.len() ==> reconciled(#[trigger] out@[i], orig[i], roster_records@),
        decreases rest.len(),
    {
        let ghost i = out@.len() as int;
        let mut vote = rest.remove(0);
        proof {
            assert(vote == orig[i]);
            assert(rest@ =~= orig.subrange(i + 1, orig.len() as int));
        }
        let ghost given_vote = vote;
        match find_roster_match(roster_records, &vote) {
            Some(j) => {
                vote.senator_id = roster_records[j].source_member_id.clone();
                proof {
                    assert(first_match(roster_records@, given_vote, j as int));
                }
            },
            None => {
                proof {
                    if has_match(roster_records@, given_vote) {
                        let j = choose|j: int| #[trigger] first_match(roster_records@, given_vote, j);
                        assert(!roster_matches(roster_records@[j], given_vote));
                    }
                }
            },
        }
        out.push(vote);
    }
    out
}

/// A record's sort key: a text and a second text that breaks ties.
pub open spec fn key_views(keys: Seq<(String, String)>) -> Seq<(Seq<char>, Seq<char>)> {
    keys.map_values(|k: (String, String)| (k.0@, k.1@))
}

/// The order records are sorted in: by the first key text, then the second;
/// equal keys keep their input order (a stable sort).
pub open spec fn key_lt(a: (Seq<char>, Seq<char>), ia: int, b: (Seq<char>, Seq<char>), ib: int) -> bool {
    let c1 = text_order(a.0, b.0);
    if c1 != 0 {
        c1 < 0
    } else {
        let c2 = text_order(a.1, b.1);
        if c2 != 0 {
            c2 < 0
        } else {
            ia < ib
        }
    }
}

pub open spec fn key_sorted(keys: Seq<(Seq<char>, Seq<char>)>, p: Seq<usize>) -> bool {
    forall|k1: int, k2: int|
        0 <= k1 < k2 < p.len() ==> #[trigger] key_lt(keys[p[k1] as int], p[k1] as int, keys[p[k2] as int], p[k2] as int)
}

proof fn lemma_key_lt_trans(
    a: (Seq<char>, Seq<char>),
    ia: int,
    b: (Seq<char>, Seq<char>),
    ib: int,
    c: (Seq<char>, Seq<char>),
    ic: int,
)
    requires
        key_lt(a, ia, b, ib),
        key_lt(b, ib, c, ic),
    ensures
        key_lt(a, ia, c, ic),
{
    lemma_text_order_basics(a.0, b.0);
    lemma_text_order_basics(b.0, c.0);
    lemma_text_order_basics(a.0, c.0);
    lemma_text_order_basics(a.1, b.1);
    lemma_text_order_basics(b.1, c.1);
    lemma_text_order_basics(a.1, c.1);
    if text_order(a.0, b.0) <= 0 && text_order(b.0, c.0) <= 0 {
        lemma_text_order_trans(a.0, b.0, c.0);
    }
    if text_order(a.1, b.1) <= 0 && text_order(b.1, c.1) <= 0 {
        lemma_text_order_trans(a.1, b.1, c.1);
    }
}

proof fn lemma_key_lt_total(a: (Seq<char>, Seq<char>), ia: int, b: (Seq<char>, Seq<char>), ib: int)
    requires
        ia != ib,
    ensures
        key_lt(a, ia, b, ib) || key_lt(b, ib, a, ia),
{
    lemma_text_order_basics(a.0, b.0);
    lemma_text_order_basics(a.1, b.1);
}

fn key_before(a: &(String, String), ia: usize, b: &(String, String), ib: usize) -> (r: bool)
    ensures
        r == key_lt((a.0@, a.1@), ia as int, (b.0@, b.1@), ib as int),
{
    let c1 = compare_text(a.0.as_str(), b.0.as_str());
    if c1 != 0 {
        return c1 < 0;
    }
    let c2 = compare_text(a.1.as_str(), b.1.as_str());
    if c2 != 0 {
        return c2 < 0;
    }
    ia < ib
}

/// The input positions of the keys in sorted order.
fn sorted_key_positions(keys: &Vec<(String, String)>) -> (order: Vec<usize>)
    ensures
        is_index_perm(order@, keys@.len() as int),
        key_sorted(key_views(keys@), order@),
{
    let ghost kv = key_views(keys@);
    let mut out: Vec<usize> = Vec::new();
    let mut i: usize = 0;
    while i < keys.len()
        invariant
            kv == key_views(keys@),
            i <= keys@.len(),
            out@.len() == i,
            forall|k: int| 0 <= k < out@.len() ==> out@[k] < i,
            forall|k1: int, k2: int| 0 <= k1 < k2 < out@.len() ==> out@[k1] != out@[k2],
            key_sorted(kv, out@),
        decreases keys.len() - i,
    {
        let mut pos: usize = 0;
        while pos < out.len() && key_before(&keys[out[pos]], out[pos], &keys[i], i)
            invariant
                kv == key_views(keys@),
                i < keys@.len(),
                pos <= out@.len(),
                forall|k: int| 0 <= k < out@.len() ==> out@[k] < i,
                forall|k: int| 0 <= k < pos ==> key_lt(kv[out@[k] as int], out@[k] as int, kv[i as int], i as int),
            decreases out.len() - pos,
        {
            proof {
                assert(kv[out@[pos as int] as int] == (keys@[out@[pos as int] as int].0@, keys@[out@[pos as int] as int].1@));
                assert(kv[i as int] == (keys@[i as int].0@, keys@[i as int].1@));
            }
            pos = pos + 1;
        }
        proof {
            if pos < out@.len() {
                let q = out@[pos as int] as int;
                assert(kv[q] == (keys@[q].0@, keys@[q].1@));
                assert(kv[i as int] == (keys@[i as int].0@, keys@[i as int].1@));
                lemma_key_lt_total(kv[q], q, kv[i as int], i as int);
                assert forall|k: int| pos < k < out@.len() implies key_lt(
                    kv[i as int],
                    i as int,
                    kv[out@[k] as int],
                    out@[k] as int,
                ) by {
                    assert(key_lt(kv[out@[pos as int] as int], out@[pos as int] as int, kv[out@[k] as int], out@[k] as int));
                    lemma_key_lt_trans(kv[i as int], i as int, kv[q], q, kv[out@[k] as int], out@[k] as int);
                }
            }
        }
        let ghost before = out@;
        out.insert(pos, i);
        proof {
            assert(out@ == before.insert(pos as int, i));
            assert forall|k1: int, k2: int| 0 <= k1 < k2 < out@.len() implies #[trigger] key_lt(
                kv[out@[k1] as int],
                out@[k1] as int,
                kv[out@[k2] as int],
                out@[k2] as int,
            ) by {
                if k2 < pos {
                    assert(key_lt(kv[before[k1] as int], before[k1] as int, kv[before[k2] as int], before[k2] as int));
                } else if k2 == pos {
                } else if k1 < pos {
                    assert(key_lt(kv[before[k1] as int], before[k1] as int, kv[before[k2 - 1] as int], before[k2 - 1] as int));
                } else if k1 == pos {
                } else {
                    assert(key_lt(kv[before[k1 - 1] as int], before[k1 - 1] as int, kv[before[k2 - 1] as int], before[k2 - 1] as int));
                }
            }
        }
        i = i + 1;
    }
    out
}

/// `out` holds the records of `input` taken in the order `p`, and `p` sorts
/// their keys.
pub open spec fn arranged<T>(out: Seq<T>, input: Seq<T>, keys: Seq<(Seq<char>, Seq<char>)>, p: Seq<usize>) -> bool {
    &&& keys.len() == input.len()
    &&& is_index_perm(p, input.len() as int)
    &&& key_sorted(keys, p)
    &&& out.len() == p.len()
    &&& forall|k: int| 0 <= k < out.len() ==> out[k] == input[#[trigger] p[k] as int]
}

pub open spec fn stably_sorted<T>(out: Seq<T>, input: Seq<T>, keys: Seq<(Seq<char>, Seq<char>)>) -> bool {
    exists|p: Seq<usize>| #[trigger] arranged(out, input, keys, p)
}

pub open spec fn roster_keys(r: Seq<RawRosterRecord>) -> Seq<(Seq<char>, Seq<char>)> {
    r.map_values(|x: RawRosterRecord| (x.source_member_id@, Seq::<char>::empty()))
}

pub open spec fn legislation_keys(r: Seq<RawLegislativeRecord>) -> Seq<(Seq<char>, Seq<char>)> {
    r.map_values(|x: RawLegislativeRecord| (x.source_object_id@, Seq::<char>::empty()))
}

pub open spec fn vote_keys(r: Seq<RawVoteRecord>) -> Seq<(Seq<char>, Seq<char>)> {
    r.map_values(|x: RawVoteRecord| (x.source_vote_id@, x.senator_id@))
}

/// The roster sorted by member id, stably.
pub fn sort_roster(records: &Vec<RawRosterRecord>) -> (r: Vec<RawRosterRecord>)
    ensures
        stably_sorted(r@, records@, roster_keys(records@)),
{
    let mut keys: Vec<(String, String)> = Vec::new();
    let mut i: usize = 0;
    while i < records.len()
        invariant
            i <= records@.len(),
            keys@.len() == i,
            forall|k: int| 0 <= k < i ==> (#[trigger] key_views(keys@)[k]) == roster_keys(records@)[k],
        decreases records.len() - i,
    {
        proof {
            reveal_strlit("");
        }
        let ghost before = keys@;
        keys.push((records[i].source_member_id.clone(), String::from_str("")));
        proof {
            assert forall|k: int| 0 <= k < i + 1 implies (#[trigger] key_views(keys@)[k]) == roster_keys(records@)[k] by {
                if k < i {
                    assert(keys@[k] == before[k]);
                    assert(key_views(before)[k] == roster_keys(records@)[k]);
                }
            }
        }
        i = i + 1;
    }
    proof {
        assert(key_views(keys@) =~= roster_keys(records@));
    }
    let order = sorted_key_positions(&keys);
    let mut out: Vec<RawRosterRecord> = Vec::new();
    let mut k: usize = 0;
    while k < order.len()
        invariant
            k <= order@.len(),
            is_index_perm(order@, records@.len() as int),
            out@.len() == k,
            forall|j: int| 0 <= j < k ==> out@[j] == records@[#[trigger] order@[j] as int],
        decreases order.len() - k,
    {
        out.push(records[order[k]].copy());
        k = k + 1;
    }
    proof {
        assert(arranged(out@, records@, roster_keys(records@), order@));
    }
    out
}

/// The legislation sorted by object id, stably.
pub fn sort_legislation(records: &Vec<RawLegislativeRecord>) -> (r: Vec<RawLegislativeRecord>)
    ensures
        stably_sorted(r@, records@, legislation_keys(records@)),
{
    let mut keys: Vec<(String, String)> = Vec::new();
    let mut i: usize = 0;
    while i < records.len()
        invariant
            i <= records@.len(),
            keys@.len() == i,
            forall|k: int| 0 <= k < i ==> (#[trigger] key_views(keys@)[k]) == legislation_keys(records@)[k],
        decreases records.len() - i,
    {
        proof {
            reveal_strlit("");
        }
        let ghost before = keys@;
        keys.push((records[i].source_object_id.clone(), String::from_str("")));
        proof {
            assert forall|k: int| 0 <= k < i + 1 implies (#[trigger] key_views(keys@)[k]) == legislation_keys(records@)[k] by {
                if k < i {
                    assert(keys@[k] == before[k]);
                    assert(key_views(before)[k] == legislation_keys(records@)[k]);
                }
            }
        }
        i = i + 1;
    }
    proof {
        assert(key_views(keys@) =~= legislation_keys(records@));
    }
    let order = sorted_key_positions(&keys);
    let mut out: Vec<RawLegislativeRecord> = Vec::new();
    let mut k: usize = 0;
    while k < order.len()
        invariant
            k <= order@.len(),
            is_index_perm(order@, records@.len() as int),
            out@.len() == k,
            forall|j: int| 0 <= j < k ==> out@[j] == records@[#[trigger] order@[j] as int],
        decreases order.len() - k,
    {
        out.push(records[order[k]].copy());
        k = k + 1;
    }
    proof {
        assert(arranged(out@, records@, legislation_keys(records@), order@));
    }
    out
}

/// The votes sorted by vote id, then senator id, stably.
pub fn sort_votes(records: &Vec<RawVoteRecord>) -> (r: Vec<RawVoteRecord>)
    ensures
        stably_sorted(r@, records@, vote_keys(records@)),
{
    let mut keys: Vec<(String, String)> = Vec::new();
    let mut i: usize = 0;
    while i < records.len()
        invariant
            i <= records@.len(),
            keys@.len() == i,
            forall|k: int| 0 <= k < i ==> (#[trigger] key_views(keys@)[k]) == vote_keys(records@)[k],
        decreases records.len() - i,
    {
        let ghost before = keys@;
        keys.push((records[i].source_vote_id.clone(), records[i].senator_id.clone()));
        proof {
            assert forall|k: int| 0 <= k < i + 1 implies (#[trigger] key_views(keys@)[k]) == vote_keys(records@)[k] by {
                if k < i {
                    assert(keys@[k] == before[k]);
                    assert(key_views(before)[k] == vote_keys(records@)[k]);
                }
            }
        }
        i = i + 1;
    }
    proof {
        assert(key_views(keys@) =~= vote_keys(records@));
    }
    let order = sorted_key_positions(&keys);
    let mut out: Vec<RawVoteRecord> = Vec::new();
    let mut k: usize = 0;
    while k < order.len()
        invariant
            k <= order@.len(),
            is_index_perm(order@, records@.len() as int),
            out@.len() == k,
            forall|j: int| 0 <= j < k ==> out@[j] == records@[#[trigger] order@[j] as int],
        decreases order.len() - k,
    {
        out.push(records[order[k]].copy());
        k = k + 1;
    }
    proof {
        assert(arranged(out@, records@, vote_keys(records@), order@));
    }
    out
}

/// The records of a live run as the run keeps them: the roster sorted by
/// member id, the legislation by object id, the votes by vote id and senator
/// id (each stably), and each vote given the id of the first matching member
/// of the sorted roster.
pub open spec fn live_assembled(
    out: LiveIngestedRecords,
    roster: Seq<RawRosterRecord>,
    legislation: Seq<RawLegislativeRecord>,
    actions: Seq<RawActionRecord>,
    votes: Seq<RawVoteRecord>,
) -> bool {
    exists|sorted_votes: Seq<RawVoteRecord>| {
        &&& stably_sorted(out.roster@, roster, roster_keys(roster))
        &&& stably_sorted(out.legislation@, legislation, legislation_keys(legislation))
        &&& out.actions@ == actions
        &&& #[trigger] stably_sorted(sorted_votes, votes, vote_keys(votes))
        &&& out.votes@.len() == sorted_votes.len()
        &&& forall|i: int| 0 <= i < sorted_votes.len() ==> reconciled(#[trigger] out.votes@[i], sorted_votes[i], out.roster@)
    }
}

/// Puts the records of a live run in their kept order and reconciles the vote
/// member ids with the roster.
pub fn assemble_live_records(
    roster: Vec<RawRosterRecord>,
    legislation: Vec<RawLegislativeRecord>,
    actions: Vec<RawActionRecord>,
    votes: Vec<RawVoteRecord>,
) -> (r: LiveIngestedRecords)
    ensures
        live_assembled(r, roster@, legislation@, actions@, votes@),
{
    let sorted_roster = sort_roster(&roster);
    let sorted_legislation = sort_legislation(&legislation);
    let sorted_votes = sort_votes(&votes);
    let ghost sv = sorted_votes@;
    let reconciled_votes = reconcile_vote_member_ids(&sorted_roster, sorted_votes);
    let r = LiveIngestedRecords {
        roster: sorted_roster,
        legislation: sorted_legislation,
        actions,
        votes: reconciled_votes,
    };
    proof {
        assert(stably_sorted(sv, votes@, vote_keys(votes@)));
    }
    r
}

/// The references worth fetching: the first 25 whose vote date is not after
/// the run date, in index order.
pub open spec fn due_references(refs: Seq<SenateVoteReference>, run_date: CalendarDate) -> Seq<SenateVoteReference>
    decreases refs.len(),
{
    if refs.len() == 0 {
        Seq::empty()
    } else if refs.last().vote_date.day_number <= run_date.day_number {
        due_references(refs.drop_last(), run_date).push(refs.last())
    } else {
        due_references(refs.drop_last(), run_date)
    }
}

pub fn votes_to_fetch(index: &Vec<SenateVoteReference>, run_date: &CalendarDate) -> (r: Vec<SenateVoteReference>)
    ensures
        r@.len() == (if due_references(index@, *run_date).len() < 25 {
            due_references(index@, *run_date).len() as int
        } else {
            25
        }),
        forall|k: int| 0 <= k < r@.len() ==> r@[k] == #[trigger] due_references(index@, *run_date)[k],
{
    let mut out: Vec<SenateVoteReference> = Vec::new();
    let mut i: usize = 0;
    proof {
        assert(index@.subrange(0, 0) =~= Seq::<SenateVoteReference>::empty());
    }
    while i < index.len()
        invariant
            i <= index@.len(),
            out@ == due_references(index@.subrange(0, i as int), *run_date),
        decreases index.len() - i,
    {
        proof {
            assert(index@.subrange(0, i + 1).drop_last() =~= index@.subrange(0, i as int));
            assert(index@.subrange(0, i + 1).last() == index@[i as int]);
        }
        let reference = &index[i];
        if reference.vote_date.day_number <= run_date.day_number {
            out.push(
                SenateVoteReference {
                    congress: reference.congress,
                    session: reference.session,
                    vote_number: reference.vote_number,
                    vote_date: reference.vote_date.copy(),
                },
            );
        }
        i = i + 1;
    }
    proof {
        assert(index@.subrange(0, index@.len() as int) =~= index@);
    }
    let ghost all = out@;
    if out.len() > 25 {
        while out.len() > 25
            invariant
                out@.len() >= 25,
                forall|k: int| 0 <= k < out@.len() ==> out@[k] == all[k],
                out@.len() <= all.len(),
            decreases out.len(),
        {
            out.pop();
        }
    }
    out
}

/// A number as decimal digits, padded on the left with zeros to `width`.
pub open spec fn padded_digits(n: nat, width: nat) -> Seq<char> {
    let d = decimal_digits(n);
    if d.len() >= width {
        d
    } else {
        Seq::new((width - d.len()) as nat, |i: int| '0') + d
    }
}

/// The identifier of one roll-call vote: `senate_vote_`, the congress, the
/// session and the vote number padded to five digits, joined by `_`.
pub fn vote_source_identifier(congress: u32, session: u32, vote_number: u32) -> (r: String)
    ensures
        r@ == "senate_vote_"@ + decimal_digits(congress as nat) + "_"@ + decimal_digits(session as nat) + "_"@
            + padded_digits(vote_number as nat, 5),
{
    let mut id = String::from_str("senate_vote_");
    id.append(decimal_text(congress as u128).as_str());
    id.append("_");
    id.append(decimal_text(session as u128).as_str());
    id.append("_");
    let digits = decimal_text(vote_number as u128);
    let n = digits.as_str().unicode_len();
    let ghost d = decimal_digits(vote_number as nat);
    let mut zeros: usize = 0;
    let mut pad = String::new();
    while n + zeros < 5
        invariant
            n == d.len(),
            n + zeros <= 5 || zeros == 0,
            pad@ == Seq::new(zeros as nat, |i: int| '0'),
        decreases 5 - n - zeros,
    {
        pad.append("0");
        proof {
            reveal_strlit("0");
            assert(pad@ =~= Seq::new((zeros + 1) as nat, |i: int| '0'));
        }
        zeros = zeros + 1;
    }
    proof {
        if d.len() >= 5 {
            assert(pad@ =~= Seq::<char>::empty());
        }
        assert(pad@ + d =~= padded_digits(vote_number as nat, 5));
    }
    id.append(pad.as_str());
    id.append(digits.as_str());
    proof {
        assert(id@ =~= "senate_vote_"@ + decimal_digits(congress as nat) + "_"@ + decimal_digits(session as nat)
            + "_"@ + (pad@ + d));
    }
    id
}

/// The start date a term's start year gives: the third of January.
pub fn term_start_date_text(year: &str) -> (r: String)
    ensures
        r@ == year@ + "-01-03"@,
{
    let mut t = String::from_str(year);
    t.append("-01-03");
    t
}

/// The object id of a bill: its type lowercased (`bill` when missing)
/// followed by its number (`0` when missing).
pub open spec fn bill_object_id_spec(bill_type: Option<Seq<char>>, bill_number: Option<Seq<char>>) -> Seq<char> {
    lower_seq(
        match bill_type {
            Some(t) => t,
            None => "bill"@,
        },
    ) + match bill_number {
        Some(n) => n,
        None => "0"@,
    }
}

pub fn bill_object_id(bill_type: Option<&str>, bill_number: Option<&str>) -> (r: String)
    ensures
        r@ == bill_object_id_spec(
            match bill_type {
                Some(t) => Some(t@),
                None => None,
            },
            match bill_number {
                Some(n) => Some(n@),
                None => None,
            },
        ),
{
    let t: &str = match bill_type {
        Some(t) => t,
        None => "bill",
    };
    let mut id = string_of(&crate::util::text::lower_chars(t));
    match bill_number {
        Some(n) => id.append(n),
        None => id.append("0"),
    }
    id
}

/// The chamber an action code names: the House for a code starting with `H`,
/// else (and without a code) the Senate.
pub open spec fn action_chamber_spec(code: Option<Seq<char>>) -> Seq<char> {
    match code {
        Some(c) => if c.len() > 0 && c[0] == 'H' {
            "House"@
        } else {
            "Senate"@
        },
        None => "Senate"@,
    }
}

pub fn action_chamber_text(code: Option<&str>) -> (r: String)
    ensures
        r@ == action_chamber_spec(
            match code {
                Some(c) => Some(c@),
                None => None,
            },
        ),
{
    match code {
        Some(c) => {
            if c.unicode_len() > 0 && c.get_char(0) == 'H' {
                String::from_str("House")
            } else {
                String::from_str("Senate")
            }
        },
        None => String::from_str("Senate"),
    }
}

/// The id given to an action without a code: `action_` and its position.
pub fn fallback_action_id(index: usize) -> (r: String)
    ensures
        r@ == "action_"@ + decimal_digits(index as nat),
{
    let mut id = String::from_str("action_");
    id.append(decimal_text(index as u128).as_str());
    id
}

} // verus!
