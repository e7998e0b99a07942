//! Public-attention signals: classification of raw signal records, the
//! queries that fetch them, and their normalization into attention, tone and
//! top themes.

use vstd::prelude::*;
use crate::derive::stance::take_n;
use crate::model::error::SenateSimError;
use crate::model::legislative::PolicyDomain;
use crate::model::records::{NormalizedLegislativeRecord, NormalizedSenatorRecord};
use crate::model::snapshot::{NormalizedPublicSignalRecord, PublicSignalScope};
use crate::util::calendar::CalendarDate;
use crate::util::score::{clamp_signed, clamp_signed_spec, floor_div};
use crate::util::text::{
    eq_ignore_case, eq_ignore_case_text, is_ascii_alnum, lower_char, lower_chars, lower_of, lower_seq,
    string_of, string_views, underscore_char,
};
use crate::ingest::normalize::copy_text_option;
use crate::ingest::snapshot::{fetched_at_for, fetched_at_spec};
use crate::ingest::signal_terms::{org_list, org_texts, query_theme_list, query_themes, theme_list, theme_texts};
use crate::util::tokens::{char_views, count_texts, dedup_texts, most_frequent, top_texts};

verus! {

/// A JSON field as the logic reads it: missing, a string, or another value.
pub enum JsonText {
    Missing,
    Text(String),
    NotText,
}

/// The fields of one news article the signal logic reads. `tone` is in
/// hundredths of a tone point.
pub struct SignalArticle {
    pub title: JsonText,
    pub source_common_name: JsonText,
    pub domain: JsonText,
    pub source_country: JsonText,
    pub tone: Option<i64>,
}

/// A public-signal record as fetched, with its articles. `fetched_at` is a
/// Unix time in seconds.
pub struct RawPublicSignalRecord {
    pub signal_id: String,
    pub snapshot_date: CalendarDate,
    pub scope: PublicSignalScope,
    pub query: String,
    pub linked_senator_id: Option<String>,
    pub linked_object_id: Option<String>,
    pub policy_domain: Option<PolicyDomain>,
    pub source_name: String,
    pub source_identifier: String,
    pub source_url: Option<String>,
    pub fetched_at: i64,
    pub articles: Vec<SignalArticle>,
}

pub open spec fn scope_spec(v: Seq<char>) -> PublicSignalScope {
    if eq_ignore_case(v, "senator"@) {
        PublicSignalScope::Senator
    } else if eq_ignore_case(v, "legislative_object"@) || eq_ignore_case(v, "object"@) {
        PublicSignalScope::LegislativeObject
    } else if eq_ignore_case(v, "policy_domain"@) || eq_ignore_case(v, "domain"@) {
        PublicSignalScope::PolicyDomain
    } else {
        PublicSignalScope::Mixed
    }
}

/// The scope a label names, ignoring ASCII case; `Mixed` for any other label.
pub fn parse_scope(value: &str) -> (r: PublicSignalScope)
    ensures
        r == scope_spec(value@),
{
    if eq_ignore_case_text(value, "senator") {
        PublicSignalScope::Senator
    } else if eq_ignore_case_text(value, "legislative_object") || eq_ignore_case_text(value, "object") {
        PublicSignalScope::LegislativeObject
    } else if eq_ignore_case_text(value, "policy_domain") || eq_ignore_case_text(value, "domain") {
        PublicSignalScope::PolicyDomain
    } else {
        PublicSignalScope::Mixed
    }
}

/// The policy domain a label names, ignoring ASCII case.
pub open spec fn domain_named(d: PolicyDomain, v: Seq<char>) -> bool {
    if eq_ignore_case(v, "defense"@) {
        d == PolicyDomain::Defense
    } else if eq_ignore_case(v, "budgettax"@) || eq_ignore_case(v, "budget_tax"@) {
        d == PolicyDomain::BudgetTax
    } else if eq_ignore_case(v, "healthcare"@) {
        d == PolicyDomain::Healthcare
    } else if eq_ignore_case(v, "immigration"@) {
        d == PolicyDomain::Immigration
    } else if eq_ignore_case(v, "energyclimate"@) || eq_ignore_case(v, "energy_climate"@) {
        d == PolicyDomain::EnergyClimate
    } else if eq_ignore_case(v, "judiciary"@) {
        d == PolicyDomain::Judiciary
    } else if eq_ignore_case(v, "technology"@) {
        d == PolicyDomain::Technology
    } else if eq_ignore_case(v, "foreignpolicy"@) || eq_ignore_case(v, "foreign_policy"@) {
        d == PolicyDomain::ForeignPolicy
    } else if eq_ignore_case(v, "labor"@) {
        d == PolicyDomain::Labor
    } else if eq_ignore_case(v, "education"@) {
        d == PolicyDomain::Education
    } else {
        d matches PolicyDomain::Other(s) && s@ == v
    }
}

pub fn parse_policy_domain(value: &str) -> (r: PolicyDomain)
    ensures
        domain_named(r, value@),
{
    if eq_ignore_case_text(value, "defense") {
        PolicyDomain::Defense
    } else if eq_ignore_case_text(value, "budgettax") || eq_ignore_case_text(value, "budget_tax") {
        PolicyDomain::BudgetTax
    } else if eq_ignore_case_text(value, "healthcare") {
        PolicyDomain::Healthcare
    } else if eq_ignore_case_text(value, "immigration") {
        PolicyDomain::Immigration
    } else if eq_ignore_case_text(value, "energyclimate") || eq_ignore_case_text(value, "energy_climate") {
        PolicyDomain::EnergyClimate
    } else if eq_ignore_case_text(value, "judiciary") {
        PolicyDomain::Judiciary
    } else if eq_ignore_case_text(value, "technology") {
        PolicyDomain::Technology
    } else if eq_ignore_case_text(value, "foreignpolicy") || eq_ignore_case_text(value, "foreign_policy") {
        PolicyDomain::ForeignPolicy
    } else if eq_ignore_case_text(value, "labor") {
        PolicyDomain::Labor
    } else if eq_ignore_case_text(value, "education") {
        PolicyDomain::Education
    } else {
        PolicyDomain::Other(String::from_str(value))
    }
}

/// Lowercased, every character that is not an ASCII letter or digit replaced
/// by `_` (no trimming).
pub open spec fn key_text(v: Seq<char>) -> Seq<char> {
    lower_seq(v).map_values(|c: char| underscore_char(c))
}

pub fn sanitize_key(value: &str) -> (r: String)
    ensures
        r@ == key_text(value@),
{
    let l = lower_chars(value);
    let mut out: Vec<char> = Vec::new();
    let mut i: usize = 0;
    while i < l.len()
        invariant
            i <= l@.len(),
            out@ == l@.subrange(0, i as int).map_values(|c: char| underscore_char(c)),
        decreases l.len() - i,
    {
        let c = l[i];
        let d = if crate::util::text::is_alnum(c) {
            c
        } else {
            '_'
        };
        out.push(d);
        proof {
            assert(l@.subrange(0, i + 1).map_values(|c: char| underscore_char(c)) =~= l@.subrange(
                0,
                i as int,
            ).map_values(|c: char| underscore_char(c)).push(underscore_char(c)));
        }
        i = i + 1;
    }
    proof {
        assert(l@.subrange(0, l@.len() as int) =~= l@);
    }
    string_of(&out)
}

pub open spec fn domain_query_text(d: PolicyDomain) -> Seq<char> {
    match d {
        PolicyDomain::Defense => "defense OR pentagon"@,
        PolicyDomain::BudgetTax => "budget OR tax OR spending"@,
        PolicyDomain::Healthcare => "healthcare OR hospital OR medicare"@,
        PolicyDomain::Immigration => "immigration OR border"@,
        PolicyDomain::EnergyClimate => "energy OR climate OR permitting"@,
        PolicyDomain::Judiciary => "judiciary OR court OR judge"@,
        PolicyDomain::Technology => "technology OR privacy OR ai"@,
        PolicyDomain::ForeignPolicy => "foreign policy OR diplomacy"@,
        PolicyDomain::Labor => "labor OR workers OR union"@,
        PolicyDomain::Education => "education OR schools"@,
        PolicyDomain::Other(v) => v@,
    }
}

/// The news query for a policy domain.
pub fn domain_query(domain: &PolicyDomain) -> (r: String)
    ensures
        r@ == domain_query_text(*domain),
{
    match domain {
        PolicyDomain::Defense => String::from_str("defense OR pentagon"),
        PolicyDomain::BudgetTax => String::from_str("budget OR tax OR spending"),
        PolicyDomain::Healthcare => String::from_str("healthcare OR hospital OR medicare"),
        PolicyDomain::Immigration => String::from_str("immigration OR border"),
        PolicyDomain::EnergyClimate => String::from_str("energy OR climate OR permitting"),
        PolicyDomain::Judiciary => String::from_str("judiciary OR court OR judge"),
        PolicyDomain::Technology => String::from_str("technology OR privacy OR ai"),
        PolicyDomain::ForeignPolicy => String::from_str("foreign policy OR diplomacy"),
        PolicyDomain::Labor => String::from_str("labor OR workers OR union"),
        PolicyDomain::Education => String::from_str("education OR schools"),
        PolicyDomain::Other(value) => value.clone(),
    }
}

/// The news query for a senator: the quoted full name and the state.
pub fn senator_query(senator: &NormalizedSenatorRecord) -> (r: String)
    ensures
        r@ == "\""@ + senator.full_name@ + "\" AND "@ + senator.state@,
{
    let mut q = String::from_str("\"");
    q.append(senator.full_name.as_str());
    q.append("\" AND ");
    q.append(senator.state.as_str());
    q
}

/// The news query for a legislative object: the quoted title or the id.
pub fn object_query(object: &NormalizedLegislativeRecord) -> (r: String)
    ensures
        r@ == "\""@ + object.title@ + "\" OR "@ + object.object_id@,
{
    let mut q = String::from_str("\"");
    q.append(object.title.as_str());
    q.append("\" OR ");
    q.append(object.object_id.as_str());
    q
}

/// The source an article is counted under: its source name when that field
/// is present, else its domain; only string values count.
pub open spec fn source_key(a: SignalArticle) -> Option<Seq<char>> {
    match a.source_common_name {
        JsonText::Text(s) => Some(s@),
        JsonText::NotText => None,
        JsonText::Missing => match a.domain {
            JsonText::Text(s) => Some(s@),
            _ => None,
        },
    }
}

pub open spec fn source_keys(arts: Seq<SignalArticle>) -> Seq<Seq<char>>
    decreases arts.len(),
{
    if arts.len() == 0 {
        Seq::empty()
    } else {
        match source_key(arts.last()) {
            Some(k) => source_keys(arts.drop_last()).push(k),
            None => source_keys(arts.drop_last()),
        }
    }
}

/// The number of distinct sources; none when no article names one.
pub open spec fn unique_sources_spec(arts: Seq<SignalArticle>) -> Option<u32> {
    let n = dedup_texts(source_keys(arts)).len();
    if n == 0 {
        None
    } else {
        Some(n as u32)
    }
}

fn text_chars(t: &String) -> (r: Vec<char>)
    ensures
        r@ == t@,
{
    crate::util::text::chars_of(t.as_str())
}

fn source_key_list(articles: &Vec<SignalArticle>) -> (r: Vec<Vec<char>>)
    ensures
        char_views(r@) == source_keys(articles@),
        r@.len() <= articles@.len(),
{
    let mut out: Vec<Vec<char>> = Vec::new();
    let mut i: usize = 0;
    proof {
        assert(articles@.subrange(0, 0) =~= Seq::<SignalArticle>::empty());
    }
    while i < articles.len()
        invariant
            i <= articles@.len(),
            char_views(out@) == source_keys(articles@.subrange(0, i as int)),
            out@.len() <= i,
        decreases articles.len() - i,
    {
        proof {
            assert(articles@.subrange(0, i + 1).drop_last() =~= articles@.subrange(0, i as int));
        }
        let a = &articles[i];
        let key: Option<Vec<char>> = match &a.source_common_name {
            JsonText::Text(s) => Some(text_chars(s)),
            JsonText::NotText => None,
            JsonText::Missing => match &a.domain {
                JsonText::Text(s) => Some(text_chars(s)),
                _ => None,
            },
        };
        match key {
            Some(k) => {
                let ghost before = char_views(out@);
                out.push(k);
                proof {
                    assert(char_views(out@) =~= before.push(k@));
                }
            },
            None => {},
        }
        i = i + 1;
    }
    proof {
        assert(articles@.subrange(0, articles@.len() as int) =~= articles@);
    }
    out
}

/// The number of distinct sources among the articles, if any.
pub fn unique_source_count(articles: &Vec<SignalArticle>) -> (r: Option<u32>)
    requires
        articles@.len() <= u32::MAX,
    ensures
        r == unique_sources_spec(articles@),
{
    let keys = source_key_list(articles);
    let counts = count_texts(&keys);
    if counts.len() == 0 {
        None
    } else {
        Some(counts.len() as u32)
    }
}

pub open spec fn tones(arts: Seq<SignalArticle>) -> Seq<i64>
    decreases arts.len(),
{
    if arts.len() == 0 {
        Seq::empty()
    } else {
        match arts.last().tone {
            Some(t) => tones(arts.drop_last()).push(t),
            None => tones(arts.drop_last()),
        }
    }
}

pub open spec fn sum_i64(s: Seq<i64>) -> int
    decreases s.len(),
{
    if s.len() == 0 {
        0
    } else {
        sum_i64(s.drop_last()) + s.last()
    }
}

/// The mean tone divided by 100, clamped to [-1, 1], rounded down (signed,
/// ten-thousandths); none without tones.
pub open spec fn average_tone_spec(arts: Seq<SignalArticle>) -> Option<int> {
    let ts = tones(arts);
    if ts.len() == 0 {
        None
    } else {
        Some(clamp_signed_spec(sum_i64(ts) / (ts.len() as int)))
    }
}

pub fn average_tone(articles: &Vec<SignalArticle>) -> (r: Option<i64>)
    requires
        articles@.len() <= u32::MAX,
    ensures
        crate::util::score::opt_score(r) == average_tone_spec(articles@),
{
    let mut sum: i128 = 0;
    let mut count: usize = 0;
    let mut i: usize = 0;
    proof {
        assert(articles@.subrange(0, 0) =~= Seq::<SignalArticle>::empty());
    }
    while i < articles.len()
        invariant
            i <= articles@.len(),
            count == tones(articles@.subrange(0, i as int)).len(),
            sum == sum_i64(tones(articles@.subrange(0, i as int))),
            count <= i,
            articles@.len() <= u32::MAX,
            -0x8000_0000_0000_0000 * count <= sum <= 0x7fff_ffff_ffff_ffff * count,
        decreases articles.len() - i,
    {
        proof {
            assert(articles@.subrange(0, i + 1).drop_last() =~= articles@.subrange(0, i as int));
        }
        match articles[i].tone {
            Some(t) => {
                proof {
                    let ts = tones(articles@.subrange(0, i as int));
                    assert(articles@.subrange(0, i + 1).last() == articles@[i as int]);
                    assert(tones(articles@.subrange(0, i + 1)) == ts.push(t));
                    assert(ts.push(t).drop_last() =~= ts);
                    assert(-0x8000_0000_0000_0000 * (count + 1) <= sum + t <= 0x7fff_ffff_ffff_ffff * (count + 1)) by (nonlinear_arith)
                        requires
                            -0x8000_0000_0000_0000 * count <= sum <= 0x7fff_ffff_ffff_ffff * count,
                            -0x8000_0000_0000_0000 <= t <= 0x7fff_ffff_ffff_ffff,
                    ;
                    assert(-0x8000_0000_0000_0000 * 0xffff_ffff <= sum + t <= 0x7fff_ffff_ffff_ffff * 0xffff_ffff) by (nonlinear_arith)
                        requires
                            -0x8000_0000_0000_0000 * (count + 1) <= sum + t <= 0x7fff_ffff_ffff_ffff * (count + 1),
                            count + 1 <= 0xffff_ffff,
                            0 <= count,
                    ;
                }
                sum = sum + t as i128;
                count = count + 1;
            },
            None => {
                proof {
                    assert(articles@.subrange(0, i + 1).last() == articles@[i as int]);
                }
            },
        }
        i = i + 1;
    }
    proof {
        assert(articles@.subrange(0, articles@.len() as int) =~= articles@);
    }
    if count == 0 {
        None
    } else {
        let q = floor_div(sum, count as i128);
        proof {
            assert(-0x8000_0000_0000_0000 <= (sum as int) / (count as int) <= 0x7fff_ffff_ffff_ffff) by (nonlinear_arith)
                requires
                    -0x8000_0000_0000_0000 * count <= sum <= 0x7fff_ffff_ffff_ffff * count,
                    count > 0,
            ;
            assert(-0x8000_0000_0000_0000 * 0xffff_ffff <= sum <= 0x7fff_ffff_ffff_ffff * 0xffff_ffff) by (nonlinear_arith)
                requires
                    -0x8000_0000_0000_0000 * count <= sum <= 0x7fff_ffff_ffff_ffff * count,
                    0 < count <= 0xffff_ffff,
            ;
        }
        Some(clamp_signed(q as i64))
    }
}

/// The persons a record names: its linked senator, if any.
pub open spec fn persons_of(linked: Option<String>) -> Seq<Seq<char>> {
    match linked {
        Some(id) => seq![id@],
        None => Seq::empty(),
    }
}

/// The themes, persons and organizations a raw record is summarised by: the
/// three most frequent title themes (or, without any, the query's first
/// words), the linked senator, and the three most frequent source texts.
pub open spec fn metadata_of(
    themes: Seq<Seq<char>>,
    persons: Seq<Seq<char>>,
    orgs: Seq<Seq<char>>,
    raw: RawPublicSignalRecord,
) -> bool {
    let tt = theme_texts(raw.articles@);
    &&& (if tt.len() == 0 {
        themes == query_themes(raw.query@)
    } else {
        most_frequent(themes, tt)
    })
    &&& persons == persons_of(raw.linked_senator_id)
    &&& most_frequent(orgs, org_texts(raw.articles@))
}

/// The article counts fit the `u32` counters the summary is built with.
pub open spec fn articles_fit(raw: RawPublicSignalRecord) -> bool {
    raw.articles@.len() * 6 <= u32::MAX
}

pub fn extract_signal_metadata(raw_record: &RawPublicSignalRecord) -> (r: (Vec<String>, Vec<String>, Vec<String>))
    requires
        articles_fit(*raw_record),
    ensures
        metadata_of(string_views(r.0@), string_views(r.1@), string_views(r.2@), *raw_record),
{
    let themes = theme_list(&raw_record.articles);
    let top_themes = if themes.len() == 0 {
        query_theme_list(raw_record.query.as_str())
    } else {
        top_texts(&themes)
    };
    let mut persons: Vec<String> = Vec::new();
    match &raw_record.linked_senator_id {
        Some(id) => {
            persons.push(id.clone());
            proof {
                assert(string_views(persons@) =~= seq![id@]);
            }
        },
        None => {
            proof {
                assert(string_views(persons@) =~= Seq::<Seq<char>>::empty());
            }
        },
    }
    let orgs = org_list(&raw_record.articles);
    let top_orgs = top_texts(&orgs);
    (top_themes, persons, top_orgs)
}

/// Attention in ten-thousandths: a tenth per mention and a twentieth per
/// distinct source, at most one.
pub open spec fn attention_spec(mentions: int, sources: Option<u32>) -> int {
    let raw = mentions * 1000 + match sources {
        Some(n) => n * 500,
        None => 0,
    };
    if raw > 10000 {
        10000
    } else {
        raw
    }
}

/// What normalizing a raw record gives.
pub open spec fn signal_normalized(n: NormalizedPublicSignalRecord, raw: RawPublicSignalRecord) -> bool {
    let sources = unique_sources_spec(raw.articles@);
    &&& n.snapshot_date == raw.snapshot_date
    &&& n.signal_id == raw.signal_id
    &&& n.signal_scope == raw.scope
    &&& n.linked_senator_id == raw.linked_senator_id
    &&& n.linked_object_id == raw.linked_object_id
    &&& n.policy_domain == raw.policy_domain
    &&& n.mention_count == raw.articles@.len()
    &&& n.source_count == sources
    &&& n.attention_score == attention_spec(raw.articles@.len() as int, sources)
    &&& crate::util::score::opt_score(n.tone_score) == average_tone_spec(raw.articles@)
    &&& metadata_of(
        string_views(n.top_themes@),
        string_views(n.top_persons@),
        string_views(n.top_organizations@),
        raw,
    )
}

/// Normalizes one raw record; it is refused exactly when its id is empty.
pub fn normalize_public_signal_record(raw_record: &RawPublicSignalRecord) -> (r: Result<
    NormalizedPublicSignalRecord,
    SenateSimError,
>)
    requires
        articles_fit(*raw_record),
    ensures
        r is Ok <==> raw_record.signal_id@.len() > 0,
        r matches Ok(n) ==> signal_normalized(n, *raw_record) && n.wf(),
{
    let articles = &raw_record.articles;
    let mention_count = articles.len() as u32;
    let source_count = unique_source_count(articles);
    let source_part: u64 = match source_count {
        Some(n) => n as u64 * 500,
        None => 0,
    };
    let raw_attention: u64 = mention_count as u64 * 1000 + source_part;
    let attention_score: i64 = if raw_attention > 10000 {
        10000
    } else {
        raw_attention as i64
    };
    let tone_score = average_tone(articles);
    let (top_themes, top_persons, top_organizations) = extract_signal_metadata(raw_record);
    let record = NormalizedPublicSignalRecord {
        snapshot_date: raw_record.snapshot_date.copy(),
        signal_id: raw_record.signal_id.clone(),
        signal_scope: raw_record.scope,
        linked_senator_id: copy_text_option(&raw_record.linked_senator_id),
        linked_object_id: copy_text_option(&raw_record.linked_object_id),
        policy_domain: match &raw_record.policy_domain {
            Some(d) => Some(d.copy()),
            None => None,
        },
        mention_count,
        attention_score,
        tone_score,
        source_count,
        top_themes,
        top_persons,
        top_organizations,
    };
    match record.validate() {
        Ok(()) => Ok(record),
        Err(e) => Err(e),
    }
}

/// Normalizes every raw record, in order; refused when any id is empty.
pub fn normalize_public_signals(raw_records: &Vec<RawPublicSignalRecord>) -> (r: Result<
    Vec<NormalizedPublicSignalRecord>,
    SenateSimError,
>)
    requires
        forall|i: int| 0 <= i < raw_records@.len() ==> articles_fit(#[trigger] raw_records@[i]),
    ensures
        r is Ok <==> forall|i: int| 0 <= i < raw_records@.len() ==> (#[trigger] raw_records@[i]).signal_id@.len() > 0,
        r matches Ok(v) ==> v@.len() == raw_records@.len() && forall|i: int|
            0 <= i < v@.len() ==> signal_normalized(#[trigger] v@[i], raw_records@[i]) && v@[i].wf(),
{
    let mut out: Vec<NormalizedPublicSignalRecord> = Vec::new();
    let mut i: usize = 0;
    while i < raw_records.len()
        invariant
            i <= raw_records@.len(),
            forall|k: int| 0 <= k < raw_records@.len() ==> articles_fit(#[trigger] raw_records@[k]),
            forall|k: int| 0 <= k < i ==> (#[trigger] raw_records@[k]).signal_id@.len() > 0,
            out@.len() == i,
            forall|k: int| 0 <= k < i ==> signal_normalized(#[trigger] out@[k], raw_records@[k]) && out@[k].wf(),
        decreases raw_records.len() - i,
    {
        match normalize_public_signal_record(&raw_records[i]) {
            Ok(n) => out.push(n),
            Err(e) => {
                return Err(e);
            },
        }
        i = i + 1;
    }
    Ok(out)
}

/// One news query of a live run, with what its record links to.
pub struct SignalQuery {
    pub scope: PublicSignalScope,
    pub signal_id: String,
    pub query: String,
    pub linked_senator_id: Option<String>,
    pub linked_object_id: Option<String>,
    pub policy_domain: Option<PolicyDomain>,
}

/// The name a policy domain is written with in signal ids.
pub open spec fn domain_name(d: PolicyDomain) -> Seq<char> {
    match d {
        PolicyDomain::Defense => "Defense"@,
        PolicyDomain::BudgetTax => "BudgetTax"@,
        PolicyDomain::Healthcare => "Healthcare"@,
        PolicyDomain::Immigration => "Immigration"@,
        PolicyDomain::EnergyClimate => "EnergyClimate"@,
        PolicyDomain::Judiciary => "Judiciary"@,
        PolicyDomain::Technology => "Technology"@,
        PolicyDomain::ForeignPolicy => "ForeignPolicy"@,
        PolicyDomain::Labor => "Labor"@,
        PolicyDomain::Education => "Education"@,
        PolicyDomain::Other(s) => s@,
    }
}

fn domain_name_text(d: &PolicyDomain) -> (r: String)
    ensures
        r@ == domain_name(*d),
{
    match d {
        PolicyDomain::Defense => String::from_str("Defense"),
        PolicyDomain::BudgetTax => String::from_str("BudgetTax"),
        PolicyDomain::Healthcare => String::from_str("Healthcare"),
        PolicyDomain::Immigration => String::from_str("Immigration"),
        PolicyDomain::EnergyClimate => String::from_str("EnergyClimate"),
        PolicyDomain::Judiciary => String::from_str("Judiciary"),
        PolicyDomain::Technology => String::from_str("Technology"),
        PolicyDomain::ForeignPolicy => String::from_str("ForeignPolicy"),
        PolicyDomain::Labor => String::from_str("Labor"),
        PolicyDomain::Education => String::from_str("Education"),
        PolicyDomain::Other(s) => s.clone(),
    }
}

pub open spec fn object_query_entry(q: SignalQuery, o: NormalizedLegislativeRecord) -> bool {
    &&& q.scope == PublicSignalScope::LegislativeObject
    &&& q.signal_id@ == "gdelt_object_"@ + o.object_id@
    &&& q.query@ == "\""@ + o.title@ + "\" OR "@ + o.object_id@
    &&& q.linked_senator_id is None
    &&& q.linked_object_id matches Some(id) && id@ == o.object_id@
    &&& q.policy_domain == Some(o.policy_domain)
}

pub open spec fn senator_query_entry(q: SignalQuery, s: NormalizedSenatorRecord) -> bool {
    &&& q.scope == PublicSignalScope::Senator
    &&& q.signal_id@ == "gdelt_senator_"@ + s.senator_id@
    &&& q.query@ == "\""@ + s.full_name@ + "\" AND "@ + s.state@
    &&& q.linked_senator_id matches Some(id) && id@ == s.senator_id@
    &&& q.linked_object_id is None
    &&& q.policy_domain is None
}

pub open spec fn domain_query_entry(q: SignalQuery, d: PolicyDomain) -> bool {
    &&& q.scope == PublicSignalScope::PolicyDomain
    &&& q.signal_id@ == "gdelt_domain_"@ + key_text(domain_name(d))
    &&& q.query@ == domain_query_text(d)
    &&& q.linked_senator_id is None
    &&& q.linked_object_id is None
    &&& q.policy_domain == Some(d)
}

pub open spec fn has_domain(ds: Seq<PolicyDomain>, d: PolicyDomain) -> bool {
    exists|i: int| 0 <= i < ds.len() && (#[trigger] ds[i]).same_spec(d)
}

/// The objects' policy domains, each once, in order of first appearance.
pub open spec fn first_domains(objs: Seq<NormalizedLegislativeRecord>) -> Seq<PolicyDomain>
    decreases objs.len(),
{
    if objs.len() == 0 {
        Seq::empty()
    } else {
        let ds = first_domains(objs.drop_last());
        if has_domain(ds, objs.last().policy_domain) {
            ds
        } else {
            ds.push(objs.last().policy_domain)
        }
    }
}

pub open spec fn capped(n: int, limit: int) -> int {
    if n < limit {
        n
    } else {
        limit
    }
}

/// The queries of a live run, in order: one per object and one per senator
/// (the first `limit` of each, `limit` at least one), then one per distinct
/// policy domain of the objects (the first `limit` of them).
pub open spec fn query_plan(
    plan: Seq<SignalQuery>,
    objs: Seq<NormalizedLegislativeRecord>,
    sens: Seq<NormalizedSenatorRecord>,
    query_limit: usize,
) -> bool {
    let limit = if query_limit < 1 {
        1
    } else {
        query_limit as int
    };
    let no = capped(objs.len() as int, limit);
    let ns = capped(sens.len() as int, limit);
    let ds = first_domains(objs);
    let nd = capped(ds.len() as int, limit);
    &&& plan.len() == no + ns + nd
    &&& forall|k: int| 0 <= k < no ==> object_query_entry(#[trigger] plan[k], objs[k])
    &&& forall|k: int| 0 <= k < ns ==> senator_query_entry(#[trigger] plan[no + k], sens[k])
    &&& forall|k: int| 0 <= k < nd ==> domain_query_entry(#[trigger] plan[no + ns + k], ds[k])
}

fn object_signal_query(o: &NormalizedLegislativeRecord) -> (q: SignalQuery)
    ensures
        object_query_entry(q, *o),
{
    let mut id = String::from_str("gdelt_object_");
    id.append(o.object_id.as_str());
    proof {
        reveal_strlit("gdelt_object_");
    }
    SignalQuery {
        scope: PublicSignalScope::LegislativeObject,
        signal_id: id,
        query: object_query(o),
        linked_senator_id: None,
        linked_object_id: Some(o.object_id.clone()),
        policy_domain: Some(o.policy_domain.copy()),
    }
}

fn senator_signal_query(s: &NormalizedSenatorRecord) -> (q: SignalQuery)
    ensures
        senator_query_entry(q, *s),
{
    let mut id = String::from_str("gdelt_senator_");
    id.append(s.senator_id.as_str());
    SignalQuery {
        scope: PublicSignalScope::Senator,
        signal_id: id,
        query: senator_query(s),
        linked_senator_id: Some(s.senator_id.clone()),
        linked_object_id: None,
        policy_domain: None,
    }
}

fn domain_signal_query(d: &PolicyDomain) -> (q: SignalQuery)
    ensures
        domain_query_entry(q, *d),
{
    let mut id = String::from_str("gdelt_domain_");
    id.append(sanitize_key(domain_name_text(d).as_str()).as_str());
    SignalQuery {
        scope: PublicSignalScope::PolicyDomain,
        signal_id: id,
        query: domain_query(d),
        linked_senator_id: None,
        linked_object_id: None,
        policy_domain: Some(d.copy()),
    }
}

fn distinct_domains(objs: &Vec<NormalizedLegislativeRecord>) -> (r: Vec<PolicyDomain>)
    ensures
        r@ == first_domains(objs@),
{
    let mut out: Vec<PolicyDomain> = Vec::new();
    let mut i: usize = 0;
    proof {
        assert(objs@.subrange(0, 0) =~= Seq::<NormalizedLegislativeRecord>::empty());
    }
    while i < objs.len()
        invariant
            i <= objs@.len(),
            out@ == first_domains(objs@.subrange(0, i as int)),
        decreases objs.len() - i,
    {
        proof {
            assert(objs@.subrange(0, i + 1).drop_last() =~= objs@.subrange(0, i as int));
            assert(objs@.subrange(0, i + 1).last() == objs@[i as int]);
        }
        let d = &objs[i].policy_domain;
        let mut seen = false;
        let mut k: usize = 0;
        while k < out.len()
            invariant
                k <= out@.len(),
                seen == exists|j: int| 0 <= j < k && (#[trigger] out@[j]).same_spec(*d),
            decreases out.len() - k,
        {
            if out[k].same(d) {
                seen = true;
            }
            k = k + 1;
        }
        if !seen {
            out.push(d.copy());
        }
        i = i + 1;
    }
    proof {
        assert(objs@.subrange(0, objs@.len() as int) =~= objs@);
    }
    out
}

/// The queries a live run makes, in the order it makes them.
pub fn public_signal_query_plan(
    legislative_records: &Vec<NormalizedLegislativeRecord>,
    roster_records: &Vec<NormalizedSenatorRecord>,
    query_limit: usize,
) -> (r: Vec<SignalQuery>)
    ensures
        query_plan(r@, legislative_records@, roster_records@, query_limit),
{
    let limit: usize = if query_limit < 1 {
        1
    } else {
        query_limit
    };
    let mut plan: Vec<SignalQuery> = Vec::new();
    let no: usize = if legislative_records.len() < limit {
        legislative_records.len()
    } else {
        limit
    };
    let mut k: usize = 0;
    while k < no
        invariant
            k <= no <= legislative_records@.len(),
            plan@.len() == k,
            forall|j: int| 0 <= j < k ==> object_query_entry(#[trigger] plan@[j], legislative_records@[j]),
        decreases no - k,
    {
        plan.push(object_signal_query(&legislative_records[k]));
        k = k + 1;
    }
    let ns: usize = if roster_records.len() < limit {
        roster_records.len()
    } else {
        limit
    };
    let mut k: usize = 0;
    while k < ns
        invariant
            k <= ns <= roster_records@.len(),
            plan@.len() == no + k,
            forall|j: int| 0 <= j < no ==> object_query_entry(#[trigger] plan@[j], legislative_records@[j]),
            forall|j: int| 0 <= j < k ==> senator_query_entry(#[trigger] plan@[no + j], roster_records@[j]),
        decreases ns - k,
    {
        plan.push(senator_signal_query(&roster_records[k]));
        k = k + 1;
    }
    let domains = distinct_domains(legislative_records);
    let nd: usize = if domains.len() < limit {
        domains.len()
    } else {
        limit
    };
    let mut k: usize = 0;
    while k < nd
        invariant
            k <= nd <= domains@.len(),
            domains@ == first_domains(legislative_records@),
            plan@.len() == no + ns + k,
            forall|j: int| 0 <= j < no ==> object_query_entry(#[trigger] plan@[j], legislative_records@[j]),
            forall|j: int| 0 <= j < ns ==> senator_query_entry(#[trigger] plan@[no + j], roster_records@[j]),
            forall|j: int| 0 <= j < k ==> domain_query_entry(#[trigger] plan@[no + ns + j], domains@[j]),
        decreases nd - k,
    {
        plan.push(domain_signal_query(&domains[k]));
        k = k + 1;
    }
    plan
}

/// The raw record of one query's answer, fetched for a snapshot date.
pub fn raw_record_from_query(
    query: SignalQuery,
    snapshot_date: &CalendarDate,
    source_url: Option<String>,
    articles: Vec<SignalArticle>,
) -> (r: RawPublicSignalRecord)
    requires
        snapshot_date.wf(),
    ensures
        r.signal_id == query.signal_id,
        r.snapshot_date == *snapshot_date,
        r.scope == query.scope,
        r.query == query.query,
        r.linked_senator_id == query.linked_senator_id,
        r.linked_object_id == query.linked_object_id,
        r.policy_domain == query.policy_domain,
        r.source_name@ == "gdelt"@,
        r.source_identifier == query.signal_id,
        r.source_url == source_url,
        r.fetched_at == fetched_at_spec(snapshot_date.day_number as int),
        r.articles == articles,
{
    let id = query.signal_id.clone();
    RawPublicSignalRecord {
        signal_id: query.signal_id,
        snapshot_date: snapshot_date.copy(),
        scope: query.scope,
        query: query.query,
        linked_senator_id: query.linked_senator_id,
        linked_object_id: query.linked_object_id,
        policy_domain: query.policy_domain,
        source_name: String::from_str("gdelt"),
        source_identifier: id,
        source_url,
        fetched_at: fetched_at_for(snapshot_date),
        articles,
    }
}

/// A saved signal record's fields, those that are texts; missing ones take
/// their defaults: id `gdelt_signal`, scope `mixed`, an empty query.
pub fn raw_signal_from_fields(
    signal_id: Option<&str>,
    scope: Option<&str>,
    query: Option<&str>,
    linked_senator_id: Option<String>,
    linked_object_id: Option<String>,
    policy_domain: Option<&str>,
    source_url: Option<String>,
    snapshot_date: &CalendarDate,
    articles: Vec<SignalArticle>,
) -> (r: RawPublicSignalRecord)
    requires
        snapshot_date.wf(),
    ensures
        r.signal_id@ == (match signal_id {
            Some(s) => s@,
            None => "gdelt_signal"@,
        }),
        r.source_identifier@ == r.signal_id@,
        r.scope == scope_spec(
            match scope {
                Some(s) => s@,
                None => "mixed"@,
            },
        ),
        r.query@ == (match query {
            Some(q) => q@,
            None => Seq::<char>::empty(),
        }),
        r.linked_senator_id == linked_senator_id,
        r.linked_object_id == linked_object_id,
        match policy_domain {
            Some(d) => r.policy_domain matches Some(pd) && domain_named(pd, d@),
            None => r.policy_domain is None,
        },
        r.snapshot_date == *snapshot_date,
        r.source_name@ == "gdelt"@,
        r.source_url == source_url,
        r.fetched_at == fetched_at_spec(snapshot_date.day_number as int),
        r.articles == articles,
{
    let id: &str = match signal_id {
        Some(s) => s,
        None => "gdelt_signal",
    };
    let scope_text: &str = match scope {
        Some(s) => s,
        None => "mixed",
    };
    let query_text = match query {
        Some(q) => String::from_str(q),
        None => String::new(),
    };
    RawPublicSignalRecord {
        signal_id: String::from_str(id),
        snapshot_date: snapshot_date.copy(),
        scope: parse_scope(scope_text),
        query: query_text,
        linked_senator_id,
        linked_object_id,
        policy_domain: match policy_domain {
            Some(d) => Some(parse_policy_domain(d)),
            None => None,
        },
        source_name: String::from_str("gdelt"),
        source_identifier: String::from_str(id),
        source_url,
        fetched_at: fetched_at_for(snapshot_date),
        articles,
    }
}

} // verus!
