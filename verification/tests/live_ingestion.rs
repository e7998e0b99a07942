use senate_simulator::ingest::congress_api::parse_rate_limit_headers;
use senate_simulator::ingest::live::{
    infer_congress_number, infer_session_number, reconcile_vote_member_ids, state_code_for, state_name_to_code,
};
use senate_simulator::model::context::Chamber;
use senate_simulator::model::identity::Party;
use senate_simulator::model::records::{RawRosterRecord, RawVoteRecord};
use senate_simulator::util::calendar::CalendarDate;

fn date(y: i32, m: u32, d: u32) -> CalendarDate {
    CalendarDate::from_ymd(y, m, d).unwrap()
}

fn roster(id: &str, name: &str, state: &str) -> RawRosterRecord {
    RawRosterRecord {
        source_member_id: id.to_string(),
        name: name.to_string(),
        party: "D".to_string(),
        state: state.to_string(),
        chamber: Chamber::Senate,
        start_date: None,
        end_date: None,
        as_of_date: date(2026, 3, 9),
        source_name: "congress_api".to_string(),
        source_identifier: id.to_string(),
        source_url: None,
    }
}

fn vote(senator_id: &str, senator_name: &str, state: Option<&str>, last_name: Option<&str>) -> RawVoteRecord {
    RawVoteRecord {
        source_vote_id: "vote_1".to_string(),
        vote_date: date(2026, 3, 1),
        senator_id: senator_id.to_string(),
        senator_name: senator_name.to_string(),
        object_id: Some("s2100".to_string()),
        vote_category: "Cloture".to_string(),
        vote_position: "Yea".to_string(),
        party_at_time: Party::Democrat,
        policy_domain: None,
        is_procedural: true,
        procedural_kind: Some("Cloture".to_string()),
        as_of_date: date(2026, 3, 9),
        source_name: "senate_votes".to_string(),
        source_identifier: "vote_1".to_string(),
        source_url: None,
        member_state: state.map(|s| s.to_string()),
        member_last_name: last_name.map(|s| s.to_string()),
    }
}

#[test]
fn reconciles_member_ids_between_roster_and_votes() {
    let roster_records = vec![roster("A0001", "Adams, Alex", "WA")];
    let votes = vec![vote("alex_adams_wa_d", "Alex Adams", Some("WA"), None)];
    let reconciled = reconcile_vote_member_ids(&roster_records, votes);
    assert_eq!(reconciled[0].senator_id, "A0001");
}

#[test]
fn infers_congress_and_session_from_date() {
    let d = date(2026, 3, 9);
    assert_eq!(infer_congress_number(&d), 119);
    assert_eq!(infer_session_number(&d), 2);
}

#[test]
fn parses_rate_limit_headers() {
    let mut headers = reqwest::header::HeaderMap::new();
    headers.insert("x-ratelimit-limit", reqwest::header::HeaderValue::from_static("1000"));
    headers.insert("x-ratelimit-remaining", reqwest::header::HeaderValue::from_static("742"));
    let limit = headers.get("x-ratelimit-limit").and_then(|value| value.to_str().ok());
    let remaining = headers.get("x-ratelimit-remaining").and_then(|value| value.to_str().ok());
    let parsed = parse_rate_limit_headers(limit, remaining);
    assert_eq!(parsed.limit, Some(1000));
    assert_eq!(parsed.remaining, Some(742));
}

#[test]
fn rate_limit_headers_reject_non_numbers_and_missing_values() {
    let parsed = parse_rate_limit_headers(Some("lots"), None);
    assert_eq!(parsed.limit, None);
    assert_eq!(parsed.remaining, None);
    let signed = parse_rate_limit_headers(Some("+12"), Some("4294967296"));
    assert_eq!(signed.limit, Some(12));
    assert_eq!(signed.remaining, None);
}

#[test]
fn congress_numbers_follow_two_year_terms() {
    assert_eq!(infer_congress_number(&date(1789, 3, 4)), 1);
    assert_eq!(infer_congress_number(&date(1790, 3, 4)), 1);
    assert_eq!(infer_congress_number(&date(1791, 3, 4)), 2);
    assert_eq!(infer_congress_number(&date(2025, 1, 3)), 119);
    assert_eq!(infer_session_number(&date(2025, 1, 3)), 1);
}

#[test]
fn state_names_map_to_postal_codes() {
    assert_eq!(state_name_to_code("  Washington "), Some("WA".to_string()));
    assert_eq!(state_name_to_code("district of columbia"), Some("DC".to_string()));
    assert_eq!(state_name_to_code("Atlantis"), None);
    assert_eq!(state_code_for("wa"), "WA");
    assert_eq!(state_code_for("New York"), "NY");
    assert_eq!(state_code_for("Atlantis"), "XX");
}

#[test]
fn reconciliation_matches_by_last_name_and_state_or_keeps_id() {
    let roster_records = vec![roster("B0002", "Baker, Blair", "TX"), roster("C0003", "Cole, Casey", "OH")];
    let votes = vec![
        vote("lis_9", "Senator B", Some("tx"), Some("BAKER")),
        vote("lis_10", "Dana Doe", Some("OH"), Some("Doe")),
        vote("c0003", "Someone", None, None),
    ];
    let reconciled = reconcile_vote_member_ids(&roster_records, votes);
    assert_eq!(reconciled[0].senator_id, "B0002");
    assert_eq!(reconciled[1].senator_id, "lis_10");
    assert_eq!(reconciled[2].senator_id, "C0003");
    assert_eq!(reconciled[1].senator_name, "Dana Doe");
}
