use senate_simulator::ingest::gdelt::check_json_response;
use senate_simulator::ingest::senate_votes::{
    build_object_id, infer_policy_domain_from_text, infer_procedural_kind, infer_vote_category, parse_u32_text,
    parse_vote_date, validate_xml_response, vote_index_references, vote_summary_to_raw, VoteMember, VoteMenu,
    VoteMenuEntry, VoteSummary,
};
use senate_simulator::model::error::SenateSimError;
use senate_simulator::model::identity::Party;
use senate_simulator::model::legislative::PolicyDomain;
use senate_simulator::util::calendar::CalendarDate;

fn date(y: i32, m: u32, d: u32) -> CalendarDate {
    CalendarDate::from_ymd(y, m, d).unwrap()
}

fn text(s: &str) -> Option<String> {
    Some(s.to_string())
}

fn member(id: &str, first: &str, last: &str, state: &str, party: &str, cast: &str) -> VoteMember {
    VoteMember {
        lis_member_id: text(id),
        member_id: None,
        first_name: text(first),
        last_name: text(last),
        member_full: None,
        state: text(state),
        party: text(party),
        vote_cast: text(cast),
    }
}

#[test]
fn parses_vote_index_fixture() {
    let menu = VoteMenu {
        congress_year: Some(2026),
        votes: vec![
            VoteMenuEntry { vote_number: "1".to_string(), vote_date: "15-Jan".to_string() },
            VoteMenuEntry { vote_number: "2".to_string(), vote_date: "20-Jan".to_string() },
        ],
    };
    let entries = vote_index_references(&menu, 119, 1).unwrap();
    assert_eq!(entries.len(), 2);
    assert_eq!(entries[0].vote_number, 1);
    assert_eq!(entries[1].vote_date, date(2026, 1, 20));
}

#[test]
fn parses_vote_summary_into_raw_records() {
    let summary = VoteSummary {
        vote_date: text("January 15, 2026"),
        vote_question: text("On the Cloture Motion S.2100"),
        vote_title: text("On the Cloture Motion S.2100"),
        document_type: text("s"),
        document_number: text("2100"),
        members: vec![
            member("A0001", "Alex", "Adams", "WA", "D", "Yea"),
            member("B0002", "Blair", "Baker", "TX", "R", "Nay"),
        ],
    };
    let records = vote_summary_to_raw(
        &summary,
        &date(2026, 3, 9),
        "https://example.test/vote.xml",
        "senate_vote_119_1_00001",
    )
    .unwrap();
    assert_eq!(records.len(), 2);
    assert_eq!(records[0].object_id.as_deref(), Some("s2100"));
    assert_eq!(records[0].vote_category, "Cloture");
    assert_eq!(records[0].procedural_kind.as_deref(), Some("Cloture"));
}

#[test]
fn vote_summary_records_carry_member_details() {
    let summary = VoteSummary {
        vote_date: text("2026-02-03"),
        vote_question: text("On Passage of the Bill H.R. 10 (border security)"),
        vote_title: None,
        document_type: None,
        document_number: text("10"),
        members: vec![VoteMember {
            lis_member_id: None,
            member_id: None,
            first_name: None,
            last_name: text("Cole"),
            member_full: None,
            state: text("OH"),
            party: text("I"),
            vote_cast: None,
        }],
    };
    let records = vote_summary_to_raw(&summary, &date(2026, 3, 9), "u", "id").unwrap();
    assert_eq!(records[0].vote_date, date(2026, 2, 3));
    assert_eq!(records[0].senator_id, "cole_oh_i");
    assert_eq!(records[0].senator_name, "Cole");
    assert_eq!(records[0].vote_position, "Unknown");
    assert_eq!(records[0].party_at_time, Party::Independent);
    assert_eq!(records[0].object_id, None);
    assert_eq!(records[0].vote_category, "Passage");
    assert!(!records[0].is_procedural);
    assert_eq!(records[0].policy_domain, Some(PolicyDomain::Immigration));
    assert_eq!(records[0].member_state.as_deref(), Some("OH"));
}

#[test]
fn unreadable_vote_dates_are_refused() {
    let summary = VoteSummary {
        vote_date: None,
        vote_question: None,
        vote_title: None,
        document_type: None,
        document_number: None,
        members: vec![],
    };
    match vote_summary_to_raw(&summary, &date(2026, 3, 9), "u", "id") {
        Err(SenateSimError::Validation { field, message }) => {
            assert_eq!(field, "senate_vote_summary.vote_date");
            assert_eq!(message, "invalid vote date ");
        },
        _ => panic!("expected a validation error"),
    }
    let menu = VoteMenu {
        congress_year: None,
        votes: vec![VoteMenuEntry { vote_number: "x1".to_string(), vote_date: "15-Jan".to_string() }],
    };
    match vote_index_references(&menu, 119, 1) {
        Err(SenateSimError::Validation { field, message }) => {
            assert_eq!(field, "senate_vote_index.vote_number");
            assert_eq!(message, "invalid vote number x1");
        },
        _ => panic!("expected a validation error"),
    }
}

#[test]
fn vote_dates_are_read_in_senate_formats() {
    assert_eq!(parse_vote_date("January 5, 2026").unwrap(), date(2026, 1, 5));
    assert_eq!(parse_vote_date(" 2026-03-01 ").unwrap(), date(2026, 3, 1));
    assert_eq!(parse_vote_date("15-Jan-2026").unwrap(), date(2026, 1, 15));
    assert_eq!(parse_vote_date("March 3,2026, extra, words").unwrap(), date(2026, 3, 3));
    assert!(parse_vote_date("not a date").is_err());
}

#[test]
fn vote_titles_are_classified() {
    assert_eq!(infer_vote_category("Motion to Proceed to S. 1"), "MotionToProceed");
    assert_eq!(infer_vote_category("On the Amendment"), "Amendment");
    assert_eq!(infer_vote_category("On the Nomination"), "Nomination");
    assert_eq!(infer_vote_category("Motion to Table"), "Procedural");
    assert_eq!(infer_vote_category("Quorum"), "Other");
    assert_eq!(infer_procedural_kind("Motion to Recommit"), Some("Recommit".to_string()));
    assert_eq!(infer_procedural_kind("On Passage"), None);
    assert_eq!(infer_policy_domain_from_text("School lunch act"), Some(PolicyDomain::Education));
    assert_eq!(infer_policy_domain_from_text("Naming a post office"), None);
    assert_eq!(build_object_id(&text(" S "), &text(" 2100 ")), Some("s2100".to_string()));
    assert_eq!(build_object_id(&text("s"), &text("  ")), None);
    assert_eq!(parse_u32_text("0042"), Some(42));
    assert_eq!(parse_u32_text("+"), None);
    assert_eq!(parse_u32_text("-1"), None);
}

#[test]
fn html_bodies_are_not_xml() {
    assert!(validate_xml_response("u", "  <?xml version=\"1.0\"?><a/>").is_ok());
    assert!(validate_xml_response("u", "<roll_call_vote/>").is_ok());
    match validate_xml_response("https://example.test/v.xml", "\n<html><body>down</body></html>") {
        Err(SenateSimError::UnexpectedResponseFormat { url, expected, body_prefix }) => {
            assert_eq!(url, "https://example.test/v.xml");
            assert_eq!(expected, "XML");
            assert_eq!(body_prefix, "<html><body>down</body></html>");
        },
        _ => panic!("expected a format error"),
    }
    assert!(validate_xml_response("u", "<!DOCTYPE html><html></html>").is_err());
}

#[test]
fn rejects_html_error_pages() {
    let error = check_json_response(
        "https://example.test/gdelt",
        "<html><head><title>Error</title></head><body>blocked</body></html>",
    )
    .unwrap_err();
    assert!(error.describe().contains("unexpected response format"));
}

#[test]
fn parses_json_payloads() {
    let body = r#"{"articles":[{"title":"test"}]}"#;
    assert!(check_json_response("https://example.test/gdelt", body).is_ok());
    let payload: serde_json::Value = serde_json::from_str(body).unwrap();
    assert!(payload.get("articles").is_some());
}
