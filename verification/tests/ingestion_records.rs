use senate_simulator::ingest::config::{IngestionConfig, IngestionSourceMode};
use senate_simulator::ingest::congress_json::{
    action_records_from_actions, bill_action_request, congress_items, is_json_text, legislative_records_from_bills,
    roster_records_from_members,
};
use senate_simulator::ingest::live::{
    action_chamber_text, assemble_live_records, bill_object_id, fallback_action_id, term_start_date_text,
    vote_source_identifier, votes_to_fetch,
};
use senate_simulator::ingest::public_signals::{
    public_signal_query_plan, raw_record_from_query, raw_signal_from_fields,
};
use senate_simulator::ingest::record_fields::{
    parse_raw_action_record_value, parse_raw_legislative_record_value, parse_raw_roster_record_value,
    parse_raw_vote_record_value, ActionFields, FieldValue, LegislationFields, RosterFields, VoteFields,
};
use senate_simulator::ingest::senate_votes::SenateVoteReference;
use senate_simulator::ingest::sources::choose_fixture_date;
use senate_simulator::model::context::{Chamber, ProceduralStage};
use senate_simulator::model::error::SenateSimError;
use senate_simulator::model::identity::{Party, SenateClass};
use senate_simulator::model::legislative::{BudgetaryImpact, LegislativeObjectType, PolicyDomain};
use senate_simulator::model::records::{
    NormalizedLegislativeRecord, NormalizedSenatorRecord, RawRosterRecord, RawVoteRecord,
};
use senate_simulator::model::snapshot::PublicSignalScope;
use senate_simulator::util::calendar::CalendarDate;

fn date(y: i32, m: u32, d: u32) -> CalendarDate {
    CalendarDate::from_ymd(y, m, d).unwrap()
}

fn text(s: &str) -> FieldValue {
    FieldValue::Text(s.to_string())
}

fn roster_fields(id: &str, name: &str, party: &str, state: &str, start: FieldValue) -> RosterFields {
    RosterFields {
        source_member_id: text(id),
        name: text(name),
        party: text(party),
        state: text(state),
        start_date: start,
        end_date: FieldValue::Null,
        source_name: text("congress_api"),
        source_identifier: text(id),
        source_url: FieldValue::Missing,
    }
}

fn is_validation(e: SenateSimError, expected_field: &str, expected_message: &str) -> bool {
    match e {
        SenateSimError::Validation { field, message } => field == expected_field && message == expected_message,
        _ => false,
    }
}

#[test]
fn builds_congress_records_from_saved_payloads() {
    let run_date = date(2026, 3, 9);
    let members = r#"{
        "payload": {
            "members": [
                {
                    "bioguideId": "A0001",
                    "directOrderName": "Adams, Alex",
                    "partyName": "Democratic",
                    "state": "Washington",
                    "terms": { "item": [{ "chamber": "Senate", "startYear": 2025 }] }
                }
            ]
        }
    }"#;
    let bills = r#"{
        "payload": {
            "bills": [
                {
                    "type": "s",
                    "number": "2100",
                    "title": "Clean Energy Permitting Reform Act",
                    "summary": "Permitting reform for transmission.",
                    "introducedDate": "2026-03-01",
                    "latestAction": { "text": "Cloture filed in Senate." },
                    "url": "https://example.test/bill"
                }
            ]
        }
    }"#;
    let actions = vec![r#"{
        "actionCode": "S001",
        "billId": "s2100",
        "actionDate": "2026-03-05",
        "text": "Cloture filed in Senate.",
        "type": "floor"
    }"#
    .to_string()];

    let roster = roster_records_from_members(&run_date, members).unwrap();
    let legislation =
        legislative_records_from_bills(&run_date, &congress_items(bills, &vec!["bills".to_string()])).unwrap();
    let action_records = action_records_from_actions(&run_date, &actions).unwrap();
    assert_eq!(roster.len(), 1);
    assert_eq!(roster[0].party, "Democratic");
    assert_eq!(roster[0].state, "WA");
    assert_eq!(roster[0].start_date, Some(date(2025, 1, 3)));
    assert_eq!(legislation[0].source_object_id, "s2100");
    assert_eq!(action_records[0].chamber, Chamber::Senate);
}

#[test]
fn congress_members_keep_senators_with_their_last_senate_term() {
    let run_date = date(2026, 3, 9);
    let members = r#"{"members": {"member": [
        {"bioguideId": "H0001", "name": "House, Only", "terms": {"item": [{"chamber": "House of Representatives", "startYear": 2019}]}},
        {"memberId": "B0002", "fullName": "Baker, Beth",
         "terms": {"item": [
            {"chamber": "senate", "startYear": "2013", "party": "Republican", "stateCode": "ky"},
            {"chamber": "House", "startYear": 2021},
            {"chamber": "SENATE", "startYear": 2019}
         ]},
         "url": "https://example.test/b"},
        {"terms": {"item": [{"chamber": "Senate"}]}, "state": "Atlantis", "url": null}
    ]}}"#;
    let roster = roster_records_from_members(&run_date, members).unwrap();
    assert_eq!(roster.len(), 2);
    assert_eq!(roster[0].source_member_id, "B0002");
    assert_eq!(roster[0].source_identifier, "B0002");
    assert_eq!(roster[0].name, "Baker, Beth");
    assert_eq!(roster[0].party, "Republican");
    assert_eq!(roster[0].state, "KY");
    assert_eq!(roster[0].start_date, Some(date(2019, 1, 3)));
    assert_eq!(roster[0].end_date, None);
    assert_eq!(roster[0].source_name, "congress_api");
    assert_eq!(roster[0].source_url, Some("https://example.test/b".to_string()));
    assert_eq!(roster[1].source_member_id, "unknown_member");
    assert_eq!(roster[1].name, "Unknown Member");
    assert_eq!(roster[1].party, "Unknown");
    assert_eq!(roster[1].state, "XX");
    assert_eq!(roster[1].start_date, None);
    assert_eq!(roster[1].source_url, None);
}

#[test]
fn congress_member_errors_name_the_first_bad_field() {
    let run_date = date(2026, 3, 9);
    let blank_id = r#"[{"bioguideId": " ", "terms": {"item": [{"chamber": "Senate"}]}}]"#;
    assert!(is_validation(
        roster_records_from_members(&run_date, blank_id).unwrap_err(),
        "source_member_id",
        "must not be empty"
    ));
    let bad_year = r#"[{"bioguideId": "C1", "terms": {"item": [{"chamber": "Senate", "startYear": "20x5"}]}}]"#;
    assert!(is_validation(
        roster_records_from_members(&run_date, bad_year).unwrap_err(),
        "optional_date",
        "invalid date 20x5-01-03"
    ));
    let numeric_url = r#"[{"bioguideId": "C1", "url": 7, "terms": {"item": [{"chamber": "Senate"}]}}]"#;
    assert!(is_validation(
        roster_records_from_members(&run_date, numeric_url).unwrap_err(),
        "optional_string",
        "must be string or null"
    ));
    assert_eq!(roster_records_from_members(&run_date, "not json").unwrap().len(), 0);
}

#[test]
fn congress_listings_descend_by_their_keys() {
    let keys = vec!["bills".to_string(), "bill".to_string()];
    let nested = r#"{"payload": {"bills": {"bill": {"item": [{"n": 1}, {"n": 2}]}}}}"#;
    let items = congress_items(nested, &keys);
    assert_eq!(items.len(), 2);
    assert_eq!(items[0], r#"{"n":1}"#);
    let flat = r#"[1, "two"]"#;
    assert_eq!(congress_items(flat, &keys), vec!["1".to_string(), "\"two\"".to_string()]);
    assert_eq!(congress_items(r#"{"bills": 5}"#, &keys).len(), 0);
    assert!(is_json_text("{\"a\": [1, 2]}"));
    assert!(!is_json_text("{\"a\": "));
}

#[test]
fn congress_bills_and_actions_fill_in_their_defaults() {
    let run_date = date(2026, 3, 9);
    let bills = vec![
        r#"{"type": "HR", "billNumber": "12", "latestTitle": "A Title", "summaries": [{"text": "Short."}],
            "sponsors": [{"name": "Rep. Doe"}], "updateDateIncludingText": "2026-03-02", "introducedDate": null}"#
            .to_string(),
        r#"{"number": 7}"#.to_string(),
    ];
    let legislation = legislative_records_from_bills(&run_date, &bills).unwrap();
    assert_eq!(legislation[0].source_object_id, "hr12");
    assert_eq!(legislation[0].source_identifier, "hr12");
    assert_eq!(legislation[0].title, "A Title");
    assert_eq!(legislation[0].summary, Some("Short.".to_string()));
    assert_eq!(legislation[0].sponsor, Some("Rep. Doe".to_string()));
    assert_eq!(legislation[0].latest_status_text, Some("2026-03-02".to_string()));
    assert_eq!(legislation[0].introduced_date, None);
    assert_eq!(legislation[1].source_object_id, "bill0");
    assert_eq!(legislation[1].title, "Untitled legislation");
    assert_eq!(legislation[1].summary, None);
    assert_eq!(bill_action_request(&bills[0]), Some(("hr".to_string(), "12".to_string())));
    assert_eq!(bill_action_request(&bills[1]), None);

    let actions = vec![
        r#"{"actionCode": "H12", "relatedObjectId": "hr12", "actionDate": "2026-03-04", "type": null}"#.to_string(),
        r#"{"text": "Read twice."}"#.to_string(),
    ];
    let records = action_records_from_actions(&run_date, &actions).unwrap();
    assert_eq!(records[0].source_action_id, "H12");
    assert_eq!(records[0].object_id, "hr12");
    assert_eq!(records[0].chamber, Chamber::House);
    assert_eq!(records[0].action_text, "Congress action");
    assert_eq!(records[1].source_action_id, "action_1");
    assert_eq!(records[1].source_identifier, "action_1");
    assert_eq!(records[1].object_id, "action_1");
    assert_eq!(records[1].action_date, date(1900, 1, 1));
    assert_eq!(records[1].chamber, Chamber::Senate);

    let bad_code = vec![r#"{"actionCode": 5}"#.to_string()];
    assert!(is_validation(
        action_records_from_actions(&run_date, &bad_code).unwrap_err(),
        "source_action_id",
        "must not be empty"
    ));
    let bad_date = vec![r#"{"title": "T", "introducedDate": "March 1"}"#.to_string()];
    assert!(is_validation(
        legislative_records_from_bills(&run_date, &bad_date).unwrap_err(),
        "optional_date",
        "invalid date March 1"
    ));
}

#[test]
fn record_fields_report_the_first_bad_field() {
    let run_date = date(2026, 3, 9);
    assert!(is_validation(
        parse_raw_roster_record_value(&None, &run_date).unwrap_err(),
        "raw_roster_record",
        "fixture records must be JSON objects"
    ));
    let blank_name = roster_fields("A1", "  ", "D", "WA", FieldValue::Null);
    assert!(is_validation(parse_raw_roster_record_value(&Some(blank_name), &run_date).unwrap_err(), "name", "must not be empty"));
    let bad_date = roster_fields("A1", "Alex", "D", "WA", text("2025-13-01"));
    assert!(is_validation(
        parse_raw_roster_record_value(&Some(bad_date), &run_date).unwrap_err(),
        "optional_date",
        "invalid date 2025-13-01"
    ));
    let mut not_text = roster_fields("A1", "Alex", "D", "WA", FieldValue::Bool(true));
    assert!(is_validation(
        parse_raw_roster_record_value(&Some(not_text), &run_date).unwrap_err(),
        "optional_date",
        "must be string or null"
    ));
    not_text = roster_fields("A1", "Alex", "D", "WA", FieldValue::Missing);
    not_text.source_url = FieldValue::Other;
    assert!(is_validation(
        parse_raw_roster_record_value(&Some(not_text), &run_date).unwrap_err(),
        "optional_string",
        "must be string or null"
    ));
    let action = ActionFields {
        source_action_id: text("a1"),
        object_id: text("s1"),
        action_date: FieldValue::Null,
        action_text: text("x"),
        action_type: FieldValue::Missing,
        chamber: FieldValue::Missing,
        source_name: text("n"),
        source_identifier: text("i"),
        source_url: FieldValue::Missing,
    };
    assert!(is_validation(parse_raw_action_record_value(&Some(action), &run_date).unwrap_err(), "action_date", "must not be empty"));
    let house = ActionFields {
        source_action_id: text("a1"),
        object_id: text("s1"),
        action_date: text("2026-03-01"),
        action_text: text("x"),
        action_type: FieldValue::Missing,
        chamber: text("HOUSE"),
        source_name: text("n"),
        source_identifier: text("i"),
        source_url: FieldValue::Missing,
    };
    assert_eq!(parse_raw_action_record_value(&Some(house), &run_date).unwrap().chamber, Chamber::House);
}

fn vote_fields(procedural: FieldValue) -> VoteFields {
    VoteFields {
        source_vote_id: text("v1"),
        vote_date: text("2026-03-01"),
        senator_id: text("sen_a"),
        senator_name: text("Alex Adams"),
        object_id: FieldValue::Null,
        vote_category: text("Cloture"),
        vote_position: text("Yea"),
        party_at_time: text("democrat"),
        policy_domain: text("energy_climate"),
        is_procedural: procedural,
        procedural_kind: text("Cloture"),
        source_name: text("senate_votes"),
        source_identifier: text("v1"),
        source_url: FieldValue::Missing,
        member_state: Some("WA".to_string()),
        member_last_name: None,
    }
}

#[test]
fn vote_fields_are_read_with_party_and_domain() {
    let run_date = date(2026, 3, 9);
    let vote = parse_raw_vote_record_value(&Some(vote_fields(FieldValue::Bool(true))), &run_date).unwrap();
    assert_eq!(vote.party_at_time, Party::Democrat);
    assert_eq!(vote.policy_domain, Some(PolicyDomain::EnergyClimate));
    assert!(vote.is_procedural);
    assert_eq!(vote.object_id, None);
    assert_eq!(vote.member_state.as_deref(), Some("WA"));
    assert!(is_validation(
        parse_raw_vote_record_value(&Some(vote_fields(text("yes"))), &run_date).unwrap_err(),
        "raw_vote_record.is_procedural",
        "must be boolean"
    ));
}

fn raw_roster(id: &str, name: &str, state: &str) -> RawRosterRecord {
    RawRosterRecord {
        source_member_id: id.to_string(),
        name: name.to_string(),
        party: "D".to_string(),
        state: state.to_string(),
        chamber: Chamber::Senate,
        start_date: None,
        end_date: None,
        as_of_date: date(2026, 3, 9),
        source_name: "congress_api".to_string(),
        source_identifier: id.to_string(),
        source_url: None,
    }
}

fn raw_vote(vote_id: &str, senator_id: &str, name: &str) -> RawVoteRecord {
    RawVoteRecord {
        source_vote_id: vote_id.to_string(),
        vote_date: date(2026, 3, 1),
        senator_id: senator_id.to_string(),
        senator_name: name.to_string(),
        object_id: None,
        vote_category: "Cloture".to_string(),
        vote_position: "Yea".to_string(),
        party_at_time: Party::Democrat,
        policy_domain: None,
        is_procedural: true,
        procedural_kind: None,
        as_of_date: date(2026, 3, 9),
        source_name: "senate_votes".to_string(),
        source_identifier: vote_id.to_string(),
        source_url: None,
        member_state: Some("WA".to_string()),
        member_last_name: None,
    }
}

#[test]
fn live_records_are_sorted_and_reconciled() {
    let roster = vec![raw_roster("B2", "Baker, Blair", "TX"), raw_roster("A1", "Adams, Alex", "WA")];
    let votes = vec![raw_vote("v2", "x", "Alex Adams"), raw_vote("v1", "z", "Zed"), raw_vote("v1", "y", "Alex Adams")];
    let out = assemble_live_records(roster, vec![], vec![], votes);
    assert_eq!(out.roster[0].source_member_id, "A1");
    assert_eq!(out.roster[1].source_member_id, "B2");
    assert_eq!(out.votes.len(), 3);
    assert_eq!(out.votes[0].source_vote_id, "v1");
    assert_eq!(out.votes[0].senator_id, "A1");
    assert_eq!(out.votes[1].senator_id, "z");
    assert_eq!(out.votes[2].source_vote_id, "v2");
    assert_eq!(out.votes[2].senator_id, "A1");
}

#[test]
fn vote_fetching_keeps_due_votes_in_order() {
    let refs: Vec<SenateVoteReference> = (1..=30u32)
        .map(|n| SenateVoteReference {
            congress: 119,
            session: 2,
            vote_number: n,
            vote_date: if n % 2 == 0 { date(2026, 3, 1) } else { date(2026, 3, 20) },
        })
        .chain((31..=60u32).map(|n| SenateVoteReference { congress: 119, session: 2, vote_number: n, vote_date: date(2026, 1, 5) }))
        .collect();
    let due = votes_to_fetch(&refs, &date(2026, 3, 9));
    assert_eq!(due.len(), 25);
    assert_eq!(due[0].vote_number, 2);
    assert_eq!(due[14].vote_number, 30);
    assert_eq!(due[15].vote_number, 31);
    assert_eq!(vote_source_identifier(119, 2, 7), "senate_vote_119_2_00007");
    assert_eq!(vote_source_identifier(119, 1, 123456), "senate_vote_119_1_123456");
    assert_eq!(fallback_action_id(4), "action_4");
    assert_eq!(bill_object_id(None, None), "bill0");
    assert_eq!(action_chamber_text(Some("H123")), "House");
    assert_eq!(action_chamber_text(None), "Senate");
    assert_eq!(term_start_date_text("2025"), "2025-01-03");
}

#[test]
fn fixture_directories_are_chosen_by_date() {
    let dates = vec![date(2026, 3, 1), date(2026, 3, 10), date(2026, 2, 1)];
    assert_eq!(choose_fixture_date(&dates, &date(2026, 3, 9)), Some(0));
    assert_eq!(choose_fixture_date(&dates, &date(2026, 3, 10)), Some(1));
    assert_eq!(choose_fixture_date(&dates, &date(2026, 1, 1)), None);
}

fn object(id: &str, domain: PolicyDomain) -> NormalizedLegislativeRecord {
    NormalizedLegislativeRecord {
        object_id: id.to_string(),
        title: format!("Bill {id}"),
        summary: "s".to_string(),
        object_type: LegislativeObjectType::Bill,
        policy_domain: domain,
        sponsor: None,
        introduced_date: date(2026, 2, 1),
        latest_status_text: None,
        current_stage: ProceduralStage::Debate,
        origin_chamber: Chamber::Senate,
        budgetary_impact: BudgetaryImpact::Moderate,
        salience: 5000,
        controversy: 5000,
        as_of_date: date(2026, 3, 9),
    }
}

#[test]
fn public_signal_queries_follow_the_plan() {
    let objects = vec![
        object("s1", PolicyDomain::EnergyClimate),
        object("s2", PolicyDomain::EnergyClimate),
        object("s3", PolicyDomain::Other("Space Policy".to_string())),
    ];
    let senators = vec![NormalizedSenatorRecord {
        senator_id: "real_a".to_string(),
        full_name: "Alex Adams".to_string(),
        party: Party::Democrat,
        state: "WA".to_string(),
        class: SenateClass::I,
        start_date: date(2023, 1, 3),
        end_date: None,
        source_member_id: "a".to_string(),
        as_of_date: date(2026, 3, 9),
    }];
    let plan = public_signal_query_plan(&objects, &senators, 2);
    assert_eq!(plan.len(), 5);
    assert_eq!(plan[0].signal_id, "gdelt_object_s1");
    assert_eq!(plan[0].query, "\"Bill s1\" OR s1");
    assert_eq!(plan[2].signal_id, "gdelt_senator_real_a");
    assert_eq!(plan[2].query, "\"Alex Adams\" AND WA");
    assert_eq!(plan[3].signal_id, "gdelt_domain_energyclimate");
    assert_eq!(plan[3].query, "energy OR climate OR permitting");
    assert_eq!(plan[4].signal_id, "gdelt_domain_space_policy");
    assert_eq!(plan[4].scope, PublicSignalScope::PolicyDomain);
    let zero_limit = public_signal_query_plan(&objects, &senators, 0);
    assert_eq!(zero_limit.len(), 3);
    let first = plan.into_iter().next().unwrap();
    let record = raw_record_from_query(first, &date(2026, 3, 9), Some("https://example.test".to_string()), vec![]);
    assert_eq!(record.signal_id, "gdelt_object_s1");
    assert_eq!(record.source_identifier, "gdelt_object_s1");
    assert_eq!(record.source_name, "gdelt");
    assert_eq!(record.fetched_at, 1_773_057_600);
    let saved = raw_signal_from_fields(None, None, None, None, None, Some("Defense"), None, &date(2026, 3, 9), vec![]);
    assert_eq!(saved.signal_id, "gdelt_signal");
    assert_eq!(saved.scope, PublicSignalScope::Mixed);
    assert_eq!(saved.query, "");
    assert_eq!(saved.policy_domain, Some(PolicyDomain::Defense));
}

#[test]
fn ingestion_configs_have_their_defaults() {
    let fixtures = IngestionConfig::fixtures(date(2026, 3, 9));
    assert_eq!(fixtures.source_mode, IngestionSourceMode::Fixtures);
    assert_eq!(fixtures.output_root, "data");
    assert_eq!(fixtures.fixture_root, "fixtures/ingest");
    assert_eq!(fixtures.gdelt_query_limit, 5);
    assert!(!fixtures.include_gdelt && !fixtures.use_cached_raw_if_present);
    let live = IngestionConfig::live(date(2026, 3, 9), Some("test-key".to_string()));
    assert_eq!(live.source_mode, IngestionSourceMode::Live);
    assert_eq!(live.congress_api_key.as_deref(), Some("test-key"));
}
