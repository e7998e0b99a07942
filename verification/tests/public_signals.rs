use senate_simulator::ingest::public_signals::{
    average_tone, domain_query, extract_signal_metadata, normalize_public_signal_record, normalize_public_signals,
    parse_policy_domain, parse_scope, sanitize_key, unique_source_count, JsonText, RawPublicSignalRecord,
    SignalArticle,
};
use senate_simulator::model::legislative::PolicyDomain;
use senate_simulator::model::snapshot::{
    attach_public_signals_to_snapshot, DataSnapshot, NormalizedPublicSignalRecord, PublicSignalScope,
    PublicSignalSummary,
};
use senate_simulator::util::calendar::CalendarDate;

fn date(y: i32, m: u32, d: u32) -> CalendarDate {
    CalendarDate::from_ymd(y, m, d).unwrap()
}

fn text(s: &str) -> JsonText {
    JsonText::Text(s.to_string())
}

fn article(title: &str, source: &str, tone: Option<i64>) -> SignalArticle {
    SignalArticle {
        title: text(title),
        source_common_name: text(source),
        domain: JsonText::Missing,
        source_country: JsonText::Missing,
        tone,
    }
}

fn raw(signal_id: &str, query: &str, articles: Vec<SignalArticle>) -> RawPublicSignalRecord {
    RawPublicSignalRecord {
        signal_id: signal_id.to_string(),
        snapshot_date: date(2026, 3, 9),
        scope: PublicSignalScope::LegislativeObject,
        query: query.to_string(),
        linked_senator_id: None,
        linked_object_id: Some("s2100".to_string()),
        policy_domain: Some(PolicyDomain::EnergyClimate),
        source_name: "gdelt".to_string(),
        source_identifier: signal_id.to_string(),
        source_url: Some("https://example.test/gdelt".to_string()),
        fetched_at: 1_773_057_600,
        articles,
    }
}

#[test]
fn scope_classification_test() {
    assert!(matches!(parse_scope("senator"), PublicSignalScope::Senator));
    assert!(matches!(parse_scope("legislative_object"), PublicSignalScope::LegislativeObject));
    assert!(matches!(parse_scope("domain"), PublicSignalScope::PolicyDomain));
}

#[test]
fn snapshot_enrichment_test() {
    let mut snapshot = DataSnapshot {
        snapshot_date: date(2026, 3, 9),
        run_id: "snapshot-20260309".to_string(),
        created_at: 1_773_057_600,
        roster_records: vec![],
        legislative_records: vec![],
        action_records: vec![],
        vote_records: vec![],
        public_signal_records: vec![],
        public_signal_summary: None,
        source_manifests: vec![],
    };
    let records = vec![NormalizedPublicSignalRecord {
        snapshot_date: date(2026, 3, 9),
        signal_id: "sig1".to_string(),
        signal_scope: PublicSignalScope::PolicyDomain,
        linked_senator_id: None,
        linked_object_id: None,
        policy_domain: Some(PolicyDomain::EnergyClimate),
        mention_count: 3,
        attention_score: 4000,
        tone_score: None,
        source_count: None,
        top_themes: vec!["energy".to_string()],
        top_persons: vec![],
        top_organizations: vec![],
    }];
    let summary = PublicSignalSummary {
        snapshot_date: date(2026, 3, 9),
        object_attention: vec![],
        senator_attention: vec![],
        senator_object_link_strength: vec![],
    };
    attach_public_signals_to_snapshot(&mut snapshot, records, summary);
    assert_eq!(snapshot.public_signal_records.len(), 1);
    assert!(snapshot.public_signal_summary.is_some());
}

#[test]
fn signal_normalization_scores_attention_tone_and_themes() {
    let record = raw(
        "gdelt_object_s2100",
        "s2100 clean energy",
        vec![
            article("Clean energy bill heats up", "Reuters", Some(400)),
            article("Permitting fight intensifies", "AP", Some(-100)),
        ],
    );
    let normalized = normalize_public_signal_record(&record).unwrap();
    assert_eq!(normalized.mention_count, 2);
    assert_eq!(normalized.source_count, Some(2));
    assert_eq!(normalized.attention_score, 3000);
    assert_eq!(normalized.tone_score, Some(150));
    assert_eq!(normalized.top_organizations, vec!["AP".to_string(), "Reuters".to_string()]);
    assert_eq!(
        normalized.top_themes,
        vec!["clean".to_string(), "energy".to_string(), "fight".to_string()]
    );
    assert!(normalized.top_persons.is_empty());
    assert_eq!(normalized.linked_object_id.as_deref(), Some("s2100"));
}

#[test]
fn signal_without_title_themes_falls_back_to_query_words() {
    let mut record = raw("sig", "\"Clean Grid\" AND WA s21", vec![]);
    record.linked_senator_id = Some("real_a0001".to_string());
    let (themes, persons, orgs) = extract_signal_metadata(&record);
    assert_eq!(themes, vec!["clean".to_string(), "grid".to_string()]);
    assert_eq!(persons, vec!["real_a0001".to_string()]);
    assert!(orgs.is_empty());
    let normalized = normalize_public_signal_record(&record).unwrap();
    assert_eq!(normalized.attention_score, 0);
    assert_eq!(normalized.tone_score, None);
    assert_eq!(normalized.source_count, None);
}

#[test]
fn signal_attention_is_capped_and_empty_ids_are_refused() {
    let many: Vec<SignalArticle> = (0..12).map(|i| article("Short", &format!("S{i}"), None)).collect();
    let normalized = normalize_public_signal_record(&raw("sig", "q", many)).unwrap();
    assert_eq!(normalized.attention_score, 10000);
    assert!(normalize_public_signal_record(&raw("", "q", vec![])).is_err());
    let records = vec![raw("a", "q", vec![]), raw("", "q", vec![])];
    assert!(normalize_public_signals(&records).is_err());
    let ok = normalize_public_signals(&vec![raw("a", "q", vec![]), raw("b", "q", vec![])]).unwrap();
    assert_eq!(ok.len(), 2);
    assert_eq!(ok[1].signal_id, "b");
}

#[test]
fn sources_tones_and_keys_follow_their_rules() {
    let articles = vec![
        SignalArticle {
            title: JsonText::NotText,
            source_common_name: JsonText::Missing,
            domain: text("example.com"),
            source_country: text("US"),
            tone: Some(-25000),
        },
        SignalArticle {
            title: JsonText::Missing,
            source_common_name: JsonText::NotText,
            domain: text("other.com"),
            source_country: JsonText::Missing,
            tone: None,
        },
        article("x", "example.com", Some(-3)),
    ];
    assert_eq!(unique_source_count(&articles), Some(1));
    assert_eq!(average_tone(&articles), Some(-10000));
    assert_eq!(average_tone(&vec![article("x", "y", Some(-3)), article("x", "y", Some(0))]), Some(-2));
    assert_eq!(sanitize_key("Energy Climate!"), "energy_climate_");
    assert_eq!(domain_query(&PolicyDomain::Labor), "labor OR workers OR union");
    assert_eq!(parse_policy_domain("Budget_Tax"), PolicyDomain::BudgetTax);
    assert_eq!(parse_policy_domain("Space"), PolicyDomain::Other("Space".to_string()));
}
