use sharp::cli::init_message;
use sharp::loader::parse_schema;
use sharp::report::{explain_report, generate_report};
use sharp::schema::{EventSchema, EventTable};

fn scenario_schema() -> EventSchema {
    EventSchema {
        event_table: EventTable {
            name: "analytics_events".to_string(),
            multi_tenant: true,
            expected_events_per_day: 50_000_000,
            retention_days: 90,
        },
    }
}

#[test]
fn end_to_end_generate_scenario() {
    let report = generate_report(&scenario_schema());
    let expected_statement = "CREATE TABLE analytics_events (\n\
                              \x20   project_id UInt32,\n\
                              \x20   timestamp DateTime,\n\
                              \x20   event_name LowCardinality(String),\n\
                              \x20   distinct_id String,\n\
                              \x20   properties JSON\n\
                              ) ENGINE = MergeTree\n\
                              PARTITION BY toYYYYMMDD(timestamp)\n\
                              ORDER BY (project_id, event_name, timestamp, distinct_id)\n\
                              TTL timestamp + INTERVAL 90 DAY;";
    assert!(report.starts_with(expected_statement));
    let rest = &report[expected_statement.len()..];
    assert!(rest.starts_with("\n\nALTER TABLE analytics_events\n"));
    assert!(rest.contains("ADD PROJECTION daily_event_counts"));
}

#[test]
fn generate_report_from_parsed_document() {
    let text = "event_table:\n  name: clicks\n  expected_events_per_day: 1000\n  retention_days: 0\n";
    let schema = parse_schema(text).unwrap();
    let report = generate_report(&schema);
    assert!(report.starts_with("CREATE TABLE clicks ("));
    assert!(report.contains("PARTITION BY toYYYYMM(timestamp)"));
    assert!(report.contains("ORDER BY (event_name, timestamp, distinct_id)"));
    assert!(!report.contains("TTL"));
}

#[test]
fn explain_report_has_three_labeled_sections() {
    let report = explain_report(&scenario_schema());
    assert!(report.starts_with("Partitioning:\n  Strategy: Daily\n  SQL:      PARTITION BY toYYYYMMDD(timestamp)\n  Reason:   Daily partitioning selected: 50000000 events/day"));
    assert!(report.contains("\n\nOrdering:\n  SQL:      ORDER BY (project_id, event_name, timestamp, distinct_id)\n  Reason:   Multi-tenant: project_id leads the key for tenant isolation."));
    assert!(report.contains("\n\nRecommendations:\n  - Enable TTL to auto-expire old data (`TTL timestamp + INTERVAL 90 DAY`)"));
    assert!(report.contains("\n  - Add a projection on `(project_id, toDate(timestamp))` for per-tenant dashboards"));
    assert!(report.ends_with("\n  - Use `LZ4` compression (ClickHouse default) — switch to `ZSTD` if storage-constrained"));
}

#[test]
fn init_message_is_fixed() {
    assert_eq!(init_message(), "Initialized default schema config.");
}
