use sharp::errors::SharpError;
use sharp::loader::{parse_schema, schema_from_fields};

#[test]
fn loads_valid_schema_file() {
    let text = "event_table:\n  name: clicks\n  multi_tenant: true\n  expected_events_per_day: 100000\n  retention_days: 30\n";

    let schema = parse_schema(text).unwrap();
    assert_eq!(schema.event_table.name, "clicks");
    assert!(schema.event_table.multi_tenant);
    assert_eq!(schema.event_table.expected_events_per_day, 100_000);
    assert_eq!(schema.event_table.retention_days, 30);
}

#[test]
fn returns_yaml_error_for_invalid_content() {
    let result = parse_schema("not: valid: yaml: [[[\n");
    assert!(result.is_err());
    let err = result.unwrap_err();
    assert!(err.message().contains("invalid YAML schema"));
}

#[test]
fn multi_tenant_defaults_to_false() {
    let text = "event_table:\n  name: events\n  expected_events_per_day: 1000\n  retention_days: 7\n";

    let schema = parse_schema(text).unwrap();
    assert!(!schema.event_table.multi_tenant);
}

#[test]
fn missing_event_table_is_parse_error() {
    let result = parse_schema("something_else: 1\n");
    let err = result.unwrap_err();
    assert_eq!(err.message(), "invalid YAML schema: missing field `event_table`");
}

#[test]
fn missing_name_is_parse_error() {
    let text = "event_table:\n  expected_events_per_day: 1000\n  retention_days: 7\n";
    let err = parse_schema(text).unwrap_err();
    assert_eq!(err.message(), "invalid YAML schema: missing field `name`");
}

#[test]
fn wrong_type_for_volume_is_parse_error() {
    let text = "event_table:\n  name: events\n  expected_events_per_day: lots\n  retention_days: 7\n";
    let err = parse_schema(text).unwrap_err();
    assert_eq!(
        err.message(),
        "invalid YAML schema: invalid type for field `expected_events_per_day`"
    );
}

#[test]
fn negative_volume_is_parse_error() {
    let text = "event_table:\n  name: events\n  expected_events_per_day: -5\n  retention_days: 7\n";
    let err = parse_schema(text).unwrap_err();
    assert_eq!(
        err.message(),
        "invalid YAML schema: invalid type for field `expected_events_per_day`"
    );
}

#[test]
fn wrong_type_for_tenancy_is_parse_error() {
    let text = "event_table:\n  name: events\n  multi_tenant: 3\n  expected_events_per_day: 1000\n  retention_days: 7\n";
    let err = parse_schema(text).unwrap_err();
    assert_eq!(err.message(), "invalid YAML schema: invalid type for field `multi_tenant`");
}

#[test]
fn oversized_retention_is_parse_error() {
    let text = "event_table:\n  name: events\n  expected_events_per_day: 1000\n  retention_days: 5000000000\n";
    let err = parse_schema(text).unwrap_err();
    assert_eq!(
        err.message(),
        "invalid YAML schema: invalid value for field `retention_days`: out of range"
    );
}

#[test]
fn fields_assemble_with_default_tenancy() {
    let schema = schema_from_fields(
        Some(Some("events".to_string())),
        None,
        Some(Some(42)),
        Some(Some(7)),
    )
    .unwrap();
    assert_eq!(schema.event_table.name, "events");
    assert!(!schema.event_table.multi_tenant);
    assert_eq!(schema.event_table.expected_events_per_day, 42);
    assert_eq!(schema.event_table.retention_days, 7);
}

#[test]
fn fields_reject_missing_retention() {
    let result = schema_from_fields(
        Some(Some("events".to_string())),
        Some(Some(true)),
        Some(Some(42)),
        None,
    );
    let err = result.unwrap_err();
    assert!(matches!(err, SharpError::YamlError(_)));
    assert_eq!(err.message(), "invalid YAML schema: missing field `retention_days`");
}
