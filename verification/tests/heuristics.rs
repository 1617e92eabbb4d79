use sharp::heuristics::{
    analyze, HIGH_VOLUME_THRESHOLD, SHARDING_THRESHOLD, TENANT_PROJECTION_THRESHOLD,
};
use sharp::schema::{EventSchema, EventTable};
use sharp::workload::WorkloadProfile;

fn make_workload(
    events_per_day: u64,
    multi_tenant: bool,
    retention_days: u32,
) -> (EventSchema, WorkloadProfile) {
    let schema = EventSchema {
        event_table: EventTable {
            name: "events".to_string(),
            multi_tenant,
            expected_events_per_day: events_per_day,
            retention_days,
        },
    };
    let workload = WorkloadProfile {
        events_per_day,
        multi_tenant,
        retention_days,
    };
    (schema, workload)
}

#[test]
fn low_volume_single_tenant_with_retention() {
    let (schema, workload) = make_workload(1_000_000, false, 30);
    let recs = analyze(&schema, &workload);

    assert!(recs.iter().any(|r| r.contains("TTL") && r.contains("30 DAY")));
    assert!(recs.iter().any(|r| r.contains("LZ4")));
    assert!(!recs.iter().any(|r| r.contains("wide_parts_only")));
    assert!(!recs.iter().any(|r| r.contains("sharding")));
    assert!(!recs.iter().any(|r| r.contains("project_id")));
}

#[test]
fn no_retention_warns_unbounded() {
    let (schema, workload) = make_workload(1_000_000, false, 0);
    let recs = analyze(&schema, &workload);

    assert!(recs.iter().any(|r| r.contains("unbounded")));
    assert!(!recs.iter().any(|r| r.contains("TTL timestamp")));
}

#[test]
fn high_volume_enables_wide_parts() {
    let (schema, workload) = make_workload(HIGH_VOLUME_THRESHOLD, false, 90);
    let recs = analyze(&schema, &workload);

    assert!(recs.iter().any(|r| r.contains("wide_parts_only")));
    assert!(!recs.iter().any(|r| r.contains("sharding")));
}

#[test]
fn very_high_volume_recommends_sharding() {
    let (schema, workload) = make_workload(SHARDING_THRESHOLD, false, 90);
    let recs = analyze(&schema, &workload);

    assert!(recs.iter().any(|r| r.contains("wide_parts_only")));
    assert!(recs.iter().any(|r| r.contains("sharding")));
}

#[test]
fn multi_tenant_low_volume_gets_low_cardinality_only() {
    let (schema, workload) = make_workload(1_000_000, true, 90);
    let recs = analyze(&schema, &workload);

    assert!(recs.iter().any(|r| r.contains("LowCardinality")));
    assert!(!recs.iter().any(|r| r.contains("projection")));
}

#[test]
fn multi_tenant_above_projection_threshold() {
    let (schema, workload) = make_workload(TENANT_PROJECTION_THRESHOLD, true, 90);
    let recs = analyze(&schema, &workload);

    assert!(recs.iter().any(|r| r.contains("projection") && r.contains("project_id")));
    assert!(recs.iter().any(|r| r.contains("LowCardinality")));
}

#[test]
fn compression_always_recommended() {
    let (schema, workload) = make_workload(1, false, 0);
    let recs = analyze(&schema, &workload);

    assert!(recs.iter().any(|r| r.contains("LZ4") && r.contains("ZSTD")));
}

#[test]
fn below_threshold_no_high_volume_recs() {
    let (schema, workload) = make_workload(HIGH_VOLUME_THRESHOLD - 1, false, 90);
    let recs = analyze(&schema, &workload);

    assert!(!recs.iter().any(|r| r.contains("wide_parts_only")));
    assert!(!recs.iter().any(|r| r.contains("sharding")));
}

#[test]
fn multi_tenant_below_projection_threshold() {
    let (schema, workload) = make_workload(TENANT_PROJECTION_THRESHOLD - 1, true, 90);
    let recs = analyze(&schema, &workload);

    assert!(recs.iter().any(|r| r.contains("LowCardinality")));
    assert!(!recs.iter().any(|r| r.contains("projection")));
}

#[test]
fn all_rules_fire_for_max_workload() {
    let (schema, workload) = make_workload(SHARDING_THRESHOLD, true, 365);
    let recs = analyze(&schema, &workload);

    assert!(recs.iter().any(|r| r.contains("TTL")));
    assert!(recs.iter().any(|r| r.contains("wide_parts_only")));
    assert!(recs.iter().any(|r| r.contains("sharding")));
    assert!(recs.iter().any(|r| r.contains("projection")));
    assert!(recs.iter().any(|r| r.contains("LowCardinality")));
    assert!(recs.iter().any(|r| r.contains("LZ4")));
    assert_eq!(recs.len(), 6);
}

#[test]
fn minimal_workload_gets_warning_and_compression_only() {
    let (schema, workload) = make_workload(1, false, 0);
    let recs = analyze(&schema, &workload);

    assert_eq!(recs.len(), 2);
    assert!(recs[0].contains("unbounded"));
    assert!(recs[1].contains("LZ4") && recs[1].contains("ZSTD"));
}

#[test]
fn ttl_recommendation_quotes_exact_interval() {
    let (schema, workload) = make_workload(1, false, 365);
    let recs = analyze(&schema, &workload);

    assert_eq!(
        recs[0],
        "Enable TTL to auto-expire old data (`TTL timestamp + INTERVAL 365 DAY`)"
    );
}
