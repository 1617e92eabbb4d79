use sharp::ttl::suggest;
use sharp::workload::WorkloadProfile;

fn profile(retention_days: u32) -> WorkloadProfile {
    WorkloadProfile {
        events_per_day: 1_000_000,
        multi_tenant: false,
        retention_days,
    }
}

#[test]
fn suggests_ttl_for_positive_retention() {
    let result = suggest(&profile(90));
    assert_eq!(result, Some("timestamp + INTERVAL 90 DAY".to_string()));
}

#[test]
fn suggests_ttl_for_one_day() {
    let result = suggest(&profile(1));
    assert_eq!(result, Some("timestamp + INTERVAL 1 DAY".to_string()));
}

#[test]
fn returns_none_for_zero_retention() {
    let result = suggest(&profile(0));
    assert_eq!(result, None);
}

#[test]
fn renders_large_retention_exactly() {
    let result = suggest(&profile(4_294_967_295));
    assert_eq!(
        result,
        Some("timestamp + INTERVAL 4294967295 DAY".to_string())
    );
}
