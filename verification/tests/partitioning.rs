use sharp::partitioning::{choose_partition_strategy, PartitionStrategy};
use sharp::workload::WorkloadProfile;

fn profile(events_per_day: u64, multi_tenant: bool) -> WorkloadProfile {
    WorkloadProfile {
        events_per_day,
        multi_tenant,
        retention_days: 90,
    }
}

#[test]
fn low_volume_uses_monthly() {
    let w = profile(1_000_000, false);
    assert_eq!(choose_partition_strategy(&w), PartitionStrategy::Monthly);
}

#[test]
fn medium_volume_uses_daily() {
    let w = profile(50_000_000, false);
    assert_eq!(choose_partition_strategy(&w), PartitionStrategy::Daily);
}

#[test]
fn boundary_5m_uses_daily() {
    let w = profile(5_000_000, false);
    assert_eq!(choose_partition_strategy(&w), PartitionStrategy::Daily);
}

#[test]
fn boundary_200m_uses_daily() {
    let w = profile(200_000_000, false);
    assert_eq!(choose_partition_strategy(&w), PartitionStrategy::Daily);
}

#[test]
fn high_volume_multi_tenant_uses_daily_with_tenant() {
    let w = profile(500_000_000, true);
    assert_eq!(
        choose_partition_strategy(&w),
        PartitionStrategy::DailyWithTenant
    );
}

#[test]
fn high_volume_single_tenant_falls_back_to_daily() {
    let w = profile(500_000_000, false);
    assert_eq!(choose_partition_strategy(&w), PartitionStrategy::Daily);
}

#[test]
fn monthly_sql() {
    assert_eq!(PartitionStrategy::Monthly.to_sql(), "toYYYYMM(timestamp)");
}

#[test]
fn daily_sql() {
    assert_eq!(PartitionStrategy::Daily.to_sql(), "toYYYYMMDD(timestamp)");
}

#[test]
fn daily_with_tenant_sql() {
    assert_eq!(
        PartitionStrategy::DailyWithTenant.to_sql(),
        "tuple(project_id, toYYYYMMDD(timestamp))"
    );
}

#[test]
fn boundary_just_below_5m_uses_monthly() {
    let w = profile(4_999_999, false);
    assert_eq!(choose_partition_strategy(&w), PartitionStrategy::Monthly);
}

#[test]
fn boundary_just_above_200m_depends_on_tenancy() {
    let multi = profile(200_000_001, true);
    assert_eq!(
        choose_partition_strategy(&multi),
        PartitionStrategy::DailyWithTenant
    );
    let single = profile(200_000_001, false);
    assert_eq!(choose_partition_strategy(&single), PartitionStrategy::Daily);
}

#[test]
fn monthly_explanation_echoes_volume() {
    let w = profile(1_000_000, false);
    let strategy = choose_partition_strategy(&w);
    let reason = strategy.explain(&w);
    assert_eq!(
        reason,
        "Monthly partitioning selected: 1000000 events/day is under the 5M threshold, \
         so monthly granularity avoids excessive part count."
    );
}

#[test]
fn strategy_names_match_variants() {
    assert_eq!(PartitionStrategy::Monthly.name(), "Monthly");
    assert_eq!(PartitionStrategy::Daily.name(), "Daily");
    assert_eq!(PartitionStrategy::DailyWithTenant.name(), "DailyWithTenant");
}
