//! The recommendation engine: a fixed rule set over the workload that yields
//! an ordered list of free-text operational recommendations.

use vstd::prelude::*;
use crate::schema::EventSchema;
use crate::text::{dec_str, u64_to_dec, views_of};
use crate::workload::WorkloadProfile;

verus! {

/// Daily volume at or above which high-throughput ingestion settings are
/// recommended.
pub const HIGH_VOLUME_THRESHOLD: u64 = 100_000_000;

/// Daily volume at or above which sharding is recommended.
pub const SHARDING_THRESHOLD: u64 = 500_000_000;

/// Daily volume at or above which a per-tenant projection is recommended for
/// multi-tenant workloads.
pub const TENANT_PROJECTION_THRESHOLD: u64 = 50_000_000;

/// The retention recommendation for a positive retention period.
pub open spec fn spec_ttl_recommendation(retention_days: u32) -> Seq<char> {
    "Enable TTL to auto-expire old data (`TTL timestamp + INTERVAL "@ + dec_str(
        retention_days as nat,
    ) + " DAY`)"@
}

/// The retention rule: exactly one of the TTL recommendation and the
/// unbounded-growth warning, depending on whether a retention period is set.
pub open spec fn spec_retention_part(w: WorkloadProfile) -> Seq<Seq<char>> {
    if w.retention_days > 0 {
        seq![spec_ttl_recommendation(w.retention_days)]
    } else {
        seq!["Warn: data will grow unbounded without a retention policy"@]
    }
}

/// The high-throughput ingestion rule.
pub open spec fn spec_ingestion_part(w: WorkloadProfile) -> Seq<Seq<char>> {
    if w.events_per_day >= HIGH_VOLUME_THRESHOLD {
        seq!["Enable `wide_parts_only` merge-tree setting for high-throughput ingestion"@]
    } else {
        Seq::empty()
    }
}

/// The sharding rule.
pub open spec fn spec_sharding_part(w: WorkloadProfile) -> Seq<Seq<char>> {
    if w.events_per_day >= SHARDING_THRESHOLD {
        seq!["Consider sharding across multiple ClickHouse nodes"@]
    } else {
        Seq::empty()
    }
}

/// The per-tenant projection rule.
pub open spec fn spec_tenant_projection_part(w: WorkloadProfile) -> Seq<Seq<char>> {
    if w.multi_tenant && w.events_per_day >= TENANT_PROJECTION_THRESHOLD {
        seq!["Add a projection on `(project_id, toDate(timestamp))` for per-tenant dashboards"@]
    } else {
        Seq::empty()
    }
}

/// The tenant column-encoding rule.
pub open spec fn spec_tenant_encoding_part(w: WorkloadProfile) -> Seq<Seq<char>> {
    if w.multi_tenant {
        seq!["Ensure `project_id` has `LowCardinality(String)` type for efficient filtering"@]
    } else {
        Seq::empty()
    }
}

/// All recommendations for a workload, in rule-evaluation order: retention,
/// ingestion, sharding, tenant projection, tenant encoding, and always the
/// compression guidance.
pub open spec fn spec_recommendations(w: WorkloadProfile) -> Seq<Seq<char>> {
    spec_retention_part(w) + spec_ingestion_part(w) + spec_sharding_part(w)
        + spec_tenant_projection_part(w) + spec_tenant_encoding_part(w)
        + seq!["Use `LZ4` compression (ClickHouse default) — switch to `ZSTD` if storage-constrained"@]
}

/// Applies the fixed rule set to the workload and returns the resulting
/// recommendations, in rule-evaluation order. The schema parameter plays no
/// part in the decision; the rules read the workload alone.
pub fn analyze(_schema: &EventSchema, workload: &WorkloadProfile) -> (r: Vec<String>)
    ensures
        views_of(r@) == spec_recommendations(*workload),
{
    let ghost w = *workload;
    let mut recommendations: Vec<String> = Vec::new();

    if workload.retention_days > 0 {
        let mut s = "Enable TTL to auto-expire old data (`TTL timestamp + INTERVAL ".to_owned();
        s.append(u64_to_dec(workload.retention_days as u64).as_str());
        s.append(" DAY`)");
        recommendations.push(s);
    } else {
        recommendations.push("Warn: data will grow unbounded without a retention policy".to_owned());
    }
    proof {
        assert(views_of(recommendations@) =~= spec_retention_part(w));
    }

    if workload.events_per_day >= HIGH_VOLUME_THRESHOLD {
        recommendations.push(
            "Enable `wide_parts_only` merge-tree setting for high-throughput ingestion".to_owned(),
        );
    }
    proof {
        assert(views_of(recommendations@) =~= spec_retention_part(w) + spec_ingestion_part(w));
    }

    if workload.events_per_day >= SHARDING_THRESHOLD {
        recommendations.push("Consider sharding across multiple ClickHouse nodes".to_owned());
    }
    proof {
        assert(views_of(recommendations@) =~= spec_retention_part(w) + spec_ingestion_part(w)
            + spec_sharding_part(w));
    }

    if workload.multi_tenant && workload.events_per_day >= TENANT_PROJECTION_THRESHOLD {
        recommendations.push(
            "Add a projection on `(project_id, toDate(timestamp))` for per-tenant dashboards".to_owned(),
        );
    }
    proof {
        assert(views_of(recommendations@) =~= spec_retention_part(w) + spec_ingestion_part(w)
            + spec_sharding_part(w) + spec_tenant_projection_part(w));
    }

    if workload.multi_tenant {
        recommendations.push(
            "Ensure `project_id` has `LowCardinality(String)` type for efficient filtering".to_owned(),
        );
    }
    proof {
        assert(views_of(recommendations@) =~= spec_retention_part(w) + spec_ingestion_part(w)
            + spec_sharding_part(w) + spec_tenant_projection_part(w) + spec_tenant_encoding_part(w));
    }

    recommendations.push(
        "Use `LZ4` compression (ClickHouse default) — switch to `ZSTD` if storage-constrained".to_owned(),
    );
    proof {
        assert(views_of(recommendations@) =~= spec_recommendations(w));
    }

    recommendations
}

} // verus!
