//! The partitioning-strategy selector: one of three partitioning schemes,
//! chosen from workload volume and tenancy, with its SQL rendering and a
//! prose rationale.

use vstd::prelude::*;
use crate::text::{dec_str, u64_to_dec};
use crate::workload::WorkloadProfile;

verus! {

/// The physical data-bucketing scheme applied to the table.
#[derive(Debug, PartialEq, Eq, Structural)]
pub enum PartitionStrategy {
    Monthly,
    Daily,
    DailyWithTenant,
}

/// The strategy the selector picks for a workload: monthly under five
/// million events per day, daily up to two hundred million, and above that
/// daily-with-tenant for multi-tenant workloads and daily otherwise.
pub open spec fn spec_partition_choice(w: WorkloadProfile) -> PartitionStrategy {
    if w.events_per_day < 5_000_000 {
        PartitionStrategy::Monthly
    } else if w.events_per_day <= 200_000_000 {
        PartitionStrategy::Daily
    } else if w.multi_tenant {
        PartitionStrategy::DailyWithTenant
    } else {
        PartitionStrategy::Daily
    }
}

/// The SQL partition expression of each strategy.
pub open spec fn spec_partition_sql(s: PartitionStrategy) -> Seq<char> {
    match s {
        PartitionStrategy::Monthly => "toYYYYMM(timestamp)"@,
        PartitionStrategy::Daily => "toYYYYMMDD(timestamp)"@,
        PartitionStrategy::DailyWithTenant => "tuple(project_id, toYYYYMMDD(timestamp))"@,
    }
}

/// The rationale sentence of each strategy: it names the granularity, echoes
/// the workload's daily volume and states the threshold that drove the
/// choice.
pub open spec fn spec_partition_explanation(s: PartitionStrategy, events_per_day: u64) -> Seq<
    char,
> {
    match s {
        PartitionStrategy::Monthly => "Monthly partitioning selected: "@ + dec_str(
            events_per_day as nat,
        ) + " events/day is under the 5M threshold, so monthly granularity avoids excessive part count."@,
        PartitionStrategy::Daily => "Daily partitioning selected: "@ + dec_str(
            events_per_day as nat,
        ) + " events/day falls in the 5M–200M range, balancing query pruning against part management overhead."@,
        PartitionStrategy::DailyWithTenant => "Daily + tenant partitioning selected: "@ + dec_str(
            events_per_day as nat,
        )
            + " events/day exceeds 200M with multi-tenant enabled, partitioning by (project_id, day) isolates tenant data for efficient pruning."@,
    }
}

/// The name of each strategy, as it appears in the explanation report.
pub open spec fn spec_strategy_name(s: PartitionStrategy) -> Seq<char> {
    match s {
        PartitionStrategy::Monthly => "Monthly"@,
        PartitionStrategy::Daily => "Daily"@,
        PartitionStrategy::DailyWithTenant => "DailyWithTenant"@,
    }
}

impl PartitionStrategy {
    /// The strategy's name, for the explanation report.
    pub fn name(&self) -> (r: String)
        ensures
            r@ == spec_strategy_name(*self),
    {
        match self {
            PartitionStrategy::Monthly => "Monthly".to_owned(),
            PartitionStrategy::Daily => "Daily".to_owned(),
            PartitionStrategy::DailyWithTenant => "DailyWithTenant".to_owned(),
        }
    }

    /// Renders the strategy's SQL partition expression.
    pub fn to_sql(&self) -> (r: String)
        ensures
            r@ == spec_partition_sql(*self),
    {
        match self {
            PartitionStrategy::Monthly => "toYYYYMM(timestamp)".to_owned(),
            PartitionStrategy::Daily => "toYYYYMMDD(timestamp)".to_owned(),
            PartitionStrategy::DailyWithTenant => "tuple(project_id, toYYYYMMDD(timestamp))".to_owned(),
        }
    }

    /// Renders the strategy's rationale sentence for the given workload.
    pub fn explain(&self, workload: &WorkloadProfile) -> (r: String)
        ensures
            r@ == spec_partition_explanation(*self, workload.events_per_day),
    {
        let volume = u64_to_dec(workload.events_per_day);
        match self {
            PartitionStrategy::Monthly => {
                let mut s = "Monthly partitioning selected: ".to_owned();
                s.append(volume.as_str());
                s.append(
                    " events/day is under the 5M threshold, so monthly granularity avoids excessive part count.",
                );
                s
            },
            PartitionStrategy::Daily => {
                let mut s = "Daily partitioning selected: ".to_owned();
                s.append(volume.as_str());
                s.append(
                    " events/day falls in the 5M–200M range, balancing query pruning against part management overhead.",
                );
                s
            },
            PartitionStrategy::DailyWithTenant => {
                let mut s = "Daily + tenant partitioning selected: ".to_owned();
                s.append(volume.as_str());
                s.append(
                    " events/day exceeds 200M with multi-tenant enabled, partitioning by (project_id, day) isolates tenant data for efficient pruning.",
                );
                s
            },
        }
    }
}

/// Chooses the partitioning strategy for a workload, following the
/// volume-and-tenancy rule stated by [`spec_partition_choice`].
pub fn choose_partition_strategy(workload: &WorkloadProfile) -> (r: PartitionStrategy)
    ensures
        r == spec_partition_choice(*workload),
{
    if workload.events_per_day < 5_000_000 {
        PartitionStrategy::Monthly
    } else if workload.events_per_day <= 200_000_000 {
        PartitionStrategy::Daily
    } else if workload.multi_tenant {
        PartitionStrategy::DailyWithTenant
    } else {
        PartitionStrategy::Daily
    }
}

} // verus!
