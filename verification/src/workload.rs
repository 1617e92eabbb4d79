//! The workload profile: a normalized view of the schema's volume, tenancy
//! and retention fields that every decision component consumes.

use vstd::prelude::*;
use crate::schema::EventSchema;

verus! {

/// Volume, tenancy and retention characteristics derived from a schema.
#[derive(Debug)]
pub struct WorkloadProfile {
    pub events_per_day: u64,
    pub multi_tenant: bool,
    pub retention_days: u32,
}

/// The profile a schema derives to: a field-for-field copy of the event
/// table's volume, tenancy and retention values.
pub open spec fn spec_profile(schema: EventSchema) -> WorkloadProfile {
    WorkloadProfile {
        events_per_day: schema.event_table.expected_events_per_day,
        multi_tenant: schema.event_table.multi_tenant,
        retention_days: schema.event_table.retention_days,
    }
}

impl WorkloadProfile {
    /// Derives the workload profile from a schema: a pure field-for-field
    /// copy of the event table's volume, tenancy and retention values.
    pub fn from_schema(schema: &EventSchema) -> (r: Self)
        ensures
            r == spec_profile(*schema),
            r.events_per_day == schema.event_table.expected_events_per_day,
            r.multi_tenant == schema.event_table.multi_tenant,
            r.retention_days == schema.event_table.retention_days,
    {
        Self {
            events_per_day: schema.event_table.expected_events_per_day,
            multi_tenant: schema.event_table.multi_tenant,
            retention_days: schema.event_table.retention_days,
        }
    }
}

} // verus!
