//! The canonical shape of the user-supplied configuration: one event table
//! with a name, a tenancy flag, an expected daily event volume and a
//! retention period in days.

use vstd::prelude::*;

verus! {

/// One analytics event table as declared in the configuration document.
#[derive(Debug)]
pub struct EventTable {
    /// Target table identifier; required in the configuration document.
    pub name: String,
    /// Whether rows carry several tenants; defaults to false when the
    /// configuration document omits the field.
    pub multi_tenant: bool,
    /// Expected ingested events per day; required.
    pub expected_events_per_day: u64,
    /// Retention window in days; required, and zero means "no retention
    /// policy".
    pub retention_days: u32,
}

/// The configuration root: exactly one event table per document.
#[derive(Debug)]
pub struct EventSchema {
    pub event_table: EventTable,
}

} // verus!
