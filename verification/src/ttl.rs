//! The TTL suggester: derives an optional retention expression from the
//! workload's retention period.

use vstd::prelude::*;
use crate::text::{dec_str, u64_to_dec};
use crate::workload::WorkloadProfile;

verus! {

/// The TTL expression for a positive retention period of `retention_days`.
pub open spec fn spec_ttl_expression(retention_days: u32) -> Seq<char> {
    "timestamp + INTERVAL "@ + dec_str(retention_days as nat) + " DAY"@
}

/// Suggests a TTL expression: `timestamp + INTERVAL <retention_days> DAY`
/// when the retention period is positive, and nothing when it is zero.
pub fn suggest(workload: &WorkloadProfile) -> (r: Option<String>)
    ensures
        match r {
            Some(expr) => workload.retention_days > 0 && expr@ == spec_ttl_expression(
                workload.retention_days,
            ),
            None => workload.retention_days == 0,
        },
{
    if workload.retention_days > 0 {
        let mut s = "timestamp + INTERVAL ".to_owned();
        s.append(u64_to_dec(workload.retention_days as u64).as_str());
        s.append(" DAY");
        Some(s)
    } else {
        None
    }
}

} // verus!
