//! The projection-SQL generator: a fixed supplementary statement that adds a
//! per-day, per-tenant, per-event-type aggregate projection to the table.

use vstd::prelude::*;

verus! {

/// The projection statement for a table: the only variable part is the table
/// name; the rest of the statement is a fixed template.
pub open spec fn spec_daily_event_projection(table_name: Seq<char>) -> Seq<char> {
    "ALTER TABLE "@ + table_name
        + "\nADD PROJECTION daily_event_counts\n(\n    SELECT\n        project_id,\n        toDate(timestamp) AS day,\n        event_name,\n        count()\n    GROUP BY project_id, day, event_name\n);"@
}

/// Emits the daily-event-counts projection statement for `table_name`.
pub fn daily_event_projection(table_name: &str) -> (r: String)
    ensures
        r@ == spec_daily_event_projection(table_name@),
{
    let mut s = "ALTER TABLE ".to_owned();
    s.append(table_name);
    s.append(
        "\nADD PROJECTION daily_event_counts\n(\n    SELECT\n        project_id,\n        toDate(timestamp) AS day,\n        event_name,\n        count()\n    GROUP BY project_id, day, event_name\n);",
    );
    s
}

} // verus!
