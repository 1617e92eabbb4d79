//! The ordering-key selector: an ordered list of sort-key columns chosen
//! from workload tenancy and volume, with its SQL rendering and a prose
//! rationale.

use vstd::prelude::*;
use crate::text::{join_strings, join_with, views_of};
use crate::workload::WorkloadProfile;

verus! {

/// Daily volume strictly above which the timestamp column is promoted
/// earlier in the ordering key.
pub const HIGH_VOLUME_THRESHOLD: u64 = 100_000_000;

/// The first index at or after `from` whose column is `timestamp`.
pub open spec fn find_timestamp(cols: Seq<Seq<char>>, from: int) -> Option<int>
    recommends
        0 <= from,
    decreases cols.len() - from,
{
    if from < 0 || from >= cols.len() {
        None
    } else if cols[from] == "timestamp"@ {
        Some(from)
    } else {
        find_timestamp(cols, from + 1)
    }
}

/// The first index at or after `from` whose column is not `project_id`.
pub open spec fn find_non_project_id(cols: Seq<Seq<char>>, from: int) -> Option<int>
    recommends
        0 <= from,
    decreases cols.len() - from,
{
    if from < 0 || from >= cols.len() {
        None
    } else if cols[from] != "project_id"@ {
        Some(from)
    } else {
        find_non_project_id(cols, from + 1)
    }
}

/// The promotion rule: `timestamp` is removed from its position and
/// reinserted at the first position whose column is not `project_id` (or at
/// the front, when every remaining column is `project_id`); a key without a
/// `timestamp` column is left unchanged.
pub open spec fn spec_promoted(cols: Seq<Seq<char>>) -> Seq<Seq<char>> {
    match find_timestamp(cols, 0) {
        Option::None => cols,
        Option::Some(pos) => {
            let remaining = cols.remove(pos);
            let insert_at = match find_non_project_id(remaining, 0) {
                Option::Some(q) => q,
                Option::None => 0,
            };
            remaining.insert(insert_at, "timestamp"@)
        },
    }
}

/// The ordering key the selector picks: `project_id` leads exactly for
/// multi-tenant workloads, and above the high-volume threshold `timestamp`
/// moves ahead of `event_name`.
pub open spec fn spec_order_key(multi_tenant: bool, events_per_day: u64) -> Seq<Seq<char>> {
    if multi_tenant {
        if events_per_day > HIGH_VOLUME_THRESHOLD {
            seq!["project_id"@, "timestamp"@, "event_name"@, "distinct_id"@]
        } else {
            seq!["project_id"@, "event_name"@, "timestamp"@, "distinct_id"@]
        }
    } else {
        if events_per_day > HIGH_VOLUME_THRESHOLD {
            seq!["timestamp"@, "event_name"@, "distinct_id"@]
        } else {
            seq!["event_name"@, "timestamp"@, "distinct_id"@]
        }
    }
}

fn index_of_timestamp(cols: &Vec<String>) -> (r: Option<usize>)
    ensures
        match r {
            Option::Some(i) => i < cols.len() && find_timestamp(views_of(cols@), 0) == Some(
                i as int,
            ),
            Option::None => find_timestamp(views_of(cols@), 0) is None,
        },
{
    let ghost dv = views_of(cols@);
    let target: String = "timestamp".to_owned();
    let mut i: usize = 0;
    while i < cols.len()
        invariant
            i <= cols.len(),
            dv == views_of(cols@),
            dv.len() == cols.len(),
            target@ == "timestamp"@,
            forall|j: int| 0 <= j < cols.len() ==> dv[j] == cols@[j]@,
            find_timestamp(dv, 0) == find_timestamp(dv, i as int),
        decreases cols.len() - i,
    {
        if cols[i] == target {
            proof {
                assert(find_timestamp(dv, i as int) == Some(i as int));
            }
            return Some(i);
        }
        proof {
            assert(find_timestamp(dv, i as int) == find_timestamp(dv, i as int + 1));
        }
        i = i + 1;
    }
    proof {
        assert(find_timestamp(dv, i as int) is None);
    }
    None
}

fn index_of_non_project_id(cols: &Vec<String>) -> (r: Option<usize>)
    ensures
        match r {
            Option::Some(i) => i < cols.len() && find_non_project_id(views_of(cols@), 0) == Some(
                i as int,
            ),
            Option::None => find_non_project_id(views_of(cols@), 0) is None,
        },
{
    let ghost dv = views_of(cols@);
    let leader: String = "project_id".to_owned();
    let mut i: usize = 0;
    while i < cols.len()
        invariant
            i <= cols.len(),
            dv == views_of(cols@),
            dv.len() == cols.len(),
            leader@ == "project_id"@,
            forall|j: int| 0 <= j < cols.len() ==> dv[j] == cols@[j]@,
            find_non_project_id(dv, 0) == find_non_project_id(dv, i as int),
        decreases cols.len() - i,
    {
        if !(cols[i] == leader) {
            proof {
                assert(find_non_project_id(dv, i as int) == Some(i as int));
            }
            return Some(i);
        }
        proof {
            assert(find_non_project_id(dv, i as int) == find_non_project_id(dv, i as int + 1));
        }
        i = i + 1;
    }
    proof {
        assert(find_non_project_id(dv, i as int) is None);
    }
    None
}

fn promote_timestamp(cols: &mut Vec<String>)
    ensures
        views_of(final(cols)@) == spec_promoted(views_of(old(cols)@)),
{
    let ghost dv0 = views_of(cols@);
    match index_of_timestamp(cols) {
        Option::None => {
        },
        Option::Some(pos) => {
            cols.remove(pos);
            proof {
                assert(views_of(cols@) =~= dv0.remove(pos as int));
            }
            let ghost dv1 = dv0.remove(pos as int);
            let insert_at: usize = match index_of_non_project_id(cols) {
                Option::Some(q) => q,
                Option::None => 0,
            };
            cols.insert(insert_at, "timestamp".to_owned());
            proof {
                assert(views_of(cols@) =~= dv1.insert(insert_at as int, "timestamp"@));
                assert(views_of(cols@) =~= spec_promoted(dv0));
            }
        },
    }
}

proof fn lemma_promoted_single_tenant()
    ensures
        spec_promoted(seq!["event_name"@, "timestamp"@, "distinct_id"@]) == seq![
            "timestamp"@,
            "event_name"@,
            "distinct_id"@,
        ],
{
    reveal_strlit("event_name");
    reveal_strlit("timestamp");
    reveal_strlit("distinct_id");
    reveal_strlit("project_id");
    let s = seq!["event_name"@, "timestamp"@, "distinct_id"@];
    assert("event_name"@.len() == 10);
    assert("timestamp"@.len() == 9);
    assert(find_timestamp(s, 1) == Some(1int));
    assert(find_timestamp(s, 0) == Some(1int));
    let remaining = s.remove(1);
    assert(remaining =~= seq!["event_name"@, "distinct_id"@]);
    assert("event_name"@[0] == 'e' && "project_id"@[0] == 'p');
    assert(find_non_project_id(remaining, 0) == Some(0int));
    assert(spec_promoted(s) == remaining.insert(0, "timestamp"@));
    assert(remaining.insert(0, "timestamp"@) =~= seq!["timestamp"@, "event_name"@, "distinct_id"@]);
}

proof fn lemma_promoted_multi_tenant()
    ensures
        spec_promoted(seq!["project_id"@, "event_name"@, "timestamp"@, "distinct_id"@]) == seq![
            "project_id"@,
            "timestamp"@,
            "event_name"@,
            "distinct_id"@,
        ],
{
    reveal_strlit("project_id");
    reveal_strlit("event_name");
    reveal_strlit("timestamp");
    reveal_strlit("distinct_id");
    let s = seq!["project_id"@, "event_name"@, "timestamp"@, "distinct_id"@];
    assert("project_id"@.len() == 10);
    assert("event_name"@.len() == 10);
    assert("timestamp"@.len() == 9);
    assert("project_id"@[0] == 'p' && "event_name"@[0] == 'e');
    assert(find_timestamp(s, 2) == Some(2int));
    assert(find_timestamp(s, 1) == Some(2int));
    assert(find_timestamp(s, 0) == Some(2int));
    let remaining = s.remove(2);
    assert(remaining =~= seq!["project_id"@, "event_name"@, "distinct_id"@]);
    assert(find_non_project_id(remaining, 1) == Some(1int));
    assert(find_non_project_id(remaining, 0) == Some(1int));
    assert(spec_promoted(s) == remaining.insert(1, "timestamp"@));
    assert(remaining.insert(1, "timestamp"@) =~= seq![
        "project_id"@,
        "timestamp"@,
        "event_name"@,
        "distinct_id"@,
    ]);
}

/// Chooses the ordering key for a workload: the tenancy-dependent base
/// sequence, with `timestamp` promoted above the high-volume threshold,
/// following [`spec_order_key`].
pub fn choose_order_by(workload: &WorkloadProfile) -> (r: Vec<String>)
    ensures
        views_of(r@) == spec_order_key(workload.multi_tenant, workload.events_per_day),
{
    let mut cols: Vec<String> = Vec::new();
    if workload.multi_tenant {
        cols.push("project_id".to_owned());
    }
    cols.push("event_name".to_owned());
    cols.push("timestamp".to_owned());
    cols.push("distinct_id".to_owned());
    proof {
        if workload.multi_tenant {
            assert(views_of(cols@) =~= seq![
                "project_id"@,
                "event_name"@,
                "timestamp"@,
                "distinct_id"@,
            ]);
        } else {
            assert(views_of(cols@) =~= seq!["event_name"@, "timestamp"@, "distinct_id"@]);
        }
    }

    if workload.events_per_day > HIGH_VOLUME_THRESHOLD {
        proof {
            if workload.multi_tenant {
                lemma_promoted_multi_tenant();
            } else {
                lemma_promoted_single_tenant();
            }
        }
        promote_timestamp(&mut cols);
    }
    cols
}

/// The ordering-key clause: `ORDER BY (` then the comma-and-space-joined
/// column names then `)`.
pub open spec fn spec_order_by_sql(cols: Seq<Seq<char>>) -> Seq<char> {
    "ORDER BY ("@ + join_with(cols, ", "@) + ")"@
}

/// Renders the ordering-key clause for the given columns.
pub fn order_by_sql(cols: &[String]) -> (r: String)
    ensures
        r@ == spec_order_by_sql(views_of(cols@)),
{
    let mut s = "ORDER BY (".to_owned();
    s.append(join_strings(cols, ", ").as_str());
    s.append(")");
    s
}

/// The rationale sentence for an ordering key: a tenancy clause, a volume
/// clause, and the final key.
pub open spec fn spec_ordering_explanation(
    multi_tenant: bool,
    events_per_day: u64,
    cols: Seq<Seq<char>>,
) -> Seq<char> {
    (if multi_tenant {
        "Multi-tenant: project_id leads the key for tenant isolation."@
    } else {
        "Single-tenant: no project_id prefix needed."@
    }) + (if events_per_day > HIGH_VOLUME_THRESHOLD {
        " High volume (>100M events/day): timestamp promoted earlier for time-range pruning."@
    } else {
        " Standard volume: event_name before timestamp optimizes per-event-type queries."@
    }) + " Final key: ("@ + join_with(cols, ", "@) + ")."@
}

/// Renders the rationale sentence for the given workload and columns.
pub fn explain(workload: &WorkloadProfile, cols: &[String]) -> (r: String)
    ensures
        r@ == spec_ordering_explanation(
            workload.multi_tenant,
            workload.events_per_day,
            views_of(cols@),
        ),
{
    let mut s = if workload.multi_tenant {
        "Multi-tenant: project_id leads the key for tenant isolation.".to_owned()
    } else {
        "Single-tenant: no project_id prefix needed.".to_owned()
    };
    if workload.events_per_day > HIGH_VOLUME_THRESHOLD {
        s.append(
            " High volume (>100M events/day): timestamp promoted earlier for time-range pruning.",
        );
    } else {
        s.append(" Standard volume: event_name before timestamp optimizes per-event-type queries.");
    }
    s.append(" Final key: (");
    s.append(join_strings(cols, ", ").as_str());
    s.append(").");
    s
}

} // verus!
