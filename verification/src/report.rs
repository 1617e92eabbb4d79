//! Report assembly for the two schema-consuming flows: the generated DDL
//! text (statement, blank line, projection) and the labeled explanation
//! report (partitioning, ordering, recommendations).

use vstd::prelude::*;
use crate::ast::{spec_create_table_sql, CreateTableView};
use crate::builder::{build_create_table_sql, spec_event_columns};
use crate::heuristics::{analyze, spec_recommendations};
use crate::ordering::{
    choose_order_by,
    explain,
    order_by_sql,
    spec_order_by_sql,
    spec_order_key,
    spec_ordering_explanation,
};
use crate::partitioning::{
    choose_partition_strategy,
    spec_partition_choice,
    spec_partition_explanation,
    spec_partition_sql,
    spec_strategy_name,
};
use crate::projections::{daily_event_projection, spec_daily_event_projection};
use crate::schema::EventSchema;
use crate::text::views_of;
use crate::ttl::{spec_ttl_expression, suggest};
use crate::workload::{spec_profile, WorkloadProfile};

verus! {

/// The statement the builder assembles for a schema name and workload: the
/// fixed columns and engine, and the partitioning, ordering and TTL
/// decisions for that workload.
pub open spec fn spec_generated_table(name: Seq<char>, w: WorkloadProfile) -> CreateTableView {
    CreateTableView {
        table_name: name,
        columns: spec_event_columns(),
        engine: "MergeTree"@,
        partition_by: Some(spec_partition_sql(spec_partition_choice(w))),
        order_by: spec_order_key(w.multi_tenant, w.events_per_day),
        ttl: if w.retention_days > 0 {
            Some(spec_ttl_expression(w.retention_days))
        } else {
            None
        },
    }
}

/// The full output of the generation flow: the rendered statement, a blank
/// line, and the projection statement.
pub open spec fn spec_generate_report(name: Seq<char>, w: WorkloadProfile) -> Seq<char> {
    spec_create_table_sql(spec_generated_table(name, w)) + "\n\n"@ + spec_daily_event_projection(
        name,
    )
}

/// Produces the generation flow's output for a loaded schema.
pub fn generate_report(schema: &EventSchema) -> (r: String)
    ensures
        r@ == spec_generate_report(schema.event_table.name@, spec_profile(*schema)),
{
    let workload = WorkloadProfile::from_schema(schema);
    let partition = choose_partition_strategy(&workload);
    let order_cols = choose_order_by(&workload);
    let ttl = suggest(&workload);
    let statement = build_create_table_sql(
        schema,
        partition.to_sql().as_str(),
        order_cols.as_slice(),
        ttl,
    );
    proof {
        assert(statement@ == spec_generated_table(schema.event_table.name@, spec_profile(*schema)));
    }
    let mut out = statement.to_sql();
    out.append("\n\n");
    out.append(daily_event_projection(schema.event_table.name.as_str()).as_str());
    out
}

/// The recommendation bullet lines: `\n  - ` before each recommendation.
pub open spec fn spec_bullet_lines(recs: Seq<Seq<char>>) -> Seq<char>
    decreases recs.len(),
{
    if recs.len() == 0 {
        Seq::empty()
    } else {
        "\n  - "@ + recs[0] + spec_bullet_lines(recs.drop_first())
    }
}

proof fn lemma_bullet_lines_push(recs: Seq<Seq<char>>, rec: Seq<char>)
    ensures
        spec_bullet_lines(recs.push(rec)) == spec_bullet_lines(recs) + "\n  - "@ + rec,
    decreases recs.len(),
{
    if recs.len() == 0 {
        let pushed = recs.push(rec);
        assert(pushed[0] == rec);
        assert(pushed.drop_first() =~= Seq::<Seq<char>>::empty());
        assert(spec_bullet_lines(pushed.drop_first()) == Seq::<char>::empty());
        assert(spec_bullet_lines(pushed) == "\n  - "@ + rec + Seq::<char>::empty());
        assert(spec_bullet_lines(pushed) =~= spec_bullet_lines(recs) + "\n  - "@ + rec);
    } else {
        assert(recs.push(rec).drop_first() =~= recs.drop_first().push(rec));
        lemma_bullet_lines_push(recs.drop_first(), rec);
        assert(spec_bullet_lines(recs.push(rec)) =~= spec_bullet_lines(recs) + "\n  - "@ + rec);
    }
}

/// The full output of the explanation flow: the partitioning section, the
/// ordering section, and the recommendation bullets.
pub open spec fn spec_explain_report(w: WorkloadProfile) -> Seq<char> {
    "Partitioning:\n  Strategy: "@ + spec_strategy_name(spec_partition_choice(w))
        + "\n  SQL:      PARTITION BY "@ + spec_partition_sql(spec_partition_choice(w))
        + "\n  Reason:   "@ + spec_partition_explanation(spec_partition_choice(w), w.events_per_day)
        + "\n\nOrdering:\n  SQL:      "@ + spec_order_by_sql(
        spec_order_key(w.multi_tenant, w.events_per_day),
    ) + "\n  Reason:   "@ + spec_ordering_explanation(
        w.multi_tenant,
        w.events_per_day,
        spec_order_key(w.multi_tenant, w.events_per_day),
    ) + "\n\nRecommendations:"@ + spec_bullet_lines(spec_recommendations(w))
}

/// Produces the explanation flow's output for a loaded schema.
pub fn explain_report(schema: &EventSchema) -> (r: String)
    ensures
        r@ == spec_explain_report(spec_profile(*schema)),
{
    let ghost w = spec_profile(*schema);
    let workload = WorkloadProfile::from_schema(schema);
    let partition = choose_partition_strategy(&workload);
    let order_cols = choose_order_by(&workload);

    let mut out = "Partitioning:\n  Strategy: ".to_owned();
    out.append(partition.name().as_str());
    out.append("\n  SQL:      PARTITION BY ");
    out.append(partition.to_sql().as_str());
    out.append("\n  Reason:   ");
    out.append(partition.explain(&workload).as_str());
    out.append("\n\nOrdering:\n  SQL:      ");
    out.append(order_by_sql(order_cols.as_slice()).as_str());
    out.append("\n  Reason:   ");
    out.append(explain(&workload, order_cols.as_slice()).as_str());
    out.append("\n\nRecommendations:");
    let ghost head = out@;

    let recommendations = analyze(schema, &workload);
    let ghost rv = views_of(recommendations@);
    proof {
        assert(rv.take(0) =~= Seq::<Seq<char>>::empty());
        assert(head + spec_bullet_lines(rv.take(0)) =~= head);
    }
    let mut i: usize = 0;
    while i < recommendations.len()
        invariant
            i <= recommendations.len(),
            rv == views_of(recommendations@),
            rv.len() == recommendations.len(),
            forall|j: int| 0 <= j < recommendations.len() ==> rv[j] == recommendations@[j]@,
            out@ == head + spec_bullet_lines(rv.take(i as int)),
        decreases recommendations.len() - i,
    {
        out.append("\n  - ");
        out.append(recommendations[i].as_str());
        proof {
            lemma_bullet_lines_push(rv.take(i as int), rv[i as int]);
            assert(rv.take(i as int).push(rv[i as int]) =~= rv.take(i as int + 1));
            assert(out@ =~= head + spec_bullet_lines(rv.take(i as int + 1)));
        }
        i = i + 1;
    }
    proof {
        assert(rv.take(recommendations.len() as int) =~= rv);
        assert(out@ =~= spec_explain_report(w));
    }
    out
}

} // verus!
