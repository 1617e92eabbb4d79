//! The statement builder: assembles the `CREATE TABLE` statement from the
//! schema's table name, the fixed event-table column list, and the decisions
//! of the partitioning, ordering and TTL components.

use vstd::prelude::*;
use crate::ast::{col_views, ColumnExpr, ColumnView, CreateTable};
use crate::schema::EventSchema;
use crate::text::{copy_strings, views_of};

verus! {

/// The fixed five-column event-table shape: `project_id`, `timestamp`,
/// `event_name`, `distinct_id` and `properties`, none nullable.
pub open spec fn spec_event_columns() -> Seq<ColumnView> {
    seq![
        ColumnView { name: "project_id"@, data_type: "UInt32"@, nullable: false },
        ColumnView { name: "timestamp"@, data_type: "DateTime"@, nullable: false },
        ColumnView { name: "event_name"@, data_type: "LowCardinality(String)"@, nullable: false },
        ColumnView { name: "distinct_id"@, data_type: "String"@, nullable: false },
        ColumnView { name: "properties"@, data_type: "JSON"@, nullable: false },
    ]
}

/// Assembles the statement: the schema's table name, the fixed column list,
/// the `MergeTree` engine, and the caller-supplied partition expression,
/// ordering key and optional TTL expression, passed through unchanged.
pub fn build_create_table_sql(
    schema: &EventSchema,
    partition_sql: &str,
    order_by_cols: &[String],
    ttl: Option<String>,
) -> (r: CreateTable)
    ensures
        r@.table_name == schema.event_table.name@,
        r@.columns == spec_event_columns(),
        r@.engine == "MergeTree"@,
        r@.partition_by == Some(partition_sql@),
        r@.order_by == views_of(order_by_cols@),
        r@.ttl == match ttl {
            Option::Some(t) => Some(t@),
            Option::None => None::<Seq<char>>,
        },
{
    let mut columns: Vec<ColumnExpr> = Vec::new();
    columns.push(
        ColumnExpr { name: "project_id".to_owned(), data_type: "UInt32".to_owned(), nullable: false },
    );
    columns.push(
        ColumnExpr { name: "timestamp".to_owned(), data_type: "DateTime".to_owned(), nullable: false },
    );
    columns.push(
        ColumnExpr {
            name: "event_name".to_owned(),
            data_type: "LowCardinality(String)".to_owned(),
            nullable: false,
        },
    );
    columns.push(
        ColumnExpr { name: "distinct_id".to_owned(), data_type: "String".to_owned(), nullable: false },
    );
    columns.push(
        ColumnExpr { name: "properties".to_owned(), data_type: "JSON".to_owned(), nullable: false },
    );
    proof {
        assert(col_views(columns@) =~= spec_event_columns());
    }

    CreateTable {
        table_name: schema.event_table.name.clone(),
        columns,
        engine: "MergeTree".to_owned(),
        partition_by: Some(partition_sql.to_owned()),
        order_by: copy_strings(order_by_cols),
        ttl,
    }
}

} // verus!
