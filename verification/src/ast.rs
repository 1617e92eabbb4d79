//! The SQL abstract syntax tree and its renderer: a structural
//! representation of a `CREATE TABLE` statement with a deterministic textual
//! rendering.

use vstd::prelude::*;
use crate::text::{join_strings, join_with, views_of};

verus! {

/// One column of a `CREATE TABLE` statement.
#[derive(Debug)]
pub struct ColumnExpr {
    pub name: String,
    pub data_type: String,
    pub nullable: bool,
}

/// The mathematical model of a column: its name and type as character
/// sequences, and its nullability.
pub ghost struct ColumnView {
    pub name: Seq<char>,
    pub data_type: Seq<char>,
    pub nullable: bool,
}

impl View for ColumnExpr {
    type V = ColumnView;

    open spec fn view(&self) -> ColumnView {
        ColumnView { name: self.name@, data_type: self.data_type@, nullable: self.nullable }
    }
}

/// The models of a sequence of columns, in order.
pub open spec fn col_views(cols: Seq<ColumnExpr>) -> Seq<ColumnView> {
    Seq::new(cols.len(), |i: int| cols[i]@)
}

/// A `CREATE TABLE` statement: name, columns, engine, and the optional
/// partition, ordering and TTL clauses.
#[derive(Debug)]
pub struct CreateTable {
    pub table_name: String,
    pub columns: Vec<ColumnExpr>,
    pub engine: String,
    pub partition_by: Option<String>,
    pub order_by: Vec<String>,
    pub ttl: Option<String>,
}

/// The mathematical model of a statement, over character sequences.
pub ghost struct CreateTableView {
    pub table_name: Seq<char>,
    pub columns: Seq<ColumnView>,
    pub engine: Seq<char>,
    pub partition_by: Option<Seq<char>>,
    pub order_by: Seq<Seq<char>>,
    pub ttl: Option<Seq<char>>,
}

impl View for CreateTable {
    type V = CreateTableView;

    open spec fn view(&self) -> CreateTableView {
        CreateTableView {
            table_name: self.table_name@,
            columns: col_views(self.columns@),
            engine: self.engine@,
            partition_by: match self.partition_by {
                Option::Some(p) => Some(p@),
                Option::None => None,
            },
            order_by: views_of(self.order_by@),
            ttl: match self.ttl {
                Option::Some(t) => Some(t@),
                Option::None => None,
            },
        }
    }
}

/// The rendered type of a column: the bare type, or the type wrapped in
/// `Nullable(...)` when the column is nullable.
pub open spec fn spec_column_type(c: ColumnView) -> Seq<char> {
    if c.nullable {
        "Nullable("@ + c.data_type + ")"@
    } else {
        c.data_type
    }
}

/// The rendered definition of a column: four spaces, the name, a space, the
/// rendered type.
pub open spec fn spec_column_def(c: ColumnView) -> Seq<char> {
    "    "@ + c.name + " "@ + spec_column_type(c)
}

/// The rendered definitions of a sequence of columns, in order.
pub open spec fn spec_column_defs(cols: Seq<ColumnView>) -> Seq<Seq<char>> {
    Seq::new(cols.len(), |i: int| spec_column_def(cols[i]))
}

/// The fixed leading part of a rendered statement: the table name, the
/// column definitions joined by `,` and a line break, and the engine clause.
pub open spec fn spec_table_header(t: CreateTableView) -> Seq<char> {
    "CREATE TABLE "@ + t.table_name + " (\n"@ + join_with(spec_column_defs(t.columns), ",\n"@)
        + "\n) ENGINE = "@ + t.engine
}

/// The partition clause segment; empty when no partition expression is set.
pub open spec fn spec_partition_clause(t: CreateTableView) -> Seq<char> {
    match t.partition_by {
        Option::Some(p) => "\nPARTITION BY "@ + p,
        Option::None => Seq::empty(),
    }
}

/// The ordering clause segment; empty when the ordering key is empty.
pub open spec fn spec_order_clause(t: CreateTableView) -> Seq<char> {
    if t.order_by.len() > 0 {
        "\nORDER BY ("@ + join_with(t.order_by, ", "@) + ")"@
    } else {
        Seq::empty()
    }
}

/// The TTL clause segment; empty when no TTL expression is set.
pub open spec fn spec_ttl_clause(t: CreateTableView) -> Seq<char> {
    match t.ttl {
        Option::Some(x) => "\nTTL "@ + x,
        Option::None => Seq::empty(),
    }
}

/// The full rendered statement: header, then the partition, ordering and TTL
/// segments in that fixed order, then the terminating `;`.
pub open spec fn spec_create_table_sql(t: CreateTableView) -> Seq<char> {
    spec_table_header(t) + spec_partition_clause(t) + spec_order_clause(t) + spec_ttl_clause(t)
        + ";"@
}

impl CreateTable {
    /// Renders the statement as DDL text, following
    /// [`spec_create_table_sql`].
    pub fn to_sql(&self) -> (r: String)
        ensures
            r@ == spec_create_table_sql(self@),
    {
        let ghost cv = col_views(self.columns@);
        let mut sql = "CREATE TABLE ".to_owned();
        sql.append(self.table_name.as_str());
        sql.append(" (\n");

        let mut col_defs: Vec<String> = Vec::new();
        let mut i: usize = 0;
        proof {
            assert(views_of(col_defs@) =~= spec_column_defs(cv).take(0));
        }
        while i < self.columns.len()
            invariant
                i <= self.columns.len(),
                cv == col_views(self.columns@),
                cv.len() == self.columns.len(),
                views_of(col_defs@) == spec_column_defs(cv).take(i as int),
            decreases self.columns.len() - i,
        {
            let c = &self.columns[i];
            let mut def = "    ".to_owned();
            def.append(c.name.as_str());
            def.append(" ");
            if c.nullable {
                let mut typ = "Nullable(".to_owned();
                typ.append(c.data_type.as_str());
                typ.append(")");
                def.append(typ.as_str());
            } else {
                def.append(c.data_type.as_str());
            }
            proof {
                assert(def@ == spec_column_def(cv[i as int]));
            }
            let ghost before = col_defs@;
            col_defs.push(def);
            proof {
                assert(views_of(before).len() == before.len());
                assert(before.len() == i as int);
                assert(col_defs@ == before.push(def));
                assert forall|j: int| 0 <= j < i as int + 1 implies views_of(col_defs@)[j]
                    == spec_column_defs(cv).take(i as int + 1)[j] by {
                    if j < i as int {
                        assert(col_defs@[j] == before[j]);
                        assert(views_of(before)[j] == spec_column_defs(cv).take(i as int)[j]);
                    }
                }
                assert(views_of(col_defs@) =~= spec_column_defs(cv).take(i as int + 1));
            }
            i = i + 1;
        }
        proof {
            assert(spec_column_defs(cv).take(self.columns.len() as int) =~= spec_column_defs(cv));
        }
        sql.append(join_strings(col_defs.as_slice(), ",\n").as_str());
        sql.append("\n) ENGINE = ");
        sql.append(self.engine.as_str());
        proof {
            assert(sql@ == spec_table_header(self@));
        }

        match &self.partition_by {
            Option::Some(p) => {
                let mut clause = "\nPARTITION BY ".to_owned();
                clause.append(p.as_str());
                sql.append(clause.as_str());
            },
            Option::None => {
            },
        }
        proof {
            assert(sql@ =~= spec_table_header(self@) + spec_partition_clause(self@));
        }

        if self.order_by.len() > 0 {
            let mut clause = "\nORDER BY (".to_owned();
            clause.append(join_strings(self.order_by.as_slice(), ", ").as_str());
            clause.append(")");
            sql.append(clause.as_str());
        }
        proof {
            assert(sql@ =~= spec_table_header(self@) + spec_partition_clause(self@)
                + spec_order_clause(self@));
        }

        match &self.ttl {
            Option::Some(t) => {
                let mut clause = "\nTTL ".to_owned();
                clause.append(t.as_str());
                sql.append(clause.as_str());
            },
            Option::None => {
            },
        }
        sql.append(";");
        proof {
            assert(sql@ =~= spec_create_table_sql(self@));
        }
        sql
    }
}

/// In a statement with the partition, ordering and TTL clauses all present,
/// the rendered text places the engine-bearing header first, then the
/// partition clause, then the ordering clause, then the TTL clause, and ends
/// with `;`.
pub proof fn lemma_rendered_clause_order(t: CreateTableView)
    requires
        t.partition_by is Some,
        t.order_by.len() > 0,
        t.ttl is Some,
    ensures
        spec_create_table_sql(t) == spec_table_header(t) + ("\nPARTITION BY "@
            + t.partition_by->0) + ("\nORDER BY ("@ + join_with(t.order_by, ", "@) + ")"@) + (
        "\nTTL "@ + t.ttl->0) + ";"@,
        spec_create_table_sql(t).len() > 0,
        spec_create_table_sql(t).last() == ';',
{
    reveal_strlit(";");
    assert(spec_create_table_sql(t).last() == ';');
}

/// Omitting the partition clause (all other fields equal) removes exactly
/// the partition segment from the rendered text.
pub proof fn lemma_render_without_partition(t: CreateTableView, u: CreateTableView)
    requires
        u.table_name == t.table_name,
        u.columns == t.columns,
        u.engine == t.engine,
        u.order_by == t.order_by,
        u.ttl == t.ttl,
        t.partition_by is Some,
        u.partition_by is None,
    ensures
        spec_create_table_sql(t) == spec_table_header(t) + ("\nPARTITION BY "@
            + t.partition_by->0) + spec_order_clause(t) + spec_ttl_clause(t) + ";"@,
        spec_create_table_sql(u) =~= spec_table_header(t) + spec_order_clause(t) + spec_ttl_clause(
            t,
        ) + ";"@,
{
}

/// Omitting the ordering clause (all other fields equal) removes exactly the
/// ordering segment from the rendered text.
pub proof fn lemma_render_without_order(t: CreateTableView, u: CreateTableView)
    requires
        u.table_name == t.table_name,
        u.columns == t.columns,
        u.engine == t.engine,
        u.partition_by == t.partition_by,
        u.ttl == t.ttl,
        t.order_by.len() > 0,
        u.order_by.len() == 0,
    ensures
        spec_create_table_sql(t) == spec_table_header(t) + spec_partition_clause(t) + ("\nORDER BY ("@
            + join_with(t.order_by, ", "@) + ")"@) + spec_ttl_clause(t) + ";"@,
        spec_create_table_sql(u) =~= spec_table_header(t) + spec_partition_clause(t)
            + spec_ttl_clause(t) + ";"@,
{
}

/// Omitting the TTL clause (all other fields equal) removes exactly the TTL
/// segment from the rendered text.
pub proof fn lemma_render_without_ttl(t: CreateTableView, u: CreateTableView)
    requires
        u.table_name == t.table_name,
        u.columns == t.columns,
        u.engine == t.engine,
        u.partition_by == t.partition_by,
        u.order_by == t.order_by,
        t.ttl is Some,
        u.ttl is None,
    ensures
        spec_create_table_sql(t) == spec_table_header(t) + spec_partition_clause(t)
            + spec_order_clause(t) + ("\nTTL "@ + t.ttl->0) + ";"@,
        spec_create_table_sql(u) =~= spec_table_header(t) + spec_partition_clause(t)
            + spec_order_clause(t) + ";"@,
{
}

} // verus!
