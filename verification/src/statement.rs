//! The statement processor: classifies the plan of each statement of a query, puts the
//! named ones into the catalog and collects the others as outputs.

use vstd::prelude::*;
use crate::catalog::ArroyoSchemaProvider;
use crate::error::{failure, ErrorKind, Failure, SqlError};
use crate::resolve::{resolve_plan, resolved_fields};
use crate::plan::LogicalPlan;
use crate::tables::{ScalarFunction, Table};
use crate::text::{blank, is_blank};
use crate::types::{fields_view, FieldView};

verus! {

/// The query that a statement runs: what a view is defined as, what an insert writes, or
/// the statement itself.
pub open spec fn statement_plan(statement: LogicalPlan) -> LogicalPlan {
    match statement {
        LogicalPlan::CreateView { input, .. } => *input,
        LogicalPlan::CreateMemoryTable { input, .. } => *input,
        LogicalPlan::Insert { input, .. } => *input,
        _ => statement,
    }
}

/// The table that a statement stands for: a view for `CREATE VIEW` and `CREATE TABLE AS`,
/// an insert for `INSERT INTO`, and a table without a name for anything else.
pub open spec fn classify(statement: LogicalPlan) -> Table {
    match statement {
        LogicalPlan::CreateView { name, input } => Table::TableFromQuery {
            name,
            logical_plan: *input,
        },
        LogicalPlan::CreateMemoryTable { name, input } => Table::TableFromQuery {
            name,
            logical_plan: *input,
        },
        LogicalPlan::Insert { table_name, input } => Table::InsertQuery {
            sink_name: table_name,
            logical_plan: *input,
        },
        _ => Table::Anonymous { logical_plan: statement },
    }
}

/// What a statement comes to against the given tables and functions: its table, where its
/// query resolves and is well-typed, and else the reason why it does not. Whether the
/// compiler has operators for the query is not asked here.
pub open spec fn processed(
    tables: Map<Seq<char>, Table>,
    functions: Map<Seq<char>, ScalarFunction>,
    statement: LogicalPlan,
) -> Result<Table, Failure> {
    match resolved_fields(tables, functions, statement_plan(statement), crate::tables::view_depth(tables)) {
        Ok(_) => Ok(classify(statement)),
        Err(e) => Err(e),
    }
}

/// The tables of a catalog and the outputs collected so far.
pub struct BuilderState {
    pub tables: Map<Seq<char>, Table>,
    pub outputs: Seq<Table>,
}

/// The state after a table was taken in: a named table goes into the catalog, in place of
/// any table of that name, and a table without a name is one more output.
pub open spec fn taken(s: BuilderState, table: Table) -> BuilderState {
    match table.name_view() {
        Some(name) => BuilderState { tables: s.tables.insert(name, table), outputs: s.outputs },
        None => BuilderState { tables: s.tables, outputs: s.outputs.push(table) },
    }
}

/// The state after the first `n` statements, and the first failure among them, with the
/// position of its statement. Each statement is processed against the catalog as the statements
/// before it left it; after a failure nothing more is processed and nothing is undone.
pub open spec fn run(
    s: BuilderState,
    functions: Map<Seq<char>, ScalarFunction>,
    statements: Seq<LogicalPlan>,
    n: int,
) -> (BuilderState, Option<Failure>)
    decreases n,
{
    if n <= 0 || n > statements.len() {
        (s, None)
    } else {
        let (before, failure) = run(s, functions, statements, n - 1);
        if failure is Some {
            (before, failure)
        } else {
            match processed(before.tables, functions, statements[n - 1]) {
                Ok(table) => (taken(before, table), None),
                Err(e) => (before, Some(e.at((n - 1) as usize))),
            }
        }
    }
}

/// The failure of a query without text.
pub open spec fn empty_query() -> Failure {
    failure(ErrorKind::EmptyQuery, "query is empty"@)
}

/// An empty query, or one of whitespace only, is refused before anything is parsed.
pub fn check_query(query: &str) -> (r: Result<(), SqlError>)
    ensures
        r is Err <==> is_blank(query@),
        r matches Err(e) ==> e@ == empty_query(),
{
    if blank(query) {
        Err(SqlError::new(ErrorKind::EmptyQuery, "query is empty"))
    } else {
        Ok(())
    }
}

/// Processes the statements of a query against a catalog.
pub struct SqlProgramBuilder {
    pub schema_provider: ArroyoSchemaProvider,
}

impl SqlProgramBuilder {
    pub fn new(schema_provider: ArroyoSchemaProvider) -> (b: SqlProgramBuilder)
        ensures
            b.schema_provider == schema_provider,
    {
        SqlProgramBuilder { schema_provider }
    }

    /// Classifies a statement, once its query is found to resolve and to be well-typed
    /// against the catalog as it is.
    pub fn process_statement(&self, statement: LogicalPlan) -> (r: Result<Table, SqlError>)
        ensures
            match r {
                Ok(table) => processed(
                    self.schema_provider.tables@,
                    self.schema_provider.functions@,
                    statement,
                ) == Ok::<Table, Failure>(table),
                Err(e) => processed(
                    self.schema_provider.tables@,
                    self.schema_provider.functions@,
                    statement,
                ) == Err::<Table, Failure>(e@),
            },
    {
        let checked = match &statement {
            LogicalPlan::CreateView { input, .. } => resolve_plan(
                &self.schema_provider,
                input,
                self.schema_provider.view_depth(),
            ),
            LogicalPlan::CreateMemoryTable { input, .. } => resolve_plan(
                &self.schema_provider,
                input,
                self.schema_provider.view_depth(),
            ),
            LogicalPlan::Insert { input, .. } => resolve_plan(
                &self.schema_provider,
                input,
                self.schema_provider.view_depth(),
            ),
            _ => resolve_plan(
                &self.schema_provider,
                &statement,
                self.schema_provider.view_depth(),
            ),
        };
        match checked {
            Err(e) => Err(e),
            Ok(_) => Ok(
                match statement {
                    LogicalPlan::CreateView { name, input } => Table::TableFromQuery {
                        name,
                        logical_plan: *input,
                    },
                    LogicalPlan::CreateMemoryTable { name, input } => Table::TableFromQuery {
                        name,
                        logical_plan: *input,
                    },
                    LogicalPlan::Insert { table_name, input } => Table::InsertQuery {
                        sink_name: table_name,
                        logical_plan: *input,
                    },
                    other => Table::Anonymous { logical_plan: other },
                },
            ),
        }
    }

    /// Processes one statement: a named table goes into the catalog at once, so that later
    /// statements can refer to it; a table without a name is handed back as an output.
    pub fn plan_statement(&mut self, statement: LogicalPlan) -> (r: Result<Option<Table>, SqlError>)
        ensures
            final(self).schema_provider.functions == old(self).schema_provider.functions,
            final(self).schema_provider.connections == old(self).schema_provider.connections,
            final(self).schema_provider.udf_defs == old(self).schema_provider.udf_defs,
            final(self).schema_provider.source_defs == old(self).schema_provider.source_defs,
            match processed(
                old(self).schema_provider.tables@,
                old(self).schema_provider.functions@,
                statement,
            ) {
                Err(f) => r matches Err(e) && e@ == f && final(self).schema_provider.tables
                    == old(self).schema_provider.tables,
                Ok(table) => match table.name_view() {
                    Some(name) => r == Ok::<Option<Table>, SqlError>(None) && final(self).schema_provider.tables@ == old(self).schema_provider.tables@.insert(
                        name,
                        table,
                    ),
                    None => r == Ok::<Option<Table>, SqlError>(Some(table)) && final(self).schema_provider.tables == old(self).schema_provider.tables,
                },
            },
    {
        let table = match self.process_statement(statement) {
            Ok(t) => t,
            Err(e) => {
                return Err(e);
            },
        };
        match &table {
            Table::ConnectorTable(_) => {
                self.schema_provider.insert_table(table);
                Ok(None)
            },
            Table::TableFromQuery { .. } => {
                self.schema_provider.insert_table(table);
                Ok(None)
            },
            _ => Ok(Some(table)),
        }
    }

    /// Processes the statements of a query in their order and hands back the outputs. A
    /// query without text is refused before anything else. The first failure ends it, with
    /// the position of its statement; what the statements before it put into the catalog
    /// stays there.
    pub fn plan_query(&mut self, query: &str, statements: Vec<LogicalPlan>) -> (r: Result<
        Vec<Table>,
        SqlError,
    >)
        ensures
            final(self).schema_provider.functions == old(self).schema_provider.functions,
            final(self).schema_provider.connections == old(self).schema_provider.connections,
            final(self).schema_provider.udf_defs == old(self).schema_provider.udf_defs,
            final(self).schema_provider.source_defs == old(self).schema_provider.source_defs,
            ({
                let (end, failure) = planned(
                    old(self).schema_provider.tables@,
                    old(self).schema_provider.functions@,
                    query@,
                    statements@,
                );
                &&& final(self).schema_provider.tables@ == end.tables
                &&& match r {
                    Ok(outputs) => failure is None && outputs@ == end.outputs,
                    Err(e) => failure == Some(e@),
                }
            }),
    {
        match check_query(query) {
            Err(e) => {
                return Err(e);
            },
            Ok(()) => {},
        }
        let ghost all = statements@;
        let ghost functions = self.schema_provider.functions@;
        let ghost start = BuilderState {
            tables: self.schema_provider.tables@,
            outputs: Seq::empty(),
        };
        assert(statements@.len() == statements.len());
        let mut rest = statements;
        let mut outputs: Vec<Table> = Vec::new();
        let mut i: usize = 0;
        while rest.len() > 0
            invariant
                self.schema_provider.functions == old(self).schema_provider.functions,
                self.schema_provider.connections == old(self).schema_provider.connections,
                self.schema_provider.udf_defs == old(self).schema_provider.udf_defs,
                self.schema_provider.source_defs == old(self).schema_provider.source_defs,
                functions == old(self).schema_provider.functions@,
                !is_blank(query@),
                i + rest@.len() == all.len(),
                all.len() <= usize::MAX,
                all == statements@,
                start == (BuilderState {
                    tables: old(self).schema_provider.tables@,
                    outputs: Seq::empty(),
                }),
                rest@ == all.skip(i as int),
                run(start, functions, all, i as int) == (
                    BuilderState { tables: self.schema_provider.tables@, outputs: outputs@ },
                    None::<Failure>,
                ),
            decreases rest.len(),
        {
            let statement = rest.remove(0);
            assert(statement == all[i as int]);
            assert(rest@ =~= all.skip(i + 1));
            match self.plan_statement(statement) {
                Ok(Some(table)) => {
                    outputs.push(table);
                },
                Ok(None) => {},
                Err(e) => {
                    proof {
                        assert(run(start, functions, all, i + 1).1 == Some(e@.at(i)));
                        lemma_run_fails(start, functions, all, i + 1, all.len() as int);
                    }
                    return Err(e.in_statement(i));
                },
            }
            i += 1;
        }
        Ok(outputs)
    }
}

/// What planning a query comes to: a query without text is refused and leaves the catalog
/// as it is; else the statements are run in order.
pub open spec fn planned(
    tables: Map<Seq<char>, Table>,
    functions: Map<Seq<char>, ScalarFunction>,
    query: Seq<char>,
    statements: Seq<LogicalPlan>,
) -> (BuilderState, Option<Failure>) {
    let start = BuilderState { tables, outputs: Seq::empty() };
    if is_blank(query) {
        (start, Some(empty_query()))
    } else {
        run(start, functions, statements, statements.len() as int)
    }
}

/// Once a statement among the first `n` has failed, the statements after it change nothing.
pub proof fn lemma_run_fails(
    s: BuilderState,
    functions: Map<Seq<char>, ScalarFunction>,
    statements: Seq<LogicalPlan>,
    n: int,
    m: int,
)
    requires
        0 <= n <= m <= statements.len(),
        run(s, functions, statements, n).1 is Some,
    ensures
        run(s, functions, statements, m) == run(s, functions, statements, n),
    decreases m - n,
{
    if n < m {
        lemma_run_fails(s, functions, statements, n, m - 1);
    }
}

/// A scan of a connector table resolves to the fields the table declares, under the name
/// of the scan, whatever the kind of the table and however deep views are looked through.
pub proof fn lemma_scan_resolves(
    tables: Map<Seq<char>, Table>,
    functions: Map<Seq<char>, ScalarFunction>,
    scan: LogicalPlan,
    depth: nat,
)
    requires
        scan is TableScan,
        tables.contains_key(scan->TableScan_table_name@),
        tables[scan->TableScan_table_name@] is ConnectorTable,
    ensures
        resolved_fields(tables, functions, scan, depth) == Ok::<Seq<FieldView>, Failure>(
            crate::pipeline::aliased(
                fields_view(tables[scan->TableScan_table_name@]->ConnectorTable_0.fields@),
                crate::pipeline::scan_name(
                    scan->TableScan_table_name@,
                    crate::types::opt_view(scan->TableScan_alias),
                ),
            ),
        ),
{
}

/// A scan of a view resolves to what the plan of the view resolves to one view deeper,
/// under the name of the scan.
pub proof fn lemma_view_scan_resolves(
    tables: Map<Seq<char>, Table>,
    functions: Map<Seq<char>, ScalarFunction>,
    scan: LogicalPlan,
    depth: nat,
)
    requires
        scan is TableScan,
        tables.contains_key(scan->TableScan_table_name@),
        tables[scan->TableScan_table_name@] is TableFromQuery,
        depth > 0,
        resolved_fields(
            tables,
            functions,
            tables[scan->TableScan_table_name@]->TableFromQuery_logical_plan,
            (depth - 1) as nat,
        ) is Ok,
    ensures
        resolved_fields(tables, functions, scan, depth) == Ok::<Seq<FieldView>, Failure>(
            crate::pipeline::aliased(
                resolved_fields(
                    tables,
                    functions,
                    tables[scan->TableScan_table_name@]->TableFromQuery_logical_plan,
                    (depth - 1) as nat,
                )->Ok_0,
                crate::pipeline::scan_name(
                    scan->TableScan_table_name@,
                    crate::types::opt_view(scan->TableScan_alias),
                ),
            ),
        ),
{
}

/// What one more statement does: after a failure nothing; else the statement is processed
/// against the catalog as it is, and its table is taken in or its failure is kept.
pub proof fn lemma_run_step(
    s: BuilderState,
    functions: Map<Seq<char>, ScalarFunction>,
    statements: Seq<LogicalPlan>,
    n: int,
)
    requires
        0 < n <= statements.len(),
    ensures
        run(s, functions, statements, n) == ({
            let (before, failure) = run(s, functions, statements, n - 1);
            if failure is Some {
                (before, failure)
            } else {
                match processed(before.tables, functions, statements[n - 1]) {
                    Ok(table) => (taken(before, table), None::<Failure>),
                    Err(e) => (before, Some(e.at((n - 1) as usize))),
                }
            }
        }),
        run(s, functions, statements, 0) == (s, None::<Failure>),
{
}

/// `CREATE VIEW v AS q`, for a query `q` that resolves, puts the view `v` into the catalog
/// and changes no other table.
pub proof fn lemma_view_is_inserted(
    tables: Map<Seq<char>, Table>,
    functions: Map<Seq<char>, ScalarFunction>,
    create: LogicalPlan,
)
    requires
        create is CreateView,
        resolved_fields(
            tables,
            functions,
            *create->CreateView_input,
            crate::tables::view_depth(tables),
        ) is Ok,
    ensures
        ({
            let start = BuilderState { tables, outputs: Seq::empty() };
            let view = Table::TableFromQuery {
                name: create->CreateView_name,
                logical_plan: *create->CreateView_input,
            };
            run(start, functions, seq![create], 1) == (
                BuilderState {
                    tables: tables.insert(create->CreateView_name@, view),
                    outputs: Seq::empty(),
                },
                None::<Failure>,
            )
        }),
{
    let start = BuilderState { tables, outputs: Seq::empty() };
    lemma_run_step(start, functions, seq![create], 1);
}

/// `CREATE VIEW v AS <scan of t>; <scan of v>`, for a connector table `t` of any kind and
/// another name `v`: the first statement puts `v` into the catalog and leaves `t` as it
/// is, the second resolves `v` to the fields that `t` declares and is the one output.
pub proof fn lemma_view_round_trip(
    tables: Map<Seq<char>, Table>,
    functions: Map<Seq<char>, ScalarFunction>,
    create: LogicalPlan,
    select: LogicalPlan,
)
    requires
        create is CreateView,
        *create->CreateView_input is TableScan,
        tables.contains_key(create->CreateView_input->TableScan_table_name@),
        tables[create->CreateView_input->TableScan_table_name@] is ConnectorTable,
        create->CreateView_name@ != create->CreateView_input->TableScan_table_name@,
        select is TableScan,
        select->TableScan_table_name@ == create->CreateView_name@,
    ensures
        ({
            let start = BuilderState { tables, outputs: Seq::empty() };
            let v = create->CreateView_name@;
            let t = create->CreateView_input->TableScan_table_name@;
            let view = Table::TableFromQuery {
                name: create->CreateView_name,
                logical_plan: *create->CreateView_input,
            };
            let after = tables.insert(v, view);
            let declared = fields_view(tables[t]->ConnectorTable_0.fields@);
            let scanned = crate::pipeline::aliased(
                declared,
                crate::pipeline::scan_name(
                    t,
                    crate::types::opt_view(create->CreateView_input->TableScan_alias),
                ),
            );
            &&& run(start, functions, seq![create, select], 2) == (
                BuilderState { tables: after, outputs: seq![Table::Anonymous { logical_plan: select }] },
                None::<Failure>,
            )
            &&& after[t] == tables[t]
            &&& resolved_fields(after, functions, select, crate::tables::view_depth(after))
                == Ok::<Seq<FieldView>, Failure>(
                crate::pipeline::aliased(
                    scanned,
                    crate::pipeline::scan_name(v, crate::types::opt_view(select->TableScan_alias)),
                ),
            )
        }),
{
    let start = BuilderState { tables, outputs: Seq::empty() };
    let statements = seq![create, select];
    let scan = *create->CreateView_input;
    let v = create->CreateView_name@;
    let view = Table::TableFromQuery { name: create->CreateView_name, logical_plan: scan };
    let after = tables.insert(v, view);
    lemma_scan_resolves(tables, functions, scan, crate::tables::view_depth(tables));
    lemma_run_step(start, functions, statements, 1);
    assert(processed(tables, functions, create) == Ok::<Table, Failure>(view));
    let first = BuilderState { tables: after, outputs: Seq::<Table>::empty() };
    assert(taken(start, view) == first);
    assert(run(start, functions, statements, 1) == (first, None::<Failure>));
    let depth = crate::tables::view_depth(after);
    lemma_scan_resolves(after, functions, scan, (depth - 1) as nat);
    lemma_view_scan_resolves(after, functions, select, depth);
    lemma_run_step(start, functions, statements, 2);
    let output = Table::Anonymous { logical_plan: select };
    assert(processed(after, functions, select) == Ok::<Table, Failure>(output));
    assert(taken(first, output).outputs =~= seq![output]);
}

/// A failure leaves what the statements before it put into the catalog: after a view was
/// created, a scan of a table that is not there fails as an unknown table, by its name
/// and as the second statement, and the view stays.
pub proof fn lemma_failure_keeps_view(
    tables: Map<Seq<char>, Table>,
    functions: Map<Seq<char>, ScalarFunction>,
    create: LogicalPlan,
    missing: LogicalPlan,
)
    requires
        create is CreateView,
        resolved_fields(
            tables,
            functions,
            *create->CreateView_input,
            crate::tables::view_depth(tables),
        ) is Ok,
        missing is TableScan,
        !tables.contains_key(missing->TableScan_table_name@),
        missing->TableScan_table_name@ != create->CreateView_name@,
    ensures
        ({
            let start = BuilderState { tables, outputs: Seq::empty() };
            let view = Table::TableFromQuery {
                name: create->CreateView_name,
                logical_plan: *create->CreateView_input,
            };
            run(start, functions, seq![create, missing], 2) == (
                BuilderState {
                    tables: tables.insert(create->CreateView_name@, view),
                    outputs: Seq::empty(),
                },
                Some(failure(ErrorKind::UnknownTable, missing->TableScan_table_name@).at(1)),
            )
        }),
{
    let start = BuilderState { tables, outputs: Seq::empty() };
    let statements = seq![create, missing];
    lemma_run_step(start, functions, statements, 1);
    lemma_run_step(start, functions, statements, 2);
}

} // verus!
