//! From the outputs of a query to the compiled program, and the whole way from the
//! statements of a query.

use vstd::prelude::*;
use crate::catalog::ArroyoSchemaProvider;
use crate::error::{failure, ErrorKind, Failure, SqlError};
use crate::pipeline::{realizable, realizes, OperatorBody, SqlOperator, SqlPipelineBuilder};
use crate::plan::LogicalPlan;
use crate::plan_graph::{
    added, edges_from, get_program, has_sink, lemma_added, lemma_added_grows,
    lemma_no_edges_from_later, lemma_source_consumers, lemma_sources_of, named_source, node_of,
    read_once, reads, sink_ids, GraphState, PlanGraph, Program, SqlConfig,
};
use crate::statement::{planned, SqlProgramBuilder};
use crate::tables::{ScalarFunction, Table};

verus! {

/// The reason why the first of the first `n` outputs that cannot be realized cannot be.
pub open spec fn first_failure(
    tables: Map<Seq<char>, Table>,
    functions: Map<Seq<char>, ScalarFunction>,
    outputs: Seq<Table>,
    n: int,
) -> Option<Failure>
    decreases n,
{
    if n <= 0 || n > outputs.len() {
        None
    } else {
        match first_failure(tables, functions, outputs, n - 1) {
            Some(k) => Some(k),
            None => match realizable(tables, functions, outputs[n - 1]) {
                Err(k) => Some(k),
                Ok(_) => None,
            },
        }
    }
}

/// The graph of the first `n` operator trees, added in their order to an empty graph.
pub open spec fn assembled(ops: Seq<SqlOperator>, n: int) -> GraphState
    decreases n,
{
    if n <= 0 || n > ops.len() {
        GraphState { nodes: Seq::empty(), edges: Seq::empty(), sources: Map::empty() }
    } else {
        added(assembled(ops, n - 1), ops[n - 1]).0
    }
}

/// Whether one of the outputs writes to a sink. Only these make sink operators.
pub open spec fn writes(outputs: Seq<Table>) -> bool {
    exists|i: int| 0 <= i < outputs.len() && #[trigger] outputs[i] is InsertQuery
}

/// Whether `r` is what compiling the outputs comes to. It fails with the reason of the
/// first output that cannot be realized; where all can be and none writes to a sink, it
/// fails for want of a sink; and else the program is the graph of the outputs' operator
/// trees, with the identifiers of the tables behind its sinks. Every edge of the program
/// leads from an earlier node to a later one, and no two edges are the same.
pub open spec fn compiled(
    tables: Map<Seq<char>, Table>,
    functions: Map<Seq<char>, ScalarFunction>,
    outputs: Seq<Table>,
    config: SqlConfig,
    r: Result<(Program, Vec<i64>), SqlError>,
) -> bool {
    match first_failure(tables, functions, outputs, outputs.len() as int) {
        Some(f) => r matches Err(e) && e@ == f,
        None => if !writes(outputs) {
            r matches Err(e) && e@ == failure(ErrorKind::NoSinkDefined, "no sink"@)
        } else {
            &&& r matches Ok((program, sinks))
            &&& program.default_parallelism == config.default_parallelism
            &&& sinks@ == sink_ids(program.nodes@, program.nodes@.len() as int)
            &&& has_sink(program.nodes@)
            &&& forall|i: int|
                0 <= i < program.edges@.len() ==> (#[trigger] program.edges@[i]).from
                    < program.edges@[i].to < program.nodes@.len()
            &&& forall|i: int, j: int|
                0 <= i < j < program.edges@.len() ==> #[trigger] program.edges@[i]
                    != #[trigger] program.edges@[j]
            &&& exists|ops: Seq<SqlOperator>|
                {
                    &&& ops.len() == outputs.len()
                    &&& forall|i: int|
                        0 <= i < outputs.len() ==> realizes(
                            tables,
                            functions,
                            #[trigger] outputs[i],
                            ops[i],
                        )
                    &&& program.nodes@ == (#[trigger] assembled(ops, ops.len() as int)).nodes
                    &&& program.edges@ == assembled(ops, ops.len() as int).edges
                }
        },
    }
}

/// Once an output among the first `n` cannot be realized, the outputs after it change
/// nothing.
pub proof fn lemma_first_failure_stays(
    tables: Map<Seq<char>, Table>,
    functions: Map<Seq<char>, ScalarFunction>,
    outputs: Seq<Table>,
    n: int,
    m: int,
)
    requires
        0 <= n <= m <= outputs.len(),
        first_failure(tables, functions, outputs, n) is Some,
    ensures
        first_failure(tables, functions, outputs, m) == first_failure(
            tables,
            functions,
            outputs,
            n,
        ),
    decreases m - n,
{
    if n < m {
        lemma_first_failure_stays(tables, functions, outputs, n, m - 1);
    }
}

/// A graph keeps its sinks when an operator tree is added, and gets one where the root of
/// the tree is a sink.
pub proof fn lemma_added_keeps_sinks(g: GraphState, op: SqlOperator)
    requires
        g.wf(),
        added(g, op).0.nodes.len() <= usize::MAX,
        has_sink(g.nodes) || op.sink(),
    ensures
        has_sink(added(g, op).0.nodes),
{
    lemma_added(g, op);
    let after = added(g, op).0;
    if has_sink(g.nodes) {
        let w = choose|w: int| 0 <= w < g.nodes.len() && (#[trigger] g.nodes[w]).operator.sink();
        assert(after.nodes.take(g.nodes.len() as int)[w] == after.nodes[w]);
        assert(after.nodes[w].operator.sink());
    } else {
        match op.body {
            OperatorBody::Sink { input, .. } => {
                let g1 = added(g, *input).0;
                assert(after.nodes[g1.nodes.len() as int] == node_of(op));
                assert(after.nodes[g1.nodes.len() as int].operator.sink());
            },
            _ => {},
        }
    }
}

/// Realizes the outputs in order, up to the first that cannot be.
pub fn realize_outputs(catalog: &ArroyoSchemaProvider, outputs: &Vec<Table>) -> (r: Result<
    Vec<SqlOperator>,
    SqlError,
>)
    ensures
        match r {
            Ok(ops) => {
                &&& first_failure(
                    catalog.tables@,
                    catalog.functions@,
                    outputs@,
                    outputs@.len() as int,
                ) is None
                &&& ops@.len() == outputs@.len()
                &&& forall|j: int|
                    0 <= j < outputs@.len() ==> realizes(
                        catalog.tables@,
                        catalog.functions@,
                        #[trigger] outputs@[j],
                        ops@[j],
                    ) && ops@[j].sink() == (outputs@[j] is InsertQuery)
            },
            Err(e) => first_failure(
                catalog.tables@,
                catalog.functions@,
                outputs@,
                outputs@.len() as int,
            ) == Some(e@),
        },
{
    let ghost tables = catalog.tables@;
    let ghost functions = catalog.functions@;
    let mut builder = SqlPipelineBuilder::new(catalog);
    let mut i: usize = 0;
    while i < outputs.len()
        invariant
            i <= outputs.len(),
            builder.schema_provider == catalog,
            tables == catalog.tables@,
            functions == catalog.functions@,
            builder.output_nodes@.len() == i,
            first_failure(tables, functions, outputs@, i as int) is None,
            forall|j: int|
                0 <= j < i ==> realizes(
                    tables,
                    functions,
                    #[trigger] outputs@[j],
                    builder.output_nodes@[j],
                ) && builder.output_nodes@[j].sink() == (outputs@[j] is InsertQuery),
        decreases outputs.len() - i,
    {
        match builder.insert_table(&outputs[i]) {
            Ok(()) => {
                assert forall|j: int| 0 <= j < i + 1 implies realizes(
                    tables,
                    functions,
                    #[trigger] outputs@[j],
                    builder.output_nodes@[j],
                ) && builder.output_nodes@[j].sink() == (outputs@[j] is InsertQuery) by {
                    if j < i {
                        assert(builder.output_nodes@[j] == builder.output_nodes@.drop_last()[j]);
                    }
                }
            },
            Err(e) => {
                proof {
                    lemma_first_failure_stays(
                        tables,
                        functions,
                        outputs@,
                        i + 1,
                        outputs@.len() as int,
                    );
                }
                return Err(e);
            },
        }
        i += 1;
    }
    Ok(builder.output_nodes)
}

/// Whether one of the operator trees is a sink.
pub open spec fn any_sink(ops: Seq<SqlOperator>) -> bool {
    exists|i: int| 0 <= i < ops.len() && (#[trigger] ops[i]).sink()
}

pub fn contains_sink(ops: &Vec<SqlOperator>) -> (b: bool)
    ensures
        b == any_sink(ops@),
{
    let mut i: usize = 0;
    while i < ops.len()
        invariant
            i <= ops.len(),
            forall|j: int| 0 <= j < i ==> !(#[trigger] ops@[j]).sink(),
        decreases ops.len() - i,
    {
        if ops[i].is_sink() {
            return true;
        }
        i += 1;
    }
    false
}

/// Adds the operator trees, in order, to an empty graph.
pub fn assemble(ops: Vec<SqlOperator>, config: SqlConfig) -> (graph: PlanGraph)
    ensures
        graph.state().wf(),
        graph.state() == assembled(ops@, ops@.len() as int),
        graph.config == config,
        any_sink(ops@) ==> has_sink(graph.nodes@),
{
    let mut graph = PlanGraph::new(config);
    let ghost all = ops@;
    assert(all.len() == ops.len());
    let mut rest = ops;
    let mut k: usize = 0;
    assert(graph.state() =~= assembled(all, 0));
    while rest.len() > 0
        invariant
            k + rest@.len() == all.len(),
            all.len() <= usize::MAX,
            rest@ == all.skip(k as int),
            graph.state().wf(),
            graph.state() == assembled(all, k as int),
            graph.config == config,
            forall|j: int| 0 <= j < k && (#[trigger] all[j]).sink() ==> has_sink(graph.nodes@),
        decreases rest.len(),
    {
        let op = rest.remove(0);
        assert(op == all[k as int]);
        assert(rest@ =~= all.skip(k + 1));
        let ghost before = graph.state();
        graph.add_sql_operator(op);
        proof {
            assert(graph.nodes@.len() == graph.nodes.len());
            if has_sink(before.nodes) || op.sink() {
                lemma_added_keeps_sinks(before, op);
            }
        }
        k += 1;
    }
    proof {
        if any_sink(all) {
            let w = choose|w: int| 0 <= w < all.len() && (#[trigger] all[w]).sink();
            assert(has_sink(graph.nodes@));
        }
    }
    graph
}

/// Compiles the outputs of a query against the catalog they were planned with.
pub fn build_program(catalog: &ArroyoSchemaProvider, outputs: &Vec<Table>, config: SqlConfig) -> (r:
    Result<(Program, Vec<i64>), SqlError>)
    ensures
        compiled(catalog.tables@, catalog.functions@, outputs@, config, r),
{
    let ops = match realize_outputs(catalog, outputs) {
        Ok(ops) => ops,
        Err(e) => {
            return Err(e);
        },
    };
    let ghost realized = ops@;
    proof {
        if any_sink(realized) {
            let w = choose|w: int| 0 <= w < realized.len() && (#[trigger] realized[w]).sink();
            assert(outputs@[w] is InsertQuery);
        } else if writes(outputs@) {
            let w = choose|w: int| 0 <= w < outputs@.len() && #[trigger] outputs@[w] is InsertQuery;
            assert(realized[w].sink());
        }
    }
    if !contains_sink(&ops) {
        return Err(SqlError::new(ErrorKind::NoSinkDefined, "no sink"));
    }
    let graph = assemble(ops, config);
    let ghost state = graph.state();
    let r = get_program(graph);
    proof {
        let tables = catalog.tables@;
        let functions = catalog.functions@;
        assert(r is Ok);
        let program = r->Ok_0.0;
        assert(program.nodes@ == state.nodes && program.edges@ == state.edges);
        assert(first_failure(tables, functions, outputs@, outputs@.len() as int) is None);
        assert(writes(outputs@));
        assert forall|i: int| 0 <= i < program.edges@.len() implies (
        #[trigger] program.edges@[i]).from < program.edges@[i].to < program.nodes@.len() by {
            assert(state.edges[i].from < state.edges[i].to);
        }
        assert forall|i: int, j: int| 0 <= i < j < program.edges@.len() implies #[trigger] program.edges@[i]
            != #[trigger] program.edges@[j] by {
            crate::plan_graph::lemma_edges_differ(state, i, j);
        }
        assert({
            &&& realized.len() == outputs@.len()
            &&& forall|i: int|
                0 <= i < outputs@.len() ==> realizes(
                    tables,
                    functions,
                    #[trigger] outputs@[i],
                    realized[i],
                )
            &&& program.nodes@ == (#[trigger] assembled(realized, realized.len() as int)).nodes
            &&& program.edges@ == assembled(realized, realized.len() as int).edges
        });
    }
    r
}

/// Compiles a query from its text and the plans of its statements: refuses a query
/// without text, processes the statements in order, and compiles the outputs they leave
/// against the catalog as they leave it.
pub fn parse_and_get_program_sync(
    query: String,
    schema_provider: ArroyoSchemaProvider,
    config: SqlConfig,
    statements: Vec<LogicalPlan>,
) -> (r: Result<(Program, Vec<i64>), SqlError>)
    ensures
        ({
            let (end, failure) = planned(
                schema_provider.tables@,
                schema_provider.functions@,
                query@,
                statements@,
            );
            match failure {
                Some(f) => r matches Err(e) && e@ == f,
                None => compiled(end.tables, schema_provider.functions@, end.outputs, config, r),
            }
        }),
{
    let mut builder = SqlProgramBuilder::new(schema_provider);
    let outputs = match builder.plan_query(query.as_str(), statements) {
        Ok(o) => o,
        Err(e) => {
            return Err(e);
        },
    };
    build_program(&builder.schema_provider, &outputs, config)
}

/// How often the first `n` operator trees read the source of that name.
pub open spec fn reads_first(ops: Seq<SqlOperator>, n: int, name: Seq<char>) -> nat
    decreases n,
{
    if n <= 0 || n > ops.len() {
        0
    } else {
        reads_first(ops, n - 1, name) + reads(ops[n - 1], name)
    }
}

/// The graph of operator trees is well-formed, and grows with each tree.
pub proof fn lemma_assembled(ops: Seq<SqlOperator>, n: int)
    requires
        0 <= n <= ops.len(),
        assembled(ops, n).nodes.len() <= usize::MAX,
    ensures
        assembled(ops, n).wf(),
        forall|m: int| 0 <= m <= n ==> (#[trigger] assembled(ops, m)).nodes.len() <= assembled(
            ops,
            n,
        ).nodes.len(),
    decreases n,
{
    if n > 0 {
        lemma_added_grows(assembled(ops, n - 1), ops[n - 1]);
        lemma_assembled(ops, n - 1);
        lemma_added(assembled(ops, n - 1), ops[n - 1]);
    }
}

/// A source that the graph of operator trees does not hold is read by none of them.
pub proof fn lemma_unread(ops: Seq<SqlOperator>, n: int, name: Seq<char>)
    requires
        0 <= n <= ops.len(),
        assembled(ops, n).nodes.len() <= usize::MAX,
        !assembled(ops, n).sources.contains_key(name),
    ensures
        reads_first(ops, n, name) == 0,
    decreases n,
{
    if n > 0 {
        let before = assembled(ops, n - 1);
        lemma_assembled(ops, n);
        lemma_assembled(ops, n - 1);
        lemma_added(before, ops[n - 1]);
        lemma_sources_of(before, ops[n - 1], name);
        if before.sources.contains_key(name) {
            assert(assembled(ops, n).sources.dom().contains(name));
        }
        lemma_unread(ops, n - 1, name);
    }
}

/// A table is realized once in a program, however often the query reads it: the graph of
/// the outputs' operator trees holds one node for the source of a name, and as many edges
/// lead from that node to its consumers as the trees have places that read the source.
pub proof fn lemma_program_sources(ops: Seq<SqlOperator>, n: int, name: Seq<char>)
    requires
        0 <= n <= ops.len(),
        assembled(ops, n).nodes.len() <= usize::MAX,
        assembled(ops, n).sources.contains_key(name),
    ensures
        ({
            let g = assembled(ops, n);
            let node = g.sources[name] as int;
            &&& 0 <= node < g.nodes.len()
            &&& named_source(g.nodes[node], name)
            &&& forall|i: int|
                0 <= i < g.nodes.len() && named_source(#[trigger] g.nodes[i], name) ==> i == node
            &&& edges_from(g.edges, node) == reads_first(ops, n, name)
        }),
    decreases n,
{
    let g = assembled(ops, n);
    let node = g.sources[name] as int;
    if n > 0 {
        let before = assembled(ops, n - 1);
        lemma_assembled(ops, n);
        lemma_assembled(ops, n - 1);
        lemma_added(before, ops[n - 1]);
        lemma_source_consumers(before, ops[n - 1], name);
        if before.sources.contains_key(name) {
            assert(g.sources.dom().contains(name));
            assert(before.sources[name] == g.sources[name]);
            lemma_program_sources(ops, n - 1, name);
        } else {
            lemma_sources_of(before, ops[n - 1], name);
            lemma_no_edges_from_later(before, node, before.edges.len() as int);
            assert(before.edges.take(before.edges.len() as int) =~= before.edges);
            lemma_unread(ops, n - 1, name);
        }
    }
}

/// A query that writes what it reads from a table into a sink realizes the table once:
/// the program of that one output holds one node for the source, and as many edges lead
/// from it as the query reads the table, through views or not.
pub proof fn lemma_insert_reads(
    tables: Map<Seq<char>, Table>,
    functions: Map<Seq<char>, ScalarFunction>,
    output: Table,
    op: SqlOperator,
    name: Seq<char>,
)
    requires
        output is InsertQuery,
        realizes(tables, functions, output, op),
        crate::pipeline::plan_reads(tables, output->InsertQuery_logical_plan, crate::tables::view_depth(tables), name)
            > 0,
        assembled(seq![op], 1).nodes.len() <= usize::MAX,
    ensures
        ({
            let g = assembled(seq![op], 1);
            let node = g.sources[name] as int;
            &&& g.sources.contains_key(name)
            &&& 0 <= node < g.nodes.len()
            &&& named_source(g.nodes[node], name)
            &&& forall|i: int|
                0 <= i < g.nodes.len() && named_source(#[trigger] g.nodes[i], name) ==> i == node
            &&& edges_from(g.edges, node) == crate::pipeline::plan_reads(
                tables,
                output->InsertQuery_logical_plan,
                crate::tables::view_depth(tables),
                name,
            )
        }),
{
    let ops = seq![op];
    let plan = output->InsertQuery_logical_plan;
    let input = *op.body->Sink_input;
    assert(crate::pipeline::lowers(tables, functions, plan, crate::tables::view_depth(tables), input));
    crate::pipeline::lemma_lowered_reads(tables, functions, plan, crate::tables::view_depth(tables), input, name);
    let empty = assembled(ops, 0);
    assert(empty.wf());
    assert(assembled(ops, 1) == added(empty, op).0);
    lemma_sources_of(empty, op, name);
    lemma_program_sources(ops, 1, name);
    assert(reads_first(ops, 1, name) == reads_first(ops, 0, name) + reads(op, name));
}

} // verus!
