//! The plan graph assembler: from operator trees to one graph of numbered nodes with the
//! edges between them, and from there to the compiled program.

use vstd::prelude::*;
use vstd::hash_map::StringHashMap;
use crate::error::{ErrorKind, SqlError};
use crate::expressions::Expression;
use crate::pipeline::{AggregateExpr, KeyExpr, OperatorBody, SqlOperator, WindowType};
use crate::plan::JoinKind;
use crate::tables::SerializationMode;
use crate::types::StructDef;

verus! {

/// How a query is compiled.
#[derive(Clone, Copy, Debug)]
pub struct SqlConfig {
    pub default_parallelism: usize,
}

impl Default for SqlConfig {
    fn default() -> (c: SqlConfig)
        ensures
            c.default_parallelism == 4,
    {
        SqlConfig { default_parallelism: 4 }
    }
}

/// What a node of the graph does; the nodes it reads from are given by the edges.
#[derive(Debug)]
pub enum PlanOperator {
    Source {
        name: String,
        id: Option<i64>,
        struct_name: Option<String>,
        operator: String,
        config: String,
        serialization_mode: SerializationMode,
    },
    Sink { name: String, id: Option<i64>, operator: String, config: String },
    Projection { exprs: Vec<Expression> },
    Filter { predicate: Expression },
    Join { kind: JoinKind, condition: Expression },
    Aggregate { window: WindowType, keys: Vec<KeyExpr>, aggregates: Vec<AggregateExpr> },
}

/// A node of the graph. Its identifier is its position among the nodes.
#[derive(Debug)]
pub struct PlanNode {
    pub operator: PlanOperator,
    pub schema: StructDef,
}

/// An edge from the node that produces to the node that consumes, and which of the
/// consumer's inputs it feeds.
#[derive(Clone, Copy, Debug, PartialEq, Eq, Structural)]
pub struct PlanEdge {
    pub from: usize,
    pub to: usize,
    pub input: usize,
}

/// The graph as mathematical values: the nodes in order, the edges in order, and for each
/// source the node that stands for it.
#[verifier::ext_equal]
pub struct GraphState {
    pub nodes: Seq<PlanNode>,
    pub edges: Seq<PlanEdge>,
    pub sources: Map<Seq<char>, usize>,
}

/// The graph under assembly.
pub struct PlanGraph {
    pub nodes: Vec<PlanNode>,
    pub edges: Vec<PlanEdge>,
    pub sources: StringHashMap<usize>,
    pub config: SqlConfig,
}

/// The compiled program: the operators, the edges between them, and how many instances of
/// each operator to run where nothing else is said.
#[derive(Debug)]
pub struct Program {
    pub nodes: Vec<PlanNode>,
    pub edges: Vec<PlanEdge>,
    pub default_parallelism: usize,
}

impl PlanOperator {
    pub open spec fn sink(self) -> bool {
        self is Sink
    }
}

/// What the node of an operator does: the operator without its inputs.
pub open spec fn node_of(op: SqlOperator) -> PlanNode {
    PlanNode {
        operator: match op.body {
            OperatorBody::Source {
                name,
                id,
                struct_name,
                operator,
                config,
                serialization_mode,
            } => PlanOperator::Source {
                name,
                id,
                struct_name,
                operator,
                config,
                serialization_mode,
            },
            OperatorBody::Sink { name, id, operator, config, .. } => PlanOperator::Sink {
                name,
                id,
                operator,
                config,
            },
            OperatorBody::Projection { exprs, .. } => PlanOperator::Projection { exprs },
            OperatorBody::Filter { predicate, .. } => PlanOperator::Filter { predicate },
            OperatorBody::Join { kind, condition, .. } => PlanOperator::Join { kind, condition },
            OperatorBody::Aggregate { window, keys, aggregates, .. } => PlanOperator::Aggregate {
                window,
                keys,
                aggregates,
            },
        },
        schema: op.schema,
    }
}

impl GraphState {
    /// The graph with one more node, fed by the given nodes in the order of its inputs.
    pub open spec fn with_node(self, node: PlanNode, inputs: Seq<int>) -> GraphState {
        let id = self.nodes.len();
        GraphState {
            nodes: self.nodes.push(node),
            edges: self.edges + Seq::new(
                inputs.len(),
                |i: int| PlanEdge { from: inputs[i] as usize, to: id as usize, input: i as usize },
            ),
            sources: self.sources,
        }
    }

    /// Every edge leads from an earlier node to a later one, so there is no cycle; each
    /// source's name leads to the node of that source; a source node is the node its name
    /// leads to, so no two nodes stand for one source; and the edges stand in the order of
    /// their consumers and of the inputs they feed, so no two edges are the same.
    pub open spec fn wf(self) -> bool {
        &&& self.nodes.len() <= usize::MAX
        &&& forall|i: int|
            0 <= i < self.edges.len() ==> (#[trigger] self.edges[i]).from < self.edges[i].to
                < self.nodes.len()
        &&& forall|k: Seq<char>| #[trigger]
            self.sources.contains_key(k) ==> self.sources[k] < self.nodes.len() && named_source(
                self.nodes[self.sources[k] as int],
                k,
            )
        &&& forall|i: int|
            0 <= i < self.nodes.len() ==> source_at(#[trigger] self.nodes[i], self.sources, i)
        &&& forall|i: int, j: int|
            0 <= i < j < self.edges.len() ==> before(#[trigger] self.edges[i], #[trigger] self.edges[j])
    }
}

/// Whether an edge comes before another: it feeds an earlier consumer, or an earlier input
/// of the same consumer. No two edges of a well-formed graph are the same.
pub open spec fn before(a: PlanEdge, b: PlanEdge) -> bool {
    a.to < b.to || (a.to == b.to && a.input < b.input)
}

/// Whether the node is the source of that name.
pub open spec fn named_source(node: PlanNode, name: Seq<char>) -> bool {
    node.operator matches PlanOperator::Source { name: n, .. } && n@ == name
}

/// Where the node at position `i` is a source, it is the node that its name leads to.
pub open spec fn source_at(node: PlanNode, sources: Map<Seq<char>, usize>, i: int) -> bool {
    node.operator matches PlanOperator::Source { name, .. } ==> sources.contains_key(name@)
        && sources[name@] == i
}

/// The graph after an operator tree was added, and the node that stands for its root.
/// Inputs come before the operator that reads them. A source that the graph already has
/// under its name is not added again: the node that is there stands for it.
pub open spec fn added(g: GraphState, op: SqlOperator) -> (GraphState, int)
    decreases op,
{
    match op.body {
        OperatorBody::Source { name, .. } => if g.sources.contains_key(name@) {
            (g, g.sources[name@] as int)
        } else {
            (
                GraphState {
                    nodes: g.nodes.push(node_of(op)),
                    edges: g.edges,
                    sources: g.sources.insert(name@, g.nodes.len() as usize),
                },
                g.nodes.len() as int,
            )
        },
        OperatorBody::Sink { input, .. } => {
            let (g1, i) = added(g, *input);
            (g1.with_node(node_of(op), seq![i]), g1.nodes.len() as int)
        },
        OperatorBody::Projection { input, .. } => {
            let (g1, i) = added(g, *input);
            (g1.with_node(node_of(op), seq![i]), g1.nodes.len() as int)
        },
        OperatorBody::Filter { input, .. } => {
            let (g1, i) = added(g, *input);
            (g1.with_node(node_of(op), seq![i]), g1.nodes.len() as int)
        },
        OperatorBody::Aggregate { input, .. } => {
            let (g1, i) = added(g, *input);
            (g1.with_node(node_of(op), seq![i]), g1.nodes.len() as int)
        },
        OperatorBody::Join { left, right, .. } => {
            let (g1, l) = added(g, *left);
            let (g2, r) = added(g1, *right);
            (g2.with_node(node_of(op), seq![l, r]), g2.nodes.len() as int)
        },
    }
}

/// Adding an operator tree keeps the nodes and edges that were there, keeps the graph
/// well-formed, and gives a node of the graph.
pub proof fn lemma_added(g: GraphState, op: SqlOperator)
    requires
        g.wf(),
        added(g, op).0.nodes.len() <= usize::MAX,
    ensures
        added(g, op).0.wf(),
        0 <= added(g, op).1 < added(g, op).0.nodes.len(),
        g.nodes.len() <= added(g, op).0.nodes.len(),
        added(g, op).0.nodes.take(g.nodes.len() as int) == g.nodes,
        g.edges.len() <= added(g, op).0.edges.len(),
        added(g, op).0.edges.take(g.edges.len() as int) == g.edges,
        g.sources.submap_of(added(g, op).0.sources),
    decreases op,
{
    let (after, id) = added(g, op);
    match op.body {
        OperatorBody::Source { name, .. } => {
            assert(after.nodes.take(g.nodes.len() as int) =~= g.nodes);
            assert(after.edges.take(g.edges.len() as int) =~= g.edges);
        },
        OperatorBody::Sink { input, .. } => {
            lemma_added(g, *input);
            let (g1, i) = added(g, *input);
            lemma_with_node(g, g1, seq![i], node_of(op));
            assert(after.sources == g1.sources);
        },
        OperatorBody::Projection { input, .. } => {
            lemma_added(g, *input);
            let (g1, i) = added(g, *input);
            lemma_with_node(g, g1, seq![i], node_of(op));
            assert(after.sources == g1.sources);
        },
        OperatorBody::Filter { input, .. } => {
            lemma_added(g, *input);
            let (g1, i) = added(g, *input);
            lemma_with_node(g, g1, seq![i], node_of(op));
            assert(after.sources == g1.sources);
        },
        OperatorBody::Aggregate { input, .. } => {
            lemma_added(g, *input);
            let (g1, i) = added(g, *input);
            lemma_with_node(g, g1, seq![i], node_of(op));
            assert(after.sources == g1.sources);
        },
        OperatorBody::Join { left, right, .. } => {
            lemma_added_grows(added(g, *left).0, *right);
            lemma_added(g, *left);
            let (g1, l) = added(g, *left);
            lemma_added(g1, *right);
            let (g2, r) = added(g1, *right);
            assert(g2.nodes.take(g.nodes.len() as int) =~= g2.nodes.take(
                g1.nodes.len() as int,
            ).take(g.nodes.len() as int));
            assert(g2.edges.take(g.edges.len() as int) =~= g2.edges.take(
                g1.edges.len() as int,
            ).take(g.edges.len() as int));
            lemma_with_node(g, g2, seq![l, r], node_of(op));
            assert(after.sources == g2.sources);
            assert forall|k: Seq<char>| #[trigger]
                g.sources.contains_key(k) implies g2.sources.contains_key(k) && g2.sources[k]
                == g.sources[k] by {
                assert(g.sources.submap_of(g1.sources));
                assert(g1.sources.submap_of(g2.sources));
                assert(g.sources.dom().contains(k));
                assert(g1.sources.dom().contains(k) ==> g.sources[k] == g1.sources[k]);
                assert(g1.sources.dom().contains(k));
                assert(g2.sources.dom().contains(k) ==> g1.sources[k] == g2.sources[k]);
                assert(g2.sources.dom().contains(k));
            }
        },
    }
}

/// Adding an operator tree takes no node away.
pub proof fn lemma_added_grows(g: GraphState, op: SqlOperator)
    ensures
        g.nodes.len() <= added(g, op).0.nodes.len(),
    decreases op,
{
    match op.body {
        OperatorBody::Source { .. } => {},
        OperatorBody::Sink { input, .. } => {
            lemma_added_grows(g, *input);
        },
        OperatorBody::Projection { input, .. } => {
            lemma_added_grows(g, *input);
        },
        OperatorBody::Filter { input, .. } => {
            lemma_added_grows(g, *input);
        },
        OperatorBody::Aggregate { input, .. } => {
            lemma_added_grows(g, *input);
        },
        OperatorBody::Join { left, right, .. } => {
            lemma_added_grows(g, *left);
            lemma_added_grows(added(g, *left).0, *right);
        },
    }
}

/// A node on top of a graph that extends `g` leaves what `g` had in place.
proof fn lemma_with_node(g: GraphState, g1: GraphState, inputs: Seq<int>, node: PlanNode)
    requires
        g1.wf(),
        g1.nodes.len() < usize::MAX,
        !(node.operator is Source),
        g.nodes.len() <= g1.nodes.len(),
        g1.nodes.take(g.nodes.len() as int) == g.nodes,
        g.edges.len() <= g1.edges.len(),
        g1.edges.take(g.edges.len() as int) == g.edges,
        forall|j: int| 0 <= j < inputs.len() ==> 0 <= #[trigger] inputs[j] < g1.nodes.len(),
        inputs.len() <= 2,
    ensures
        ({
            let after = g1.with_node(node, inputs);
            &&& after.wf()
            &&& after.nodes.take(g.nodes.len() as int) == g.nodes
            &&& after.edges.take(g.edges.len() as int) == g.edges
        }),
{
    let after = g1.with_node(node, inputs);
    assert(after.nodes.take(g.nodes.len() as int) =~= g1.nodes.take(g.nodes.len() as int));
    assert(after.edges.take(g.edges.len() as int) =~= g1.edges.take(g.edges.len() as int));
    assert forall|i: int| 0 <= i < after.edges.len() implies (#[trigger] after.edges[i]).from
        < after.edges[i].to < after.nodes.len() by {
        if i < g1.edges.len() {
            assert(after.edges[i] == g1.edges[i]);
        } else {
            let j = i - g1.edges.len();
            assert(0 <= inputs[j] < g1.nodes.len());
        }
    }
    assert forall|i: int, j: int| 0 <= i < j < after.edges.len() implies before(
        #[trigger] after.edges[i],
        #[trigger] after.edges[j],
    ) by {
        if j < g1.edges.len() {
            assert(after.edges[i] == g1.edges[i] && after.edges[j] == g1.edges[j]);
        } else if i < g1.edges.len() {
            assert(after.edges[i] == g1.edges[i]);
            assert(g1.edges[i].to < g1.nodes.len());
        }
    }
}

/// No two edges of a well-formed graph are the same.
pub proof fn lemma_edges_differ(g: GraphState, i: int, j: int)
    requires
        g.wf(),
        0 <= i < g.edges.len(),
        0 <= j < g.edges.len(),
        i != j,
    ensures
        g.edges[i] != g.edges[j],
{
    if i < j {
        assert(before(g.edges[i], g.edges[j]));
    } else {
        assert(before(g.edges[j], g.edges[i]));
    }
}

} // verus!

verus! {

/// No two nodes of a well-formed graph stand for one source.
pub proof fn lemma_source_once(g: GraphState, i: int, j: int)
    requires
        g.wf(),
        0 <= i < g.nodes.len(),
        0 <= j < g.nodes.len(),
        g.nodes[i].operator is Source,
        g.nodes[j].operator is Source,
        g.nodes[i].operator->Source_name@ == g.nodes[j].operator->Source_name@,
    ensures
        i == j,
{
    assert(source_at(g.nodes[i], g.sources, i));
    assert(source_at(g.nodes[j], g.sources, j));
}

/// A source that is added a second time is realized once: the second time gives the node
/// of the first and leaves the graph as it is, whatever else the two scans differ in.
pub proof fn lemma_shared_source(g: GraphState, first: SqlOperator, second: SqlOperator)
    requires
        g.wf(),
        first.body is Source,
        second.body is Source,
        first.body->Source_name@ == second.body->Source_name@,
    ensures
        added(added(g, first).0, second) == added(g, first),
{
}

/// The identifiers of the connector tables behind the sinks among the first `n` nodes, in
/// the order of the nodes.
pub open spec fn sink_ids(nodes: Seq<PlanNode>, n: int) -> Seq<i64>
    decreases n,
{
    if n <= 0 || n > nodes.len() {
        Seq::empty()
    } else {
        match nodes[n - 1].operator {
            PlanOperator::Sink { id: Some(id), .. } => sink_ids(nodes, n - 1).push(id),
            _ => sink_ids(nodes, n - 1),
        }
    }
}

/// Whether one of the nodes is a sink.
pub open spec fn has_sink(nodes: Seq<PlanNode>) -> bool {
    exists|i: int| 0 <= i < nodes.len() && (#[trigger] nodes[i]).operator.sink()
}

impl PlanGraph {
    pub open spec fn state(&self) -> GraphState {
        GraphState { nodes: self.nodes@, edges: self.edges@, sources: self.sources@ }
    }

    pub fn new(config: SqlConfig) -> (g: PlanGraph)
        ensures
            g.state().wf(),
            g.nodes@.len() == 0,
            g.edges@.len() == 0,
            g.sources@ == Map::<Seq<char>, usize>::empty(),
            g.config == config,
    {
        PlanGraph { nodes: Vec::new(), edges: Vec::new(), sources: StringHashMap::new(), config }
    }

    fn add_node(&mut self, node: PlanNode, inputs: Vec<usize>) -> (id: usize)
        ensures
            final(self).state() == old(self).state().with_node(
                node,
                inputs@.map_values(|i: usize| i as int),
            ),
            id == old(self).nodes@.len(),
            final(self).config == old(self).config,
    {
        let id = self.nodes.len();
        self.nodes.push(node);
        let ghost edges = old(self).edges@;
        let mut i: usize = 0;
        while i < inputs.len()
            invariant
                i <= inputs.len(),
                self.nodes@ == old(self).nodes@.push(node),
                self.sources == old(self).sources,
                self.config == old(self).config,
                id == old(self).nodes@.len(),
                self.edges@ == edges + Seq::new(
                    i as nat,
                    |j: int| PlanEdge { from: inputs@[j], to: id, input: j as usize },
                ),
            decreases inputs.len() - i,
        {
            self.edges.push(PlanEdge { from: inputs[i], to: id, input: i });
            assert(self.edges@ =~= edges + Seq::new(
                (i + 1) as nat,
                |j: int| PlanEdge { from: inputs@[j], to: id, input: j as usize },
            ));
            i += 1;
        }
        assert(self.edges@ =~= old(self).state().with_node(
            node,
            inputs@.map_values(|i: usize| i as int),
        ).edges);
        id
    }

    /// Adds an operator tree to the graph and gives the node of its root: `added` says
    /// which nodes and edges that makes.
    pub fn add_sql_operator(&mut self, op: SqlOperator) -> (id: usize)
        ensures
            (final(self).state(), id as int) == added(old(self).state(), op),
            old(self).state().wf() ==> final(self).state().wf(),
            final(self).config == old(self).config,
        decreases op,
    {
        let ghost before = self.state();
        let SqlOperator { body, schema } = op;
        let id = match body {
            OperatorBody::Source {
                name,
                id,
                struct_name,
                operator,
                config,
                serialization_mode,
            } => {
                let known = match self.sources.get(name.as_str()) {
                    Some(i) => Some(*i),
                    None => None,
                };
                match known {
                    Some(i) => i,
                    None => {
                        let key = name.clone();
                        let node = PlanNode {
                            operator: PlanOperator::Source {
                                name,
                                id,
                                struct_name,
                                operator,
                                config,
                                serialization_mode,
                            },
                            schema,
                        };
                        let at = self.nodes.len();
                        self.nodes.push(node);
                        self.sources.insert(key, at);
                        at
                    },
                }
            },
            OperatorBody::Sink { name, id, operator, config, input } => {
                let i = self.add_sql_operator(*input);
                let node = PlanNode {
                    operator: PlanOperator::Sink { name, id, operator, config },
                    schema,
                };
                let inputs = vec![i];
                assert(inputs@.map_values(|i: usize| i as int) =~= seq![i as int]);
                self.add_node(node, inputs)
            },
            OperatorBody::Projection { input, exprs } => {
                let i = self.add_sql_operator(*input);
                let node = PlanNode { operator: PlanOperator::Projection { exprs }, schema };
                let inputs = vec![i];
                assert(inputs@.map_values(|i: usize| i as int) =~= seq![i as int]);
                self.add_node(node, inputs)
            },
            OperatorBody::Filter { input, predicate } => {
                let i = self.add_sql_operator(*input);
                let node = PlanNode { operator: PlanOperator::Filter { predicate }, schema };
                let inputs = vec![i];
                assert(inputs@.map_values(|i: usize| i as int) =~= seq![i as int]);
                self.add_node(node, inputs)
            },
            OperatorBody::Aggregate { input, window, keys, aggregates } => {
                let i = self.add_sql_operator(*input);
                let node = PlanNode {
                    operator: PlanOperator::Aggregate { window, keys, aggregates },
                    schema,
                };
                let inputs = vec![i];
                assert(inputs@.map_values(|i: usize| i as int) =~= seq![i as int]);
                self.add_node(node, inputs)
            },
            OperatorBody::Join { left, right, kind, condition } => {
                let l = self.add_sql_operator(*left);
                let r = self.add_sql_operator(*right);
                let node = PlanNode { operator: PlanOperator::Join { kind, condition }, schema };
                let inputs = vec![l, r];
                assert(inputs@.map_values(|i: usize| i as int) =~= seq![l as int, r as int]);
                self.add_node(node, inputs)
            },
        };
        proof {
            assert(self.nodes@.len() == self.nodes.len());
            assert((self.state(), id as int) == added(before, op));
            if before.wf() {
                lemma_added(before, op);
            }
        }
        id
    }
}

/// Turns the graph into the program. A graph without a sink is no program.
pub fn get_program(graph: PlanGraph) -> (r: Result<(Program, Vec<i64>), SqlError>)
    ensures
        match r {
            Ok((program, sinks)) => {
                &&& has_sink(graph.nodes@)
                &&& program.nodes == graph.nodes
                &&& program.edges == graph.edges
                &&& program.default_parallelism == graph.config.default_parallelism
                &&& sinks@ == sink_ids(graph.nodes@, graph.nodes@.len() as int)
            },
            Err(e) => !has_sink(graph.nodes@) && e@ == crate::error::failure(
                ErrorKind::NoSinkDefined,
                "no sink"@,
            ),
        },
{
    let mut sinks: Vec<i64> = Vec::new();
    let mut found = false;
    let mut i: usize = 0;
    while i < graph.nodes.len()
        invariant
            i <= graph.nodes.len(),
            sinks@ == sink_ids(graph.nodes@, i as int),
            found == has_sink(graph.nodes@.take(i as int)),
        decreases graph.nodes.len() - i,
    {
        proof {
            let before = graph.nodes@.take(i as int);
            let after = graph.nodes@.take(i + 1);
            if graph.nodes@[i as int].operator.sink() {
                assert(after[i as int].operator.sink());
            } else if has_sink(before) {
                let w = choose|w: int| 0 <= w < before.len() && (#[trigger] before[w]).operator.sink();
                assert(after[w].operator.sink());
            } else if has_sink(after) {
                let w = choose|w: int| 0 <= w < after.len() && (#[trigger] after[w]).operator.sink();
                assert(before[w].operator.sink());
            }
        }
        match &graph.nodes[i].operator {
            PlanOperator::Sink { id, .. } => {
                found = true;
                match id {
                    Some(id) => {
                        sinks.push(*id);
                    },
                    None => {},
                }
            },
            _ => {},
        }
        i += 1;
    }
    proof {
        assert(graph.nodes@.take(graph.nodes@.len() as int) =~= graph.nodes@);
    }
    if !found {
        return Err(SqlError::new(ErrorKind::NoSinkDefined, "no sink"));
    }
    let PlanGraph { nodes, edges, sources, config } = graph;
    Ok((Program { nodes, edges, default_parallelism: config.default_parallelism }, sinks))
}

} // verus!

verus! {

/// A join of a table with itself realizes the table once: after the join was added, the
/// one source node feeds the join through two edges, one for each side.
pub proof fn lemma_self_join(g: GraphState, join: SqlOperator)
    requires
        g.wf(),
        join.body is Join,
        join.body->Join_left.body is Source,
        join.body->Join_right.body is Source,
        join.body->Join_left.body->Source_name@ == join.body->Join_right.body->Source_name@,
    ensures
        ({
            let (with_source, source) = added(g, *join.body->Join_left);
            let (after, id) = added(g, join);
            &&& after.nodes == with_source.nodes.push(node_of(join))
            &&& id == with_source.nodes.len()
            &&& after.edges == with_source.edges + seq![
                PlanEdge { from: source as usize, to: id as usize, input: 0 },
                PlanEdge { from: source as usize, to: id as usize, input: 1 },
            ]
            &&& after.sources == with_source.sources
        }),
{
    let left = *join.body->Join_left;
    let right = *join.body->Join_right;
    let (with_source, source) = added(g, left);
    lemma_shared_source(g, left, right);
    let (after, id) = added(g, join);
    assert(after == with_source.with_node(node_of(join), seq![source, source]));
    assert(after.edges =~= with_source.edges + seq![
        PlanEdge { from: source as usize, to: id as usize, input: 0 },
        PlanEdge { from: source as usize, to: id as usize, input: 1 },
    ]);
}

} // verus!

verus! {

/// Whether the operator is the source of that name.
pub open spec fn source_named(op: SqlOperator, name: Seq<char>) -> bool {
    op.body matches OperatorBody::Source { name: n, .. } && n@ == name
}

/// One, where the operator is the source of that name: it is read once by what is above.
pub open spec fn read_once(op: SqlOperator, name: Seq<char>) -> nat {
    if source_named(op, name) {
        1
    } else {
        0
    }
}

/// How often the operators of a tree read the source of that name: the number of places
/// below the root where the source stands.
pub open spec fn reads(op: SqlOperator, name: Seq<char>) -> nat
    decreases op,
{
    match op.body {
        OperatorBody::Source { .. } => 0,
        OperatorBody::Sink { input, .. } => reads(*input, name) + read_once(*input, name),
        OperatorBody::Projection { input, .. } => reads(*input, name) + read_once(*input, name),
        OperatorBody::Filter { input, .. } => reads(*input, name) + read_once(*input, name),
        OperatorBody::Aggregate { input, .. } => reads(*input, name) + read_once(*input, name),
        OperatorBody::Join { left, right, .. } => reads(*left, name) + read_once(*left, name)
            + reads(*right, name) + read_once(*right, name),
    }
}

/// How many of the edges start at the node `from`.
pub open spec fn edges_from(edges: Seq<PlanEdge>, from: int) -> nat
    decreases edges.len(),
{
    if edges.len() == 0 {
        0
    } else {
        edges_from(edges.drop_last(), from) + if edges.last().from == from {
            1nat
        } else {
            0nat
        }
    }
}

/// The edges of two lists that start at a node are those of the one and those of the other.
pub proof fn lemma_edges_from_add(a: Seq<PlanEdge>, b: Seq<PlanEdge>, from: int)
    ensures
        edges_from(a + b, from) == edges_from(a, from) + edges_from(b, from),
    decreases b.len(),
{
    if b.len() == 0 {
        assert(a + b =~= a);
    } else {
        lemma_edges_from_add(a, b.drop_last(), from);
        assert((a + b).drop_last() =~= a + b.drop_last());
    }
}

/// No edge of a well-formed graph starts at a node that is not there yet.
pub proof fn lemma_no_edges_from_later(g: GraphState, from: int, n: int)
    requires
        g.wf(),
        from >= g.nodes.len(),
        0 <= n <= g.edges.len(),
    ensures
        edges_from(g.edges.take(n), from) == 0,
    decreases n,
{
    if n > 0 {
        lemma_no_edges_from_later(g, from, n - 1);
        assert(g.edges.take(n).drop_last() =~= g.edges.take(n - 1));
        assert(g.edges.take(n).last() == g.edges[n - 1]);
    }
}

/// The edges that a new node brings start at its inputs: as many of them start at `from`
/// as there are inputs that are `from`.
proof fn lemma_edges_of_node(g: GraphState, node: PlanNode, inputs: Seq<int>, from: int)
    requires
        inputs.len() <= 2,
        forall|j: int| 0 <= j < inputs.len() ==> 0 <= #[trigger] inputs[j] < g.nodes.len(),
        g.nodes.len() < usize::MAX,
    ensures
        edges_from(g.with_node(node, inputs).edges, from) == edges_from(g.edges, from) + (if 0
            < inputs.len() && inputs[0] == from {
            1nat
        } else {
            0nat
        }) + (if 1 < inputs.len() && inputs[1] == from {
            1nat
        } else {
            0nat
        }),
{
    let id = g.nodes.len();
    let added = Seq::new(
        inputs.len(),
        |i: int| PlanEdge { from: inputs[i] as usize, to: id as usize, input: i as usize },
    );
    lemma_edges_from_add(g.edges, added, from);
    assert(g.with_node(node, inputs).edges =~= g.edges + added);
    let none = Seq::<PlanEdge>::empty();
    assert(edges_from(none, from) == 0);
    if inputs.len() == 2 {
        let first = added.drop_last();
        assert(first.drop_last() =~= none);
        assert(first.last().from as int == inputs[0]);
        assert(added.last().from as int == inputs[1]);
        assert(edges_from(first, from) == edges_from(first.drop_last(), from) + if first.last().from
            == from {
            1nat
        } else {
            0nat
        });
        assert(edges_from(added, from) == edges_from(first, from) + if added.last().from == from {
            1nat
        } else {
            0nat
        });
    } else if inputs.len() == 1 {
        assert(added.drop_last() =~= none);
        assert(added.last().from as int == inputs[0]);
        assert(edges_from(added, from) == edges_from(added.drop_last(), from) + if added.last().from
            == from {
            1nat
        } else {
            0nat
        });
    } else {
        assert(added =~= none);
    }
}

/// The root of an added tree is the node of a source exactly where the tree is that source.
pub proof fn lemma_root_of(g: GraphState, op: SqlOperator, name: Seq<char>)
    requires
        g.wf(),
        added(g, op).0.nodes.len() <= usize::MAX,
    ensures
        ({
            let (after, id) = added(g, op);
            (after.sources.contains_key(name) && after.sources[name] == id) <==> source_named(
                op,
                name,
            )
        }),
{
    lemma_added(g, op);
    let (after, id) = added(g, op);
    assert(source_at(after.nodes[id], after.sources, id));
    if after.sources.contains_key(name) {
        assert(named_source(after.nodes[after.sources[name] as int], name));
    }
    match op.body {
        OperatorBody::Source { name: n, .. } => {
            assert(after.sources.contains_key(n@) && after.sources[n@] == id);
        },
        OperatorBody::Sink { input, .. } => {
            assert(after.nodes[id] == node_of(op));
        },
        OperatorBody::Projection { input, .. } => {
            assert(after.nodes[id] == node_of(op));
        },
        OperatorBody::Filter { input, .. } => {
            assert(after.nodes[id] == node_of(op));
        },
        OperatorBody::Aggregate { input, .. } => {
            assert(after.nodes[id] == node_of(op));
        },
        OperatorBody::Join { left, right, .. } => {
            assert(after.nodes[id] == node_of(op));
        },
    }
}

/// A source that an added tree brings to the graph gets a node of its own, after the nodes
/// that were there; and a tree that reads a source, or is one, leaves the graph with it.
pub proof fn lemma_sources_of(g: GraphState, op: SqlOperator, name: Seq<char>)
    requires
        g.wf(),
        added(g, op).0.nodes.len() <= usize::MAX,
    ensures
        ({
            let after = added(g, op).0;
            &&& reads(op, name) + read_once(op, name) > 0 ==> after.sources.contains_key(name)
            &&& after.sources.contains_key(name) && !g.sources.contains_key(name)
                ==> after.sources[name] >= g.nodes.len()
        }),
    decreases op,
{
    lemma_added(g, op);
    match op.body {
        OperatorBody::Source { .. } => {},
        OperatorBody::Sink { input, .. } => {
            lemma_sources_of(g, *input, name);
        },
        OperatorBody::Projection { input, .. } => {
            lemma_sources_of(g, *input, name);
        },
        OperatorBody::Filter { input, .. } => {
            lemma_sources_of(g, *input, name);
        },
        OperatorBody::Aggregate { input, .. } => {
            lemma_sources_of(g, *input, name);
        },
        OperatorBody::Join { left, right, .. } => {
            lemma_added_grows(added(g, *left).0, *right);
            lemma_added(g, *left);
            let g1 = added(g, *left).0;
            lemma_added(g1, *right);
            lemma_sources_of(g, *left, name);
            lemma_sources_of(g1, *right, name);
            let g2 = added(g1, *right).0;
            if g1.sources.contains_key(name) {
                assert(g2.sources.dom().contains(name));
                assert(g1.sources[name] == g2.sources[name]);
            }
        },
    }
}

/// A table is realized once, however often it is read: the graph holds one node for the
/// source, and an added tree brings as many edges from that node as it has places that
/// read the source.
pub proof fn lemma_source_consumers(g: GraphState, op: SqlOperator, name: Seq<char>)
    requires
        g.wf(),
        added(g, op).0.nodes.len() <= usize::MAX,
        added(g, op).0.sources.contains_key(name),
    ensures
        ({
            let after = added(g, op).0;
            let node = after.sources[name] as int;
            &&& 0 <= node < after.nodes.len()
            &&& named_source(after.nodes[node], name)
            &&& forall|i: int|
                0 <= i < after.nodes.len() && named_source(#[trigger] after.nodes[i], name) ==> i
                    == node
            &&& edges_from(after.edges, node) == edges_from(g.edges, node) + reads(op, name)
        }),
    decreases op,
{
    lemma_added(g, op);
    let after = added(g, op).0;
    let node = after.sources[name] as int;
    assert forall|i: int|
        0 <= i < after.nodes.len() && named_source(#[trigger] after.nodes[i], name) implies i
        == node by {
        assert(source_at(after.nodes[i], after.sources, i));
    }
    match op.body {
        OperatorBody::Source { .. } => {},
        OperatorBody::Sink { input, .. } => {
            lemma_source_consumers(g, *input, name);
            lemma_consumers_unary(g, *input, node_of(op), name);
        },
        OperatorBody::Projection { input, .. } => {
            lemma_source_consumers(g, *input, name);
            lemma_consumers_unary(g, *input, node_of(op), name);
        },
        OperatorBody::Filter { input, .. } => {
            lemma_source_consumers(g, *input, name);
            lemma_consumers_unary(g, *input, node_of(op), name);
        },
        OperatorBody::Aggregate { input, .. } => {
            lemma_source_consumers(g, *input, name);
            lemma_consumers_unary(g, *input, node_of(op), name);
        },
        OperatorBody::Join { left, right, .. } => {
            lemma_added_grows(added(g, *left).0, *right);
            lemma_added(g, *left);
            let (g1, l) = added(g, *left);
            lemma_added(g1, *right);
            let (g2, r) = added(g1, *right);
            assert(after.sources == g2.sources);
            lemma_source_consumers(g1, *right, name);
            lemma_root_of(g, *left, name);
            lemma_root_of(g1, *right, name);
            lemma_edges_of_node(g2, node_of(op), seq![l, r], node);
            lemma_sources_of(g, *left, name);
            lemma_sources_of(g1, *right, name);
            if g1.sources.contains_key(name) {
                assert(g2.sources.dom().contains(name));
                assert(g1.sources[name] == g2.sources[name]);
                lemma_source_consumers(g, *left, name);
            } else {
                lemma_no_edges_from_later(g1, node, g1.edges.len() as int);
                assert(g1.edges.take(g1.edges.len() as int) =~= g1.edges);
                lemma_no_edges_from_later(g1, node, g.edges.len() as int);
                assert(l != node);
            }
        },
    }
}

/// The step of `lemma_source_consumers` for an operator with one input.
proof fn lemma_consumers_unary(g: GraphState, input: SqlOperator, node: PlanNode, name: Seq<char>)
    requires
        g.wf(),
        added(g, input).0.nodes.len() < usize::MAX,
        added(g, input).0.sources.contains_key(name),
        !(node.operator is Source),
        edges_from(added(g, input).0.edges, added(g, input).0.sources[name] as int) == edges_from(
            g.edges,
            added(g, input).0.sources[name] as int,
        ) + reads(input, name),
    ensures
        ({
            let (g1, i) = added(g, input);
            let at = g1.sources[name] as int;
            edges_from(g1.with_node(node, seq![i]).edges, at) == edges_from(g.edges, at) + reads(
                input,
                name,
            ) + read_once(input, name)
        }),
{
    let (g1, i) = added(g, input);
    lemma_added(g, input);
    lemma_root_of(g, input, name);
    lemma_edges_of_node(g1, node, seq![i], g1.sources[name] as int);
}

} // verus!
