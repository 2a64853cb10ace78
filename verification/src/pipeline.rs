//! The pipeline builder: from relational plans to streaming operators.

use vstd::prelude::*;
use crate::catalog::ArroyoSchemaProvider;
use crate::error::{failure, ErrorKind, Failure, SqlError};
use crate::expressions::{reflects, typed, Expression, ExpressionContext};
use crate::plan::{AggregateKind, Expr, IntervalValue, JoinKind, LogicalPlan};
use crate::tables::{ConnectorType, ScalarFunction, SerializationMode, Table};
use crate::text::str_eq;
use crate::types::{
    clone_opt, fields_view, first_answer, opt_view, FieldView, PrimitiveKind, StructDef,
    StructField, TypeDef,
};

verus! {

/// A length of time, in nanoseconds.
#[derive(Clone, Copy, Debug, PartialEq, Eq, Structural)]
pub struct Duration {
    pub nanos: u64,
}

/// How an aggregate cuts its input into windows.
#[derive(Clone, Copy, Debug, PartialEq, Eq, Structural)]
pub enum WindowType {
    /// No window: one group per key.
    Instant,
    /// Windows of a fixed size that do not overlap.
    Tumbling { size: Duration },
    /// Windows of a fixed size, a new one starting every `slide`.
    Hopping { size: Duration, slide: Duration },
}

/// One grouping expression of an aggregate: the window, or a key.
#[derive(Debug)]
pub enum KeyExpr {
    Window,
    Value(Expression),
}

/// One aggregate call: the function, its compiled argument and the type of its result.
#[derive(Debug)]
pub struct AggregateExpr {
    pub kind: AggregateKind,
    pub input: Expression,
    pub data_type: TypeDef,
}

/// A streaming operator with the operators it reads from and the schema of what it gives.
#[derive(Debug)]
pub struct SqlOperator {
    pub body: OperatorBody,
    pub schema: StructDef,
}

#[derive(Debug)]
pub enum OperatorBody {
    Source {
        name: String,
        id: Option<i64>,
        struct_name: Option<String>,
        operator: String,
        config: String,
        serialization_mode: SerializationMode,
    },
    Sink { name: String, id: Option<i64>, operator: String, config: String, input: Box<SqlOperator> },
    Projection { input: Box<SqlOperator>, exprs: Vec<Expression> },
    Filter { input: Box<SqlOperator>, predicate: Expression },
    Join { left: Box<SqlOperator>, right: Box<SqlOperator>, kind: JoinKind, condition: Expression },
    Aggregate {
        input: Box<SqlOperator>,
        window: WindowType,
        keys: Vec<KeyExpr>,
        aggregates: Vec<AggregateExpr>,
    },
}

pub const NANOS_PER_DAY: u64 = 86_400_000_000_000;

pub const NANOS_PER_SECOND: u64 = 1_000_000_000;

impl Duration {
    pub fn from_secs(secs: u64) -> (d: Duration)
        requires
            secs * NANOS_PER_SECOND <= u64::MAX,
        ensures
            d.nanos == secs * NANOS_PER_SECOND,
    {
        Duration { nanos: secs * NANOS_PER_SECOND }
    }

    /// The whole seconds of the duration.
    pub fn as_secs(&self) -> (s: u64)
        ensures
            s == self.nanos / NANOS_PER_SECOND,
    {
        self.nanos / NANOS_PER_SECOND
    }
}

/// The length of an interval in nanoseconds. An interval with months has no fixed length,
/// and neither a negative one nor one beyond 64 bits is a window's size.
pub open spec fn interval_nanos(v: IntervalValue) -> Option<int> {
    let total = v.days * NANOS_PER_DAY + v.nanos;
    if v.months == 0 && v.days >= 0 && v.nanos >= 0 && total <= u64::MAX {
        Some(total)
    } else {
        None
    }
}

pub fn interval_duration(v: IntervalValue) -> (d: Option<Duration>)
    ensures
        match d {
            Some(d) => interval_nanos(v) == Some(d.nanos as int),
            None => interval_nanos(v) is None,
        },
{
    if v.months != 0 || v.days < 0 || v.nanos < 0 {
        return None;
    }
    assert(v.days * NANOS_PER_DAY <= 0x7fff_ffff * 86_400_000_000_000) by (nonlinear_arith)
        requires
            0 <= v.days <= 0x7fff_ffff,
            NANOS_PER_DAY == 86_400_000_000_000,
    ;
    let total: u128 = (v.days as u128) * (NANOS_PER_DAY as u128) + (v.nanos as u128);
    if total > u64::MAX as u128 {
        None
    } else {
        Some(Duration { nanos: total as u64 })
    }
}

/// The expression under its aliases.
pub open spec fn unaliased(e: Expr) -> Expr
    decreases e,
{
    match e {
        Expr::Alias { input, .. } => unaliased(*input),
        _ => e,
    }
}

/// Whether a grouping expression is a call of a window constructor: the functions are
/// known by their names, `tumble` and `hop`.
pub open spec fn window_call(e: Expr) -> bool {
    unaliased(e) matches Expr::Call { name, .. } && (name@ == "tumble"@ || name@ == "hop"@)
}

/// The length of the interval literal that is argument `i`, where there is one.
pub open spec fn interval_arg(args: Seq<Expr>, i: int) -> Option<int> {
    if 0 <= i < args.len() {
        match args[i] {
            Expr::Interval(v) => interval_nanos(v),
            _ => None,
        }
    } else {
        None
    }
}

/// The window that a call of a window constructor asks for: `tumble(size)` or
/// `hop(slide, size)`, each argument an interval literal with a fixed length.
pub open spec fn window_of(e: Expr) -> Result<WindowType, Failure> {
    match unaliased(e) {
        Expr::Call { name, args } => if name@ == "tumble"@ {
            match interval_arg(args@, 0) {
                Some(n) => if args@.len() == 1 {
                    Ok(WindowType::Tumbling { size: Duration { nanos: n as u64 } })
                } else {
                    Err(failure(ErrorKind::UnsupportedConstruct, "window"@))
                },
                None => Err(failure(ErrorKind::UnsupportedConstruct, "window"@)),
            }
        } else {
            match (interval_arg(args@, 0), interval_arg(args@, 1)) {
                (Some(s), Some(n)) => if args@.len() == 2 {
                    Ok(
                        WindowType::Hopping {
                            size: Duration { nanos: n as u64 },
                            slide: Duration { nanos: s as u64 },
                        },
                    )
                } else {
                    Err(failure(ErrorKind::UnsupportedConstruct, "window"@))
                },
                _ => Err(failure(ErrorKind::UnsupportedConstruct, "window"@)),
            }
        },
        _ => Err(failure(ErrorKind::UnsupportedConstruct, "window"@)),
    }
}

/// The name of an output column without a name of its own.
pub open spec fn unnamed() -> Seq<char> {
    "?column?"@
}

/// The output field of an expression of type `t`: a column keeps its name and relation,
/// an alias gives the name, anything else is unnamed.
pub open spec fn output_field(fields: Seq<FieldView>, e: Expr, t: TypeDef) -> FieldView {
    match e {
        Expr::Column(c) => FieldView {
            name: c.name@,
            alias: match first_answer(fields, opt_view(c.relation), c.name@) {
                Some(i) => fields[i].alias,
                None => None,
            },
            data_type: t,
        },
        Expr::Alias { name, .. } => FieldView { name: name@, alias: None, data_type: t },
        _ => FieldView { name: unnamed(), alias: None, data_type: t },
    }
}

/// The output fields of the first `n` expressions of a projection.
pub open spec fn projected(
    functions: Map<Seq<char>, ScalarFunction>,
    fields: Seq<FieldView>,
    exprs: Seq<Expr>,
    n: int,
) -> Result<Seq<FieldView>, Failure>
    decreases n,
{
    if n <= 0 || n > exprs.len() {
        Ok(Seq::empty())
    } else {
        match projected(functions, fields, exprs, n - 1) {
            Err(e) => Err(e),
            Ok(front) => match typed(functions, fields, exprs[n - 1]) {
                Err(e) => Err(e),
                Ok(t) => Ok(front.push(output_field(fields, exprs[n - 1], t))),
            },
        }
    }
}

/// The field that stands for the window among the outputs of an aggregate.
pub open spec fn window_field(e: Expr) -> FieldView {
    FieldView {
        name: match e {
            Expr::Alias { name, .. } => name@,
            _ => unnamed(),
        },
        alias: None,
        data_type: TypeDef { kind: PrimitiveKind::Timestamp, nullable: false },
    }
}

/// The output fields of the first `n` grouping expressions and the window among them.
/// A second window is one too many.
pub open spec fn grouped(
    functions: Map<Seq<char>, ScalarFunction>,
    fields: Seq<FieldView>,
    exprs: Seq<Expr>,
    n: int,
) -> Result<(Seq<FieldView>, WindowType), Failure>
    decreases n,
{
    if n <= 0 || n > exprs.len() {
        Ok((Seq::empty(), WindowType::Instant))
    } else {
        match grouped(functions, fields, exprs, n - 1) {
            Err(e) => Err(e),
            Ok((front, window)) => {
                let e = exprs[n - 1];
                if window_call(e) {
                    if window != WindowType::Instant {
                        Err(failure(ErrorKind::UnsupportedConstruct, "second window"@))
                    } else {
                        match window_of(e) {
                            Err(k) => Err(k),
                            Ok(w) => Ok((front.push(window_field(e)), w)),
                        }
                    }
                } else {
                    match typed(functions, fields, e) {
                        Err(k) => Err(k),
                        Ok(t) => Ok((front.push(output_field(fields, e, t)), window)),
                    }
                }
            },
        }
    }
}

/// The type of an aggregate over values of type `t`: a count is a 64-bit integer and
/// never NULL, a sum keeps the kind of its numeric argument, an average is a 64-bit float,
/// a minimum or maximum keeps the kind of its argument.
pub open spec fn aggregate_type(kind: AggregateKind, t: TypeDef) -> Result<TypeDef, ErrorKind> {
    match kind {
        AggregateKind::Count => Ok(TypeDef { kind: PrimitiveKind::Int64, nullable: false }),
        AggregateKind::Sum => if t.kind.numeric() {
            Ok(t)
        } else {
            Err(ErrorKind::PlanError)
        },
        AggregateKind::Avg => if t.kind.numeric() {
            Ok(TypeDef { kind: PrimitiveKind::Float64, nullable: t.nullable })
        } else {
            Err(ErrorKind::PlanError)
        },
        AggregateKind::Min | AggregateKind::Max => Ok(t),
    }
}

/// The type of one aggregate expression: an aggregate call, under aliases or not.
pub open spec fn aggregate_typed(
    functions: Map<Seq<char>, ScalarFunction>,
    fields: Seq<FieldView>,
    e: Expr,
) -> Result<TypeDef, Failure> {
    match unaliased(e) {
        Expr::Aggregate { kind, arg } => match typed(functions, fields, *arg) {
            Err(k) => Err(k),
            Ok(t) => match aggregate_type(kind, t) {
                Ok(t) => Ok(t),
                Err(k) => Err(failure(k, "aggregate"@)),
            },
        },
        _ => Err(failure(ErrorKind::PlanError, "not an aggregate"@)),
    }
}

/// The output fields of the first `n` aggregate expressions.
pub open spec fn aggregated(
    functions: Map<Seq<char>, ScalarFunction>,
    fields: Seq<FieldView>,
    exprs: Seq<Expr>,
    n: int,
) -> Result<Seq<FieldView>, Failure>
    decreases n,
{
    if n <= 0 || n > exprs.len() {
        Ok(Seq::empty())
    } else {
        match aggregated(functions, fields, exprs, n - 1) {
            Err(e) => Err(e),
            Ok(front) => match aggregate_typed(functions, fields, exprs[n - 1]) {
                Err(e) => Err(e),
                Ok(t) => Ok(front.push(window_field(exprs[n - 1]).typed_as(t))),
            },
        }
    }
}

impl FieldView {
    /// This field with another type.
    pub open spec fn typed_as(self, t: TypeDef) -> FieldView {
        FieldView { name: self.name, alias: self.alias, data_type: t }
    }

    /// This field under another relation's name.
    pub open spec fn aliased(self, alias: Seq<char>) -> FieldView {
        FieldView { name: self.name, alias: Some(alias), data_type: self.data_type }
    }
}

/// The fields under the name of the relation that a scan gives them.
pub open spec fn aliased(fields: Seq<FieldView>, alias: Seq<char>) -> Seq<FieldView> {
    Seq::new(fields.len(), |i: int| fields[i].aliased(alias))
}

/// The fields, all nullable.
pub open spec fn nullable(fields: Seq<FieldView>) -> Seq<FieldView> {
    Seq::new(fields.len(), |i: int| fields[i].nullable())
}

/// What a join of the given kind is called.
pub open spec fn join_name(kind: JoinKind) -> Seq<char> {
    match kind {
        JoinKind::Inner => "inner join"@,
        JoinKind::Left => "left join"@,
        JoinKind::Right => "right join"@,
        JoinKind::Full => "full join"@,
        JoinKind::LeftSemi => "left semi join"@,
        JoinKind::RightSemi => "right semi join"@,
        JoinKind::LeftAnti => "left anti join"@,
        JoinKind::RightAnti => "right anti join"@,
    }
}

/// The joins that have an operator.
pub open spec fn join_supported(kind: JoinKind) -> bool {
    kind == JoinKind::Inner || kind == JoinKind::Left || kind == JoinKind::Right || kind
        == JoinKind::Full
}

/// The fields of a join: those of the left input, then those of the right. The side that
/// an outer join may leave empty is nullable.
pub open spec fn joined(kind: JoinKind, left: Seq<FieldView>, right: Seq<FieldView>) -> Seq<
    FieldView,
> {
    (if kind == JoinKind::Right || kind == JoinKind::Full {
        nullable(left)
    } else {
        left
    }) + (if kind == JoinKind::Left || kind == JoinKind::Full {
        nullable(right)
    } else {
        right
    })
}

/// The name under which a scan gives its fields: the alias, or else the table's name.
pub open spec fn scan_name(table_name: Seq<char>, alias: Option<Seq<char>>) -> Seq<char> {
    match alias {
        Some(a) => a,
        None => table_name,
    }
}

/// The fields that a plan produces, or why it cannot be lowered. A view is looked through,
/// `depth` views deep at most.
pub open spec fn plan_fields(
    tables: Map<Seq<char>, Table>,
    functions: Map<Seq<char>, ScalarFunction>,
    plan: LogicalPlan,
    depth: nat,
) -> Result<Seq<FieldView>, Failure>
    decreases depth, plan,
{
    match plan {
        LogicalPlan::TableScan { table_name, alias } => if !tables.contains_key(table_name@) {
            Err(failure(ErrorKind::UnknownTable, table_name@))
        } else {
            match tables[table_name@] {
                Table::ConnectorTable(t) => if t.connector_type == ConnectorType::Source {
                    Ok(aliased(fields_view(t.fields@), scan_name(table_name@, opt_view(alias))))
                } else {
                    Err(failure(ErrorKind::UnsupportedConstruct, "scan of a sink"@))
                },
                Table::TableFromQuery { logical_plan, .. } => if depth == 0 {
                    Err(failure(ErrorKind::PlanError, table_name@))
                } else {
                    match plan_fields(tables, functions, logical_plan, (depth - 1) as nat) {
                        Err(e) => Err(e),
                        Ok(f) => Ok(aliased(f, scan_name(table_name@, opt_view(alias)))),
                    }
                },
                _ => Err(failure(ErrorKind::PlanError, table_name@)),
            }
        },
        LogicalPlan::Projection { exprs, input } => match plan_fields(
            tables,
            functions,
            *input,
            depth,
        ) {
            Err(e) => Err(e),
            Ok(f) => projected(functions, f, exprs@, exprs@.len() as int),
        },
        LogicalPlan::Filter { predicate, input } => match plan_fields(
            tables,
            functions,
            *input,
            depth,
        ) {
            Err(e) => Err(e),
            Ok(f) => match typed(functions, f, predicate) {
                Err(e) => Err(e),
                Ok(t) => if t.kind == PrimitiveKind::Boolean {
                    Ok(f)
                } else {
                    Err(failure(ErrorKind::PlanError, "condition is not boolean"@))
                },
            },
        },
        LogicalPlan::Join { left, right, kind, condition } => if !join_supported(kind) {
            Err(failure(ErrorKind::UnsupportedConstruct, join_name(kind)))
        } else {
            match plan_fields(tables, functions, *left, depth) {
                Err(e) => Err(e),
                Ok(l) => match plan_fields(tables, functions, *right, depth) {
                    Err(e) => Err(e),
                    Ok(r) => match typed(functions, l + r, condition) {
                        Err(e) => Err(e),
                        Ok(t) => if t.kind == PrimitiveKind::Boolean {
                            Ok(joined(kind, l, r))
                        } else {
                            Err(failure(ErrorKind::PlanError, "condition is not boolean"@))
                        },
                    },
                },
            }
        },
        LogicalPlan::Aggregate { group_exprs, aggr_exprs, input } => match plan_fields(
            tables,
            functions,
            *input,
            depth,
        ) {
            Err(e) => Err(e),
            Ok(f) => match grouped(functions, f, group_exprs@, group_exprs@.len() as int) {
                Err(e) => Err(e),
                Ok((keys, _)) => match aggregated(
                    functions,
                    f,
                    aggr_exprs@,
                    aggr_exprs@.len() as int,
                ) {
                    Err(e) => Err(e),
                    Ok(aggregates) => Ok(keys + aggregates),
                },
            },
        },
        // A statement inside a query, and what the compiler has no operator for.
        LogicalPlan::CreateView { .. } => Err(
            failure(ErrorKind::UnsupportedConstruct, "create view inside a query"@),
        ),
        LogicalPlan::CreateMemoryTable { .. } => Err(
            failure(ErrorKind::UnsupportedConstruct, "create table inside a query"@),
        ),
        LogicalPlan::Insert { .. } => Err(
            failure(ErrorKind::UnsupportedConstruct, "insert inside a query"@),
        ),
        LogicalPlan::Unsupported { construct, .. } => Err(
            failure(ErrorKind::UnsupportedConstruct, construct@),
        ),
    }
}

} // verus!

verus! {

/// Whether `key` is the compiled form of the grouping expression `e`.
pub open spec fn key_reflects(
    functions: Map<Seq<char>, ScalarFunction>,
    fields: Seq<FieldView>,
    e: Expr,
    key: KeyExpr,
) -> bool {
    if window_call(e) {
        key is Window
    } else {
        key matches KeyExpr::Value(x) && reflects(functions, fields, e, x)
    }
}

/// Whether `out` is the compiled form of the aggregate expression `e`.
pub open spec fn aggregate_reflects(
    functions: Map<Seq<char>, ScalarFunction>,
    fields: Seq<FieldView>,
    e: Expr,
    out: AggregateExpr,
) -> bool {
    &&& unaliased(e) matches Expr::Aggregate { kind, arg }
    &&& out.kind == kind
    &&& reflects(functions, fields, *arg, out.input)
    &&& aggregate_typed(functions, fields, e) == Ok::<TypeDef, Failure>(out.data_type)
}

/// Whether `out` is what `plan` lowers to: an operator for each node of the plan, views
/// looked through, each with the fields that `plan_fields` gives for its node.
pub open spec fn lowers(
    tables: Map<Seq<char>, Table>,
    functions: Map<Seq<char>, ScalarFunction>,
    plan: LogicalPlan,
    depth: nat,
    out: SqlOperator,
) -> bool
    decreases depth, plan, 1int,
{
    &&& plan_fields(tables, functions, plan, depth) == Ok::<Seq<FieldView>, Failure>(
        out.schema@.fields,
    )
    &&& out.schema@.name is None
    &&& lowers_body(tables, functions, plan, depth, out.body)
}

/// Whether `body` is what `plan` lowers to, leaving aside the schema.
pub open spec fn lowers_body(
    tables: Map<Seq<char>, Table>,
    functions: Map<Seq<char>, ScalarFunction>,
    plan: LogicalPlan,
    depth: nat,
    body: OperatorBody,
) -> bool
    decreases depth, plan, 0int,
{
    match plan {
        LogicalPlan::TableScan { table_name, .. } => tables.contains_key(table_name@)
            && match tables[table_name@] {
            Table::ConnectorTable(t) => is_source_of(body, t),
            Table::TableFromQuery { logical_plan, .. } => depth > 0 && lowers_body(
                tables,
                functions,
                logical_plan,
                (depth - 1) as nat,
                body,
            ),
            _ => false,
        },
        LogicalPlan::Projection { exprs, input } => {
            &&& body matches OperatorBody::Projection { input: out_input, exprs: out_exprs }
            &&& lowers(tables, functions, *input, depth, *out_input)
            &&& out_exprs@.len() == exprs@.len()
            &&& forall|i: int|
                0 <= i < exprs@.len() ==> reflects(
                    functions,
                    out_input.schema@.fields,
                    #[trigger] exprs@[i],
                    out_exprs@[i],
                )
        },
        LogicalPlan::Filter { predicate, input } => {
            &&& body matches OperatorBody::Filter { input: out_input, predicate: out_predicate }
            &&& lowers(tables, functions, *input, depth, *out_input)
            &&& reflects(functions, out_input.schema@.fields, predicate, out_predicate)
        },
        LogicalPlan::Join { left, right, kind, condition } => {
            &&& body matches OperatorBody::Join {
                left: out_left,
                right: out_right,
                kind: out_kind,
                condition: out_condition,
            }
            &&& out_kind == kind
            &&& lowers(tables, functions, *left, depth, *out_left)
            &&& lowers(tables, functions, *right, depth, *out_right)
            &&& reflects(
                functions,
                out_left.schema@.fields + out_right.schema@.fields,
                condition,
                out_condition,
            )
        },
        LogicalPlan::Aggregate { group_exprs, aggr_exprs, input } => {
            &&& body matches OperatorBody::Aggregate { input: out_input, window, keys, aggregates }
            &&& lowers(tables, functions, *input, depth, *out_input)
            &&& grouped(
                functions,
                out_input.schema@.fields,
                group_exprs@,
                group_exprs@.len() as int,
            ) matches Ok((_, w))
            &&& window == w
            &&& keys@.len() == group_exprs@.len()
            &&& forall|i: int|
                0 <= i < group_exprs@.len() ==> key_reflects(
                    functions,
                    out_input.schema@.fields,
                    #[trigger] group_exprs@[i],
                    keys@[i],
                )
            &&& aggregates@.len() == aggr_exprs@.len()
            &&& forall|i: int|
                0 <= i < aggr_exprs@.len() ==> aggregate_reflects(
                    functions,
                    out_input.schema@.fields,
                    #[trigger] aggr_exprs@[i],
                    aggregates@[i],
                )
        },
        _ => false,
    }
}

/// Whether `body` is the source operator of the connector table `t`.
pub open spec fn is_source_of(body: OperatorBody, t: crate::tables::ConnectorTable) -> bool {
    &&& body matches OperatorBody::Source {
        name,
        id,
        struct_name,
        operator,
        config,
        serialization_mode,
    }
    &&& name@ == t.name@
    &&& id == t.id
    &&& opt_view(struct_name) == opt_view(t.struct_name)
    &&& operator@ == t.operator@
    &&& config@ == t.config@
    &&& serialization_mode == t.serialization_mode
}

/// Once a projection fails among its first `n` expressions, it fails the same way for more.
pub proof fn lemma_projected_fails(
    functions: Map<Seq<char>, ScalarFunction>,
    fields: Seq<FieldView>,
    exprs: Seq<Expr>,
    n: int,
    m: int,
)
    requires
        0 <= n <= m <= exprs.len(),
        projected(functions, fields, exprs, n) is Err,
    ensures
        projected(functions, fields, exprs, m) == projected(functions, fields, exprs, n),
    decreases m - n,
{
    if n < m {
        lemma_projected_fails(functions, fields, exprs, n, m - 1);
    }
}

/// Once grouping fails among its first `n` expressions, it fails the same way for more.
pub proof fn lemma_grouped_fails(
    functions: Map<Seq<char>, ScalarFunction>,
    fields: Seq<FieldView>,
    exprs: Seq<Expr>,
    n: int,
    m: int,
)
    requires
        0 <= n <= m <= exprs.len(),
        grouped(functions, fields, exprs, n) is Err,
    ensures
        grouped(functions, fields, exprs, m) == grouped(functions, fields, exprs, n),
    decreases m - n,
{
    if n < m {
        lemma_grouped_fails(functions, fields, exprs, n, m - 1);
    }
}

/// Once aggregation fails among its first `n` expressions, it fails the same way for more.
pub proof fn lemma_aggregated_fails(
    functions: Map<Seq<char>, ScalarFunction>,
    fields: Seq<FieldView>,
    exprs: Seq<Expr>,
    n: int,
    m: int,
)
    requires
        0 <= n <= m <= exprs.len(),
        aggregated(functions, fields, exprs, n) is Err,
    ensures
        aggregated(functions, fields, exprs, m) == aggregated(functions, fields, exprs, n),
    decreases m - n,
{
    if n < m {
        lemma_aggregated_fails(functions, fields, exprs, n, m - 1);
    }
}

/// The fields under another relation's name.
pub fn scan_fields(fields: &Vec<StructField>, alias: &str) -> (r: Vec<StructField>)
    ensures
        fields_view(r@) == aliased(fields_view(fields@), alias@),
{
    let mut r: Vec<StructField> = Vec::new();
    let mut i: usize = 0;
    while i < fields.len()
        invariant
            i <= fields.len(),
            r@.len() == i,
            forall|j: int| 0 <= j < i ==> (#[trigger] r@[j])@ == fields@[j]@.aliased(alias@),
        decreases fields.len() - i,
    {
        r.push(
            StructField {
                name: fields[i].name.clone(),
                alias: Some(alias.to_owned()),
                data_type: fields[i].data_type,
            },
        );
        i += 1;
    }
    assert(fields_view(r@) =~= aliased(fields_view(fields@), alias@));
    r
}

/// The fields, all nullable.
pub fn nullable_fields(fields: &Vec<StructField>) -> (r: Vec<StructField>)
    ensures
        fields_view(r@) == nullable(fields_view(fields@)),
{
    let mut r: Vec<StructField> = Vec::new();
    let mut i: usize = 0;
    while i < fields.len()
        invariant
            i <= fields.len(),
            r@.len() == i,
            forall|j: int| 0 <= j < i ==> (#[trigger] r@[j])@ == fields@[j]@.nullable(),
        decreases fields.len() - i,
    {
        r.push(fields[i].as_nullable());
        i += 1;
    }
    assert(fields_view(r@) =~= nullable(fields_view(fields@)));
    r
}

/// The fields of `front`, then those of `back`.
pub fn append_fields(front: Vec<StructField>, back: &Vec<StructField>) -> (r: Vec<StructField>)
    ensures
        fields_view(r@) == fields_view(front@) + fields_view(back@),
{
    let mut r = front;
    let mut i: usize = 0;
    assert(r@ =~= front@ + back@.take(0));
    while i < back.len()
        invariant
            i <= back.len(),
            r@ == front@ + back@.take(i as int),
        decreases back.len() - i,
    {
        r.push(back[i].clone());
        assert(r@ =~= front@ + back@.take(i + 1));
        i += 1;
    }
    assert(back@.take(back.len() as int) =~= back@);
    assert(fields_view(r@) =~= fields_view(front@) + fields_view(back@));
    r
}

/// The expression under its aliases.
pub fn strip_alias(e: &Expr) -> (r: &Expr)
    ensures
        *r == unaliased(*e),
    decreases e,
{
    match e {
        Expr::Alias { input, .. } => strip_alias(input),
        _ => e,
    }
}

pub fn is_window_call(e: &Expr) -> (b: bool)
    ensures
        b == window_call(*e),
{
    match strip_alias(e) {
        Expr::Call { name, .. } => str_eq(name.as_str(), "tumble") || str_eq(name.as_str(), "hop"),
        _ => false,
    }
}

fn interval_at(args: &Vec<Expr>, i: usize) -> (d: Option<Duration>)
    ensures
        match d {
            Some(d) => interval_arg(args@, i as int) == Some(d.nanos as int),
            None => interval_arg(args@, i as int) is None,
        },
{
    if i < args.len() {
        match &args[i] {
            Expr::Interval(v) => interval_duration(*v),
            _ => None,
        }
    } else {
        None
    }
}

/// The window that a call of a window constructor asks for.
pub fn window_for(e: &Expr) -> (r: Result<WindowType, ErrorKind>)
    ensures
        match r {
            Ok(w) => window_of(*e) == Ok::<WindowType, Failure>(w),
            Err(k) => window_of(*e) == Err::<WindowType, Failure>(failure(k, "window"@)),
        },
{
    match strip_alias(e) {
        Expr::Call { name, args } => {
            if str_eq(name.as_str(), "tumble") {
                match interval_at(args, 0) {
                    Some(size) => if args.len() == 1 {
                        Ok(WindowType::Tumbling { size })
                    } else {
                        Err(ErrorKind::UnsupportedConstruct)
                    },
                    None => Err(ErrorKind::UnsupportedConstruct),
                }
            } else {
                match (interval_at(args, 0), interval_at(args, 1)) {
                    (Some(slide), Some(size)) => if args.len() == 2 {
                        Ok(WindowType::Hopping { size, slide })
                    } else {
                        Err(ErrorKind::UnsupportedConstruct)
                    },
                    _ => Err(ErrorKind::UnsupportedConstruct),
                }
            }
        },
        _ => Err(ErrorKind::UnsupportedConstruct),
    }
}

/// The output field of an expression of type `t` over the given schema.
pub fn output_field_of(schema: &StructDef, e: &Expr, t: TypeDef) -> (f: StructField)
    ensures
        f@ == output_field(schema@.fields, *e, t),
{
    match e {
        Expr::Column(c) => {
            let alias = match schema.field_index(&c.relation, c.name.as_str()) {
                Some(i) => {
                    assert(schema@.fields[i as int] == schema.fields@[i as int]@);
                    clone_opt(&schema.fields[i].alias)
                },
                None => None,
            };
            StructField { name: c.name.clone(), alias, data_type: t }
        },
        Expr::Alias { name, .. } => StructField { name: name.clone(), alias: None, data_type: t },
        _ => StructField { name: "?column?".to_owned(), alias: None, data_type: t },
    }
}

/// The field that stands for the window, or for an aggregate, among the outputs.
pub fn window_field_of(e: &Expr, t: TypeDef) -> (f: StructField)
    ensures
        f@ == window_field(*e).typed_as(t),
{
    match e {
        Expr::Alias { name, .. } => StructField { name: name.clone(), alias: None, data_type: t },
        _ => StructField { name: "?column?".to_owned(), alias: None, data_type: t },
    }
}

pub fn aggregate_result(kind: AggregateKind, t: TypeDef) -> (r: Result<TypeDef, ErrorKind>)
    ensures
        r == aggregate_type(kind, t),
{
    match kind {
        AggregateKind::Count => Ok(TypeDef { kind: PrimitiveKind::Int64, nullable: false }),
        AggregateKind::Sum => if t.kind.is_numeric() {
            Ok(t)
        } else {
            Err(ErrorKind::PlanError)
        },
        AggregateKind::Avg => if t.kind.is_numeric() {
            Ok(TypeDef { kind: PrimitiveKind::Float64, nullable: t.nullable })
        } else {
            Err(ErrorKind::PlanError)
        },
        AggregateKind::Min | AggregateKind::Max => Ok(t),
    }
}

} // verus!

verus! {

/// Compiles the expressions of a projection against the schema of its input.
pub fn compile_projection(
    catalog: &ArroyoSchemaProvider,
    schema: &StructDef,
    exprs: &Vec<Expr>,
) -> (r: Result<(Vec<Expression>, Vec<StructField>), SqlError>)
    ensures
        match r {
            Ok((out, fields)) => {
                &&& projected(catalog.functions@, schema@.fields, exprs@, exprs@.len() as int)
                    == Ok::<Seq<FieldView>, Failure>(fields_view(fields@))
                &&& out@.len() == exprs@.len()
                &&& forall|i: int|
                    0 <= i < exprs@.len() ==> reflects(
                        catalog.functions@,
                        schema@.fields,
                        #[trigger] exprs@[i],
                        out@[i],
                    )
            },
            Err(e) => projected(catalog.functions@, schema@.fields, exprs@, exprs@.len() as int)
                == Err::<Seq<FieldView>, Failure>(e@),
        },
{
    let ctx = ExpressionContext { schema_provider: catalog, input_struct: schema };
    let mut out: Vec<Expression> = Vec::new();
    let mut fields: Vec<StructField> = Vec::new();
    let mut i: usize = 0;
    assert(fields_view(fields@) =~= Seq::<FieldView>::empty());
    while i < exprs.len()
        invariant
            i <= exprs.len(),
            out@.len() == i,
            ctx.schema_provider == catalog,
            ctx.input_struct == schema,
            projected(catalog.functions@, schema@.fields, exprs@, i as int) == Ok::<
                Seq<FieldView>,
                Failure,
            >(fields_view(fields@)),
            forall|j: int|
                0 <= j < i ==> reflects(
                    catalog.functions@,
                    schema@.fields,
                    #[trigger] exprs@[j],
                    out@[j],
                ),
        decreases exprs.len() - i,
    {
        match ctx.compile_expr(&exprs[i]) {
            Ok(c) => {
                proof {
                    crate::expressions::lemma_reflects_typed(
                        catalog.functions@,
                        schema@.fields,
                        exprs@[i as int],
                        c,
                    );
                }
                let ghost before = fields_view(fields@);
                let f = output_field_of(schema, &exprs[i], c.data_type());
                fields.push(f);
                out.push(c);
                assert(fields_view(fields@) =~= before.push(f@));
            },
            Err(e) => {
                proof {
                    lemma_projected_fails(
                        catalog.functions@,
                        schema@.fields,
                        exprs@,
                        i + 1,
                        exprs@.len() as int,
                    );
                }
                return Err(e);
            },
        }
        i += 1;
    }
    Ok((out, fields))
}

/// Compiles the grouping expressions of an aggregate and finds the window among them.
pub fn compile_keys(catalog: &ArroyoSchemaProvider, schema: &StructDef, exprs: &Vec<Expr>) -> (r:
    Result<(Vec<KeyExpr>, Vec<StructField>, WindowType), SqlError>)
    ensures
        match r {
            Ok((keys, fields, window)) => {
                &&& grouped(catalog.functions@, schema@.fields, exprs@, exprs@.len() as int)
                    == Ok::<(Seq<FieldView>, WindowType), Failure>(
                    (fields_view(fields@), window),
                )
                &&& keys@.len() == exprs@.len()
                &&& forall|i: int|
                    0 <= i < exprs@.len() ==> key_reflects(
                        catalog.functions@,
                        schema@.fields,
                        #[trigger] exprs@[i],
                        keys@[i],
                    )
            },
            Err(e) => grouped(catalog.functions@, schema@.fields, exprs@, exprs@.len() as int)
                == Err::<(Seq<FieldView>, WindowType), Failure>(e@),
        },
{
    let ctx = ExpressionContext { schema_provider: catalog, input_struct: schema };
    let mut keys: Vec<KeyExpr> = Vec::new();
    let mut fields: Vec<StructField> = Vec::new();
    let mut window = WindowType::Instant;
    let mut i: usize = 0;
    assert(fields_view(fields@) =~= Seq::<FieldView>::empty());
    while i < exprs.len()
        invariant
            i <= exprs.len(),
            keys@.len() == i,
            ctx.schema_provider == catalog,
            ctx.input_struct == schema,
            grouped(catalog.functions@, schema@.fields, exprs@, i as int) == Ok::<
                (Seq<FieldView>, WindowType),
                Failure,
            >((fields_view(fields@), window)),
            forall|j: int|
                0 <= j < i ==> key_reflects(
                    catalog.functions@,
                    schema@.fields,
                    #[trigger] exprs@[j],
                    keys@[j],
                ),
        decreases exprs.len() - i,
    {
        let ghost before = fields_view(fields@);
        if is_window_call(&exprs[i]) {
            if window != WindowType::Instant {
                proof {
                    lemma_grouped_fails(
                        catalog.functions@,
                        schema@.fields,
                        exprs@,
                        i + 1,
                        exprs@.len() as int,
                    );
                }
                return Err(SqlError::new(ErrorKind::UnsupportedConstruct, "second window"));
            }
            match window_for(&exprs[i]) {
                Ok(w) => {
                    let f = window_field_of(
                        &exprs[i],
                        TypeDef { kind: PrimitiveKind::Timestamp, nullable: false },
                    );
                    fields.push(f);
                    keys.push(KeyExpr::Window);
                    window = w;
                    assert(fields_view(fields@) =~= before.push(f@));
                },
                Err(kind) => {
                    proof {
                        lemma_grouped_fails(
                            catalog.functions@,
                            schema@.fields,
                            exprs@,
                            i + 1,
                            exprs@.len() as int,
                        );
                    }
                    return Err(SqlError::new(kind, "window"));
                },
            }
        } else {
            match ctx.compile_expr(&exprs[i]) {
                Ok(c) => {
                    proof {
                        crate::expressions::lemma_reflects_typed(
                            catalog.functions@,
                            schema@.fields,
                            exprs@[i as int],
                            c,
                        );
                    }
                    let f = output_field_of(schema, &exprs[i], c.data_type());
                    fields.push(f);
                    keys.push(KeyExpr::Value(c));
                    assert(fields_view(fields@) =~= before.push(f@));
                },
                Err(e) => {
                    proof {
                        lemma_grouped_fails(
                            catalog.functions@,
                            schema@.fields,
                            exprs@,
                            i + 1,
                            exprs@.len() as int,
                        );
                    }
                    return Err(e);
                },
            }
        }
        i += 1;
    }
    Ok((keys, fields, window))
}

/// Compiles the aggregate expressions of an aggregate.
pub fn compile_aggregates(
    catalog: &ArroyoSchemaProvider,
    schema: &StructDef,
    exprs: &Vec<Expr>,
) -> (r: Result<(Vec<AggregateExpr>, Vec<StructField>), SqlError>)
    ensures
        match r {
            Ok((out, fields)) => {
                &&& aggregated(catalog.functions@, schema@.fields, exprs@, exprs@.len() as int)
                    == Ok::<Seq<FieldView>, Failure>(fields_view(fields@))
                &&& out@.len() == exprs@.len()
                &&& forall|i: int|
                    0 <= i < exprs@.len() ==> aggregate_reflects(
                        catalog.functions@,
                        schema@.fields,
                        #[trigger] exprs@[i],
                        out@[i],
                    )
            },
            Err(e) => aggregated(catalog.functions@, schema@.fields, exprs@, exprs@.len() as int)
                == Err::<Seq<FieldView>, Failure>(e@),
        },
{
    let ctx = ExpressionContext { schema_provider: catalog, input_struct: schema };
    let mut out: Vec<AggregateExpr> = Vec::new();
    let mut fields: Vec<StructField> = Vec::new();
    let mut i: usize = 0;
    assert(fields_view(fields@) =~= Seq::<FieldView>::empty());
    while i < exprs.len()
        invariant
            i <= exprs.len(),
            out@.len() == i,
            ctx.schema_provider == catalog,
            ctx.input_struct == schema,
            aggregated(catalog.functions@, schema@.fields, exprs@, i as int) == Ok::<
                Seq<FieldView>,
                Failure,
            >(fields_view(fields@)),
            forall|j: int|
                0 <= j < i ==> aggregate_reflects(
                    catalog.functions@,
                    schema@.fields,
                    #[trigger] exprs@[j],
                    out@[j],
                ),
        decreases exprs.len() - i,
    {
        let ghost before = fields_view(fields@);
        let (kind, arg) = match strip_alias(&exprs[i]) {
            Expr::Aggregate { kind, arg } => (*kind, arg),
            _ => {
                proof {
                    lemma_aggregated_fails(
                        catalog.functions@,
                        schema@.fields,
                        exprs@,
                        i + 1,
                        exprs@.len() as int,
                    );
                }
                return Err(SqlError::new(ErrorKind::PlanError, "not an aggregate"));
            },
        };
        let input = match ctx.compile_expr(arg) {
            Ok(c) => c,
            Err(e) => {
                proof {
                    lemma_aggregated_fails(
                        catalog.functions@,
                        schema@.fields,
                        exprs@,
                        i + 1,
                        exprs@.len() as int,
                    );
                }
                return Err(e);
            },
        };
        proof {
            crate::expressions::lemma_reflects_typed(
                catalog.functions@,
                schema@.fields,
                **arg,
                input,
            );
        }
        let data_type = match aggregate_result(kind, input.data_type()) {
            Ok(t) => t,
            Err(k) => {
                proof {
                    lemma_aggregated_fails(
                        catalog.functions@,
                        schema@.fields,
                        exprs@,
                        i + 1,
                        exprs@.len() as int,
                    );
                }
                return Err(SqlError::new(k, "aggregate"));
            },
        };
        let f = window_field_of(&exprs[i], data_type);
        fields.push(f);
        out.push(AggregateExpr { kind, input, data_type });
        assert(fields_view(fields@) =~= before.push(f@));
        i += 1;
    }
    Ok((out, fields))
}

/// Compiles a condition: an expression that gives a boolean.
pub fn compile_condition(catalog: &ArroyoSchemaProvider, schema: &StructDef, e: &Expr) -> (r:
    Result<Expression, SqlError>)
    ensures
        match r {
            Ok(out) => reflects(catalog.functions@, schema@.fields, *e, out) && out.type_of().kind
                == PrimitiveKind::Boolean,
            Err(err) => match typed(catalog.functions@, schema@.fields, *e) {
                Ok(t) => t.kind != PrimitiveKind::Boolean && err@ == failure(
                    ErrorKind::PlanError,
                    "condition is not boolean"@,
                ),
                Err(f) => err@ == f,
            },
        },
{
    let ctx = ExpressionContext { schema_provider: catalog, input_struct: schema };
    let out = match ctx.compile_expr(e) {
        Ok(c) => c,
        Err(err) => {
            return Err(err);
        },
    };
    proof {
        crate::expressions::lemma_reflects_typed(catalog.functions@, schema@.fields, *e, out);
    }
    if out.data_type().kind == PrimitiveKind::Boolean {
        Ok(out)
    } else {
        Err(SqlError::new(ErrorKind::PlanError, "condition is not boolean"))
    }
}

} // verus!

verus! {

fn plain_schema(fields: Vec<StructField>) -> (d: StructDef)
    ensures
        d.fields == fields,
        d@.name is None,
{
    StructDef { name: None, fields }
}

pub fn scan_alias<'a>(table_name: &'a String, alias: &'a Option<String>) -> (a: &'a str)
    ensures
        a@ == scan_name(table_name@, opt_view(*alias)),
{
    match alias {
        Some(a) => a.as_str(),
        None => table_name.as_str(),
    }
}

/// The source operator of a connector table, giving its fields under `alias`.
fn source_of(t: &crate::tables::ConnectorTable, alias: &str) -> (op: SqlOperator)
    ensures
        is_source_of(op.body, *t),
        op.schema@.name is None,
        op.schema@.fields == aliased(fields_view(t.fields@), alias@),
{
    SqlOperator {
        body: OperatorBody::Source {
            name: t.name.clone(),
            id: t.id,
            struct_name: clone_opt(&t.struct_name),
            operator: t.operator.clone(),
            config: t.config.clone(),
            serialization_mode: t.serialization_mode,
        },
        schema: plain_schema(scan_fields(&t.fields, alias)),
    }
}

/// Lowers a plan into operators. It succeeds exactly where `plan_fields` gives fields for
/// the plan, and fails with the reason `plan_fields` gives where it gives none.
pub fn lower_plan(catalog: &ArroyoSchemaProvider, plan: &LogicalPlan, depth: usize) -> (r: Result<
    SqlOperator,
    SqlError,
>)
    ensures
        match r {
            Ok(out) => lowers(catalog.tables@, catalog.functions@, *plan, depth as nat, out),
            Err(e) => plan_fields(catalog.tables@, catalog.functions@, *plan, depth as nat)
                == Err::<Seq<FieldView>, Failure>(e@),
        },
    decreases depth, plan,
{
    match plan {
        LogicalPlan::TableScan { table_name, alias } => {
            let table = match catalog.get_table(table_name.as_str()) {
                Some(t) => t,
                None => {
                    return Err(SqlError::new(ErrorKind::UnknownTable, table_name.as_str()));
                },
            };
            let name = scan_alias(table_name, alias);
            match table {
                Table::ConnectorTable(t) => match t.connector_type {
                    ConnectorType::Source => Ok(source_of(t, name)),
                    ConnectorType::Sink => Err(
                        SqlError::new(ErrorKind::UnsupportedConstruct, "scan of a sink"),
                    ),
                },
                Table::TableFromQuery { logical_plan, .. } => {
                    if depth == 0 {
                        return Err(SqlError::new(ErrorKind::PlanError, table_name.as_str()));
                    }
                    let inner = match lower_plan(catalog, logical_plan, depth - 1) {
                        Ok(op) => op,
                        Err(e) => {
                            return Err(e);
                        },
                    };
                    let schema = plain_schema(scan_fields(&inner.schema.fields, name));
                    Ok(SqlOperator { body: inner.body, schema })
                },
                _ => Err(SqlError::new(ErrorKind::PlanError, table_name.as_str())),
            }
        },
        LogicalPlan::Projection { exprs, input } => {
            let lowered = match lower_plan(catalog, input, depth) {
                Ok(op) => op,
                Err(e) => {
                    return Err(e);
                },
            };
            let (out, fields) = match compile_projection(catalog, &lowered.schema, exprs) {
                Ok(p) => p,
                Err(e) => {
                    return Err(e);
                },
            };
            Ok(
                SqlOperator {
                    body: OperatorBody::Projection { input: Box::new(lowered), exprs: out },
                    schema: plain_schema(fields),
                },
            )
        },
        LogicalPlan::Filter { predicate, input } => {
            let lowered = match lower_plan(catalog, input, depth) {
                Ok(op) => op,
                Err(e) => {
                    return Err(e);
                },
            };
            let out = match compile_condition(catalog, &lowered.schema, predicate) {
                Ok(c) => c,
                Err(e) => {
                    return Err(e);
                },
            };
            proof {
                crate::expressions::lemma_reflects_typed(
                    catalog.functions@,
                    lowered.schema@.fields,
                    *predicate,
                    out,
                );
            }
            let schema = plain_schema(crate::types::clone_fields(&lowered.schema.fields));
            Ok(
                SqlOperator {
                    body: OperatorBody::Filter { input: Box::new(lowered), predicate: out },
                    schema,
                },
            )
        },
        LogicalPlan::Join { left, right, kind, condition } => {
            match kind {
                JoinKind::Inner | JoinKind::Left | JoinKind::Right | JoinKind::Full => {},
                JoinKind::LeftSemi => {
                    return Err(SqlError::new(ErrorKind::UnsupportedConstruct, "left semi join"));
                },
                JoinKind::RightSemi => {
                    return Err(SqlError::new(ErrorKind::UnsupportedConstruct, "right semi join"));
                },
                JoinKind::LeftAnti => {
                    return Err(SqlError::new(ErrorKind::UnsupportedConstruct, "left anti join"));
                },
                JoinKind::RightAnti => {
                    return Err(SqlError::new(ErrorKind::UnsupportedConstruct, "right anti join"));
                },
            }
            let l = match lower_plan(catalog, left, depth) {
                Ok(op) => op,
                Err(e) => {
                    return Err(e);
                },
            };
            let r = match lower_plan(catalog, right, depth) {
                Ok(op) => op,
                Err(e) => {
                    return Err(e);
                },
            };
            let both = plain_schema(
                append_fields(crate::types::clone_fields(&l.schema.fields), &r.schema.fields),
            );
            let out = match compile_condition(catalog, &both, condition) {
                Ok(c) => c,
                Err(e) => {
                    return Err(e);
                },
            };
            proof {
                crate::expressions::lemma_reflects_typed(
                    catalog.functions@,
                    both@.fields,
                    *condition,
                    out,
                );
            }
            let left_fields = match kind {
                JoinKind::Right | JoinKind::Full => nullable_fields(&l.schema.fields),
                _ => crate::types::clone_fields(&l.schema.fields),
            };
            let right_fields = match kind {
                JoinKind::Left | JoinKind::Full => nullable_fields(&r.schema.fields),
                _ => crate::types::clone_fields(&r.schema.fields),
            };
            let schema = plain_schema(append_fields(left_fields, &right_fields));
            Ok(
                SqlOperator {
                    body: OperatorBody::Join {
                        left: Box::new(l),
                        right: Box::new(r),
                        kind: *kind,
                        condition: out,
                    },
                    schema,
                },
            )
        },
        LogicalPlan::Aggregate { group_exprs, aggr_exprs, input } => {
            let lowered = match lower_plan(catalog, input, depth) {
                Ok(op) => op,
                Err(e) => {
                    return Err(e);
                },
            };
            let (keys, key_fields, window) = match compile_keys(
                catalog,
                &lowered.schema,
                group_exprs,
            ) {
                Ok(k) => k,
                Err(e) => {
                    return Err(e);
                },
            };
            let (aggregates, aggregate_fields) = match compile_aggregates(
                catalog,
                &lowered.schema,
                aggr_exprs,
            ) {
                Ok(a) => a,
                Err(e) => {
                    return Err(e);
                },
            };
            let schema = plain_schema(append_fields(key_fields, &aggregate_fields));
            Ok(
                SqlOperator {
                    body: OperatorBody::Aggregate {
                        input: Box::new(lowered),
                        window,
                        keys,
                        aggregates,
                    },
                    schema,
                },
            )
        },
        LogicalPlan::CreateView { .. } => Err(
            SqlError::new(ErrorKind::UnsupportedConstruct, "create view inside a query"),
        ),
        LogicalPlan::CreateMemoryTable { .. } => Err(
            SqlError::new(ErrorKind::UnsupportedConstruct, "create table inside a query"),
        ),
        LogicalPlan::Insert { .. } => Err(
            SqlError::new(ErrorKind::UnsupportedConstruct, "insert inside a query"),
        ),
        LogicalPlan::Unsupported { construct, .. } => Err(
            SqlError::new(ErrorKind::UnsupportedConstruct, construct.as_str()),
        ),
    }
}

} // verus!

verus! {

/// Builds the operators of the outputs of a query, one tree for each output.
pub struct SqlPipelineBuilder<'a> {
    pub schema_provider: &'a ArroyoSchemaProvider,
    pub output_nodes: Vec<SqlOperator>,
}

/// Whether `body` is the sink operator of the connector table `t`.
pub open spec fn is_sink_of(body: OperatorBody, t: crate::tables::ConnectorTable) -> bool {
    &&& body matches OperatorBody::Sink { name, id, operator, config, .. }
    &&& name@ == t.name@
    &&& id == t.id
    &&& operator@ == t.operator@
    &&& config@ == t.config@
}

/// Whether a table can be realized as an output, or why not. A connector table is an
/// output as a source; a query is one where its plan can be lowered; an insert needs, after
/// that, its sink: a connector table that is written to.
pub open spec fn realizable(
    tables: Map<Seq<char>, Table>,
    functions: Map<Seq<char>, ScalarFunction>,
    table: Table,
) -> Result<(), Failure> {
    match table {
        Table::ConnectorTable(t) => if t.connector_type == ConnectorType::Source {
            Ok(())
        } else {
            Err(failure(ErrorKind::UnsupportedConstruct, t.name@))
        },
        Table::TableFromQuery { logical_plan, .. } => match plan_fields(
            tables,
            functions,
            logical_plan,
            crate::tables::view_depth(tables),
        ) {
            Ok(_) => Ok(()),
            Err(e) => Err(e),
        },
        Table::Anonymous { logical_plan, .. } => match plan_fields(
            tables,
            functions,
            logical_plan,
            crate::tables::view_depth(tables),
        ) {
            Ok(_) => Ok(()),
            Err(e) => Err(e),
        },
        Table::InsertQuery { sink_name, logical_plan, .. } => match plan_fields(
            tables,
            functions,
            logical_plan,
            crate::tables::view_depth(tables),
        ) {
            Err(e) => Err(e),
            Ok(_) => if !tables.contains_key(sink_name@) {
                Err(failure(ErrorKind::UnknownTable, sink_name@))
            } else {
                match tables[sink_name@] {
                    Table::ConnectorTable(t) => if t.connector_type == ConnectorType::Sink {
                        Ok(())
                    } else {
                        Err(failure(ErrorKind::UnsupportedConstruct, sink_name@))
                    },
                    _ => Err(failure(ErrorKind::UnsupportedConstruct, sink_name@)),
                }
            },
        },
    }
}

/// Whether `out` is the operator tree of the output `table`.
pub open spec fn realizes(
    tables: Map<Seq<char>, Table>,
    functions: Map<Seq<char>, ScalarFunction>,
    table: Table,
    out: SqlOperator,
) -> bool {
    match table {
        Table::ConnectorTable(t) => {
            &&& is_source_of(out.body, t)
            &&& out.schema@.name is None
            &&& out.schema@.fields == aliased(fields_view(t.fields@), t.name@)
        },
        Table::TableFromQuery { logical_plan, .. } => lowers(
            tables,
            functions,
            logical_plan,
            crate::tables::view_depth(tables),
            out,
        ),
        Table::Anonymous { logical_plan, .. } => lowers(
            tables,
            functions,
            logical_plan,
            crate::tables::view_depth(tables),
            out,
        ),
        Table::InsertQuery { sink_name, logical_plan, .. } => {
            &&& tables.contains_key(sink_name@)
            &&& tables[sink_name@] matches Table::ConnectorTable(t)
            &&& is_sink_of(out.body, t)
            &&& out.body matches OperatorBody::Sink { input, .. }
            &&& lowers(tables, functions, logical_plan, crate::tables::view_depth(tables), *input)
            &&& out.schema@.name is None
            &&& out.schema@.fields == fields_view(t.fields@)
        },
    }
}

impl SqlOperator {
    pub open spec fn sink(self) -> bool {
        self.body is Sink
    }

    pub fn is_sink(&self) -> (b: bool)
        ensures
            b == self.sink(),
    {
        match &self.body {
            OperatorBody::Sink { .. } => true,
            _ => false,
        }
    }
}

/// The operator tree of one output.
pub fn realize(catalog: &ArroyoSchemaProvider, table: &Table) -> (r: Result<SqlOperator, SqlError>)
    ensures
        match r {
            Ok(out) => realizable(catalog.tables@, catalog.functions@, *table) is Ok && realizes(
                catalog.tables@,
                catalog.functions@,
                *table,
                out,
            ) && out.sink() == (*table is InsertQuery),
            Err(e) => realizable(catalog.tables@, catalog.functions@, *table) == Err::<
                (),
                Failure,
            >(e@),
        },
{
    match table {
        Table::ConnectorTable(t) => match t.connector_type {
            ConnectorType::Source => Ok(source_of(t, t.name.as_str())),
            ConnectorType::Sink => Err(
                SqlError::new(ErrorKind::UnsupportedConstruct, t.name.as_str()),
            ),
        },
        Table::TableFromQuery { logical_plan, .. } => {
            let r = lower_plan(catalog, logical_plan, catalog.view_depth());
            proof {
                lemma_lowered_is_no_sink(
                    catalog.tables@,
                    catalog.functions@,
                    *logical_plan,
                    crate::tables::view_depth(catalog.tables@),
                    r,
                );
            }
            r
        },
        Table::Anonymous { logical_plan, .. } => {
            let r = lower_plan(catalog, logical_plan, catalog.view_depth());
            proof {
                lemma_lowered_is_no_sink(
                    catalog.tables@,
                    catalog.functions@,
                    *logical_plan,
                    crate::tables::view_depth(catalog.tables@),
                    r,
                );
            }
            r
        },
        Table::InsertQuery { sink_name, logical_plan, .. } => {
            let input = match lower_plan(catalog, logical_plan, catalog.view_depth()) {
                Ok(op) => op,
                Err(e) => {
                    return Err(e);
                },
            };
            let sink = match catalog.get_table(sink_name.as_str()) {
                Some(t) => t,
                None => {
                    return Err(SqlError::new(ErrorKind::UnknownTable, sink_name.as_str()));
                },
            };
            match sink {
                Table::ConnectorTable(t) => match t.connector_type {
                    ConnectorType::Sink => Ok(
                        SqlOperator {
                            body: OperatorBody::Sink {
                                name: t.name.clone(),
                                id: t.id,
                                operator: t.operator.clone(),
                                config: t.config.clone(),
                                input: Box::new(input),
                            },
                            schema: plain_schema(crate::types::clone_fields(&t.fields)),
                        },
                    ),
                    ConnectorType::Source => Err(
                        SqlError::new(ErrorKind::UnsupportedConstruct, sink_name.as_str()),
                    ),
                },
                _ => Err(SqlError::new(ErrorKind::UnsupportedConstruct, sink_name.as_str())),
            }
        },
    }
}

/// What a plan lowers to is never a sink: only an insert makes one.
pub proof fn lemma_lowered_is_no_sink(
    tables: Map<Seq<char>, Table>,
    functions: Map<Seq<char>, ScalarFunction>,
    plan: LogicalPlan,
    depth: nat,
    r: Result<SqlOperator, SqlError>,
)
    requires
        r matches Ok(out) ==> lowers(tables, functions, plan, depth, out),
    ensures
        r matches Ok(out) ==> !out.sink(),
{
    if let Ok(out) = r {
        lemma_lowered_body_is_no_sink(tables, functions, plan, depth, out.body);
    }
}

pub proof fn lemma_lowered_body_is_no_sink(
    tables: Map<Seq<char>, Table>,
    functions: Map<Seq<char>, ScalarFunction>,
    plan: LogicalPlan,
    depth: nat,
    body: OperatorBody,
)
    requires
        lowers_body(tables, functions, plan, depth, body),
    ensures
        !(body is Sink),
    decreases depth, plan,
{
    match plan {
        LogicalPlan::TableScan { table_name, .. } => {
            match tables[table_name@] {
                Table::TableFromQuery { logical_plan, .. } => {
                    lemma_lowered_body_is_no_sink(
                        tables,
                        functions,
                        logical_plan,
                        (depth - 1) as nat,
                        body,
                    );
                },
                _ => {},
            }
        },
        _ => {},
    }
}

impl<'a> SqlPipelineBuilder<'a> {
    pub fn new(schema_provider: &'a ArroyoSchemaProvider) -> (b: SqlPipelineBuilder<'a>)
        ensures
            b.schema_provider == schema_provider,
            b.output_nodes@.len() == 0,
    {
        SqlPipelineBuilder { schema_provider, output_nodes: Vec::new() }
    }

    /// Realizes one output and keeps its operator tree. Where that fails nothing is kept.
    pub fn insert_table(&mut self, table: &Table) -> (r: Result<(), SqlError>)
        ensures
            final(self).schema_provider == old(self).schema_provider,
            match r {
                Ok(()) => {
                    &&& realizable(
                        old(self).schema_provider.tables@,
                        old(self).schema_provider.functions@,
                        *table,
                    ) is Ok
                    &&& final(self).output_nodes@.len() == old(self).output_nodes@.len() + 1
                    &&& final(self).output_nodes@.drop_last() == old(self).output_nodes@
                    &&& realizes(
                        old(self).schema_provider.tables@,
                        old(self).schema_provider.functions@,
                        *table,
                        final(self).output_nodes@.last(),
                    )
                    &&& final(self).output_nodes@.last().sink() == (*table is InsertQuery)
                },
                Err(e) => {
                    &&& realizable(
                        old(self).schema_provider.tables@,
                        old(self).schema_provider.functions@,
                        *table,
                    ) == Err::<(), Failure>(e@)
                    &&& final(self).output_nodes@ == old(self).output_nodes@
                },
            },
    {
        match realize(self.schema_provider, table) {
            Ok(op) => {
                self.output_nodes.push(op);
                assert(self.output_nodes@.drop_last() =~= old(self).output_nodes@);
                Ok(())
            },
            Err(e) => Err(e),
        }
    }
}

} // verus!

verus! {

/// Whether an expression is a plain column that one of the fields answers.
pub open spec fn selects(fields: Seq<FieldView>, e: Expr) -> bool {
    match e {
        Expr::Column(c) => first_answer(fields, opt_view(c.relation), c.name@) is Some,
        _ => false,
    }
}

/// The position of the field that a plain column means.
pub open spec fn selected(fields: Seq<FieldView>, e: Expr) -> int {
    match e {
        Expr::Column(c) => first_answer(fields, opt_view(c.relation), c.name@)->0,
        _ => 0,
    }
}

/// A projection of plain columns gives one field for each column, in the order of the
/// columns: the field that the column means, with its name and its type.
pub proof fn lemma_projected_columns(
    functions: Map<Seq<char>, ScalarFunction>,
    fields: Seq<FieldView>,
    exprs: Seq<Expr>,
    n: int,
)
    requires
        0 <= n <= exprs.len(),
        forall|i: int| 0 <= i < n ==> selects(fields, #[trigger] exprs[i]),
    ensures
        projected(functions, fields, exprs, n) is Ok,
        projected(functions, fields, exprs, n)->Ok_0.len() == n,
        forall|i: int| 0 <= i < n ==> 0 <= #[trigger] selected(fields, exprs[i]) < fields.len(),
        forall|i: int|
            0 <= i < n ==> (#[trigger] projected(functions, fields, exprs, n)->Ok_0[i])
                == fields[selected(fields, exprs[i])],
    decreases n,
{
    assert forall|i: int| 0 <= i < n implies 0 <= #[trigger] selected(fields, exprs[i])
        < fields.len() by {
        assert(selects(fields, exprs[i]));
        match exprs[i] {
            Expr::Column(c) => {
                crate::types::lemma_first_answer(fields, opt_view(c.relation), c.name@);
            },
            _ => {},
        }
    }
    if n > 0 {
        lemma_projected_columns(functions, fields, exprs, n - 1);
        let front = projected(functions, fields, exprs, n - 1)->Ok_0;
        let e = exprs[n - 1];
        assert(selects(fields, e));
        let at = selected(fields, e);
        match e {
            Expr::Column(c) => {
                crate::types::lemma_first_answer(fields, opt_view(c.relation), c.name@);
            },
            _ => {},
        }
        let t = fields[at].data_type;
        match e {
            Expr::Column(c) => {
                assert(typed(functions, fields, e) == Ok::<TypeDef, Failure>(t));
                assert(output_field(fields, e, t) == fields[at]);
            },
            _ => {},
        }
        assert(projected(functions, fields, exprs, n) == Ok::<Seq<FieldView>, Failure>(
            front.push(fields[at]),
        ));
        assert forall|i: int| 0 <= i < n implies (#[trigger] projected(
            functions,
            fields,
            exprs,
            n,
        )->Ok_0[i]) == fields[selected(fields, exprs[i])] by {
            if i < n - 1 {
                assert(front.push(fields[at])[i] == front[i]);
                assert(projected(functions, fields, exprs, n - 1)->Ok_0[i] == fields[selected(
                    fields,
                    exprs[i],
                )]);
            }
        }
    }
}

/// `SELECT a, b, .. FROM t`, for a source table `t` and columns that `t` declares, gives
/// the fields `a, b, ..` in that order, each with the type that `t` declares for it.
pub proof fn lemma_select_from_table(
    tables: Map<Seq<char>, Table>,
    functions: Map<Seq<char>, ScalarFunction>,
    table: crate::tables::ConnectorTable,
    exprs: Vec<Expr>,
    depth: nat,
)
    requires
        tables.contains_key(table.name@),
        tables[table.name@] == Table::ConnectorTable(table),
        table.connector_type == ConnectorType::Source,
        forall|i: int|
            0 <= i < exprs@.len() ==> selects(
                aliased(fields_view(table.fields@), table.name@),
                #[trigger] exprs@[i],
            ),
    ensures
        ({
            let scan = LogicalPlan::TableScan { table_name: table.name, alias: None };
            let plan = LogicalPlan::Projection { exprs, input: Box::new(scan) };
            let declared = fields_view(table.fields@);
            &&& plan_fields(tables, functions, plan, depth) matches Ok(out)
            &&& out.len() == exprs@.len()
            &&& forall|i: int|
                0 <= i < exprs@.len() ==> {
                    let at = selected(aliased(declared, table.name@), exprs@[i]);
                    &&& 0 <= at < declared.len()
                    &&& exprs@[i] matches Expr::Column(c)
                    &&& (#[trigger] out[i]).name == c.name@
                    &&& out[i].name == declared[at].name
                    &&& out[i].data_type == declared[at].data_type
                }
        }),
{
    let declared = fields_view(table.fields@);
    let scanned = aliased(declared, table.name@);
    lemma_projected_columns(functions, scanned, exprs@, exprs@.len() as int);
    let out = projected(functions, scanned, exprs@, exprs@.len() as int)->Ok_0;
    let scan = LogicalPlan::TableScan { table_name: table.name, alias: None };
    let plan = LogicalPlan::Projection { exprs, input: Box::new(scan) };
    assert(plan_fields(tables, functions, scan, depth) == Ok::<Seq<FieldView>, Failure>(
        scanned,
    ));
    assert(plan_fields(tables, functions, plan, depth) == Ok::<Seq<FieldView>, Failure>(out));
    assert forall|i: int| 0 <= i < exprs@.len() implies {
        let at = selected(scanned, exprs@[i]);
        &&& 0 <= at < declared.len()
        &&& exprs@[i] matches Expr::Column(c)
        &&& (#[trigger] out[i]).name == c.name@
        &&& out[i].name == declared[at].name
        &&& out[i].data_type == declared[at].data_type
    } by {
        assert(selects(scanned, exprs@[i]));
        let at = selected(scanned, exprs@[i]);
        assert(out[i] == scanned[at]);
        match exprs@[i] {
            Expr::Column(c) => {
                crate::types::lemma_first_answer(scanned, opt_view(c.relation), c.name@);
            },
            _ => {},
        }
    }
}

} // verus!

verus! {

/// How often a plan reads the connector table of that name, views looked through.
pub open spec fn plan_reads(
    tables: Map<Seq<char>, Table>,
    plan: LogicalPlan,
    depth: nat,
    name: Seq<char>,
) -> nat
    decreases depth, plan,
{
    match plan {
        LogicalPlan::TableScan { table_name, .. } => if !tables.contains_key(table_name@) {
            0
        } else {
            match tables[table_name@] {
                Table::ConnectorTable(t) => if t.name@ == name {
                    1
                } else {
                    0
                },
                Table::TableFromQuery { logical_plan, .. } => if depth == 0 {
                    0
                } else {
                    plan_reads(tables, logical_plan, (depth - 1) as nat, name)
                },
                _ => 0,
            }
        },
        LogicalPlan::Projection { input, .. } => plan_reads(tables, *input, depth, name),
        LogicalPlan::Filter { input, .. } => plan_reads(tables, *input, depth, name),
        LogicalPlan::Aggregate { input, .. } => plan_reads(tables, *input, depth, name),
        LogicalPlan::Join { left, right, .. } => plan_reads(tables, *left, depth, name)
            + plan_reads(tables, *right, depth, name),
        _ => 0,
    }
}

/// What a plan lowers to reads a source as often as the plan reads the table.
pub proof fn lemma_lowered_reads(
    tables: Map<Seq<char>, Table>,
    functions: Map<Seq<char>, ScalarFunction>,
    plan: LogicalPlan,
    depth: nat,
    out: SqlOperator,
    name: Seq<char>,
)
    requires
        lowers_body(tables, functions, plan, depth, out.body),
    ensures
        crate::plan_graph::reads(out, name) + crate::plan_graph::read_once(out, name)
            == plan_reads(tables, plan, depth, name),
    decreases depth, plan,
{
    match plan {
        LogicalPlan::TableScan { table_name, .. } => {
            match tables[table_name@] {
                Table::TableFromQuery { logical_plan, .. } => {
                    lemma_lowered_reads(
                        tables,
                        functions,
                        logical_plan,
                        (depth - 1) as nat,
                        out,
                        name,
                    );
                },
                _ => {},
            }
        },
        LogicalPlan::Projection { input, .. } => {
            let inner = *out.body->Projection_input;
            assert(lowers(tables, functions, *input, depth, inner));
            assert(lowers_body(tables, functions, *input, depth, inner.body));
            lemma_lowered_reads(tables, functions, *input, depth, inner, name);
        },
        LogicalPlan::Filter { input, .. } => {
            let inner = *out.body->Filter_input;
            assert(lowers(tables, functions, *input, depth, inner));
            assert(lowers_body(tables, functions, *input, depth, inner.body));
            lemma_lowered_reads(tables, functions, *input, depth, inner, name);
        },
        LogicalPlan::Aggregate { input, .. } => {
            let inner = *out.body->Aggregate_input;
            assert(lowers(tables, functions, *input, depth, inner));
            assert(lowers_body(tables, functions, *input, depth, inner.body));
            lemma_lowered_reads(tables, functions, *input, depth, inner, name);
        },
        LogicalPlan::Join { left, right, .. } => {
            let l = *out.body->Join_left;
            let r = *out.body->Join_right;
            assert(lowers(tables, functions, *left, depth, l));
            assert(lowers(tables, functions, *right, depth, r));
            assert(lowers_body(tables, functions, *left, depth, l.body));
            assert(lowers_body(tables, functions, *right, depth, r.body));
            lemma_lowered_reads(tables, functions, *left, depth, l, name);
            lemma_lowered_reads(tables, functions, *right, depth, r, name);
        },
        _ => {},
    }
}

} // verus!
