//! Resolution: what the fields of a plan are, and whether its names resolve and its
//! expressions are well-typed. Whether the compiler has an operator for a plan is not
//! asked here: that is for the lowering to say.

use vstd::prelude::*;
use crate::catalog::ArroyoSchemaProvider;
use crate::error::{failure, ErrorKind, Failure, SqlError};
use crate::expressions::{
    binary_result, binary_type, call_result, call_type, can_cast, castable, typed, typed_first,
    unary_result, unary_type,
};
use crate::pipeline::{
    aggregate_result, aggregate_type, aggregate_typed, aggregated, aliased, append_fields,
    grouped, joined, nullable_fields, output_field, output_field_of, plan_fields, projected,
    scan_alias, scan_fields, scan_name, strip_alias, unaliased, window_call, window_field,
};
use crate::plan::{Expr, JoinKind, LogicalPlan};
use crate::tables::{ScalarFunction, SqlType, Table};
use crate::types::{
    clone_fields, fields_view, first_answer, opt_view, FieldView, PrimitiveKind, StructDef,
    StructField, TypeDef,
};

verus! {

/// The type of what a window constructor gives, as a column: the time of the window.
pub open spec fn window_type() -> TypeDef {
    TypeDef { kind: PrimitiveKind::Timestamp, nullable: false }
}

/// The type that an expression resolves to over the given fields, or why it does not
/// resolve: a column or function that is not there, operands or arguments of the wrong
/// types, or a cast that is not known. A call of a window constructor resolves to the time
/// of the window, whatever its arguments; an expression that the compiler has no form for
/// resolves to the type that came with it.
pub open spec fn resolved(
    functions: Map<Seq<char>, ScalarFunction>,
    fields: Seq<FieldView>,
    e: Expr,
) -> Result<TypeDef, Failure>
    decreases e, 0int,
{
    match e {
        Expr::Column(c) => match first_answer(fields, opt_view(c.relation), c.name@) {
            Some(i) => Ok(fields[i].data_type),
            None => Err(failure(ErrorKind::UnknownColumn, c.name@)),
        },
        Expr::Literal(v) => Ok(TypeDef { kind: v.kind, nullable: v.text is None }),
        Expr::Interval(_) => Err(failure(ErrorKind::PlanError, "interval"@)),
        Expr::Unary { op, input } => match resolved(functions, fields, *input) {
            Err(e) => Err(e),
            Ok(t) => match unary_type(op, t) {
                Ok(t) => Ok(t),
                Err(k) => Err(failure(k, "unary operator"@)),
            },
        },
        Expr::Binary { left, op, right } => match resolved(functions, fields, *left) {
            Err(e) => Err(e),
            Ok(l) => match resolved(functions, fields, *right) {
                Err(e) => Err(e),
                Ok(r) => match binary_type(op, l, r) {
                    Ok(t) => Ok(t),
                    Err(k) => Err(failure(k, "binary operator"@)),
                },
            },
        },
        Expr::Cast { input, kind } => match resolved(functions, fields, *input) {
            Err(e) => Err(e),
            Ok(t) => if castable(t.kind, kind) {
                Ok(TypeDef { kind, nullable: t.nullable })
            } else {
                Err(failure(ErrorKind::UnsupportedCast, "cast"@))
            },
        },
        Expr::Call { name, args } => if !functions.contains_key(name@) {
            Err(failure(ErrorKind::UnknownFunction, name@))
        } else if functions[name@].return_type == SqlType::Window {
            Ok(window_type())
        } else {
            match resolved_first(functions, fields, args@, args@.len() as int) {
                Err(e) => Err(e),
                Ok(types) => match call_type(functions[name@], types) {
                    Ok(t) => Ok(t),
                    Err(_) => Err(failure(ErrorKind::PlanError, name@)),
                },
            }
        },
        Expr::Aggregate { kind, arg } => match resolved(functions, fields, *arg) {
            Err(e) => Err(e),
            Ok(t) => match aggregate_type(kind, t) {
                Ok(t) => Ok(t),
                Err(k) => Err(failure(k, "aggregate"@)),
            },
        },
        Expr::Alias { input, .. } => resolved(functions, fields, *input),
        Expr::Unsupported { data_type, .. } => Ok(data_type),
    }
}

/// The types that the first `n` expressions resolve to, or the first failure among them.
pub open spec fn resolved_first(
    functions: Map<Seq<char>, ScalarFunction>,
    fields: Seq<FieldView>,
    exprs: Seq<Expr>,
    n: int,
) -> Result<Seq<TypeDef>, Failure>
    decreases exprs, n,
{
    if n <= 0 || n > exprs.len() {
        Ok(Seq::empty())
    } else {
        match resolved_first(functions, fields, exprs, n - 1) {
            Err(e) => Err(e),
            Ok(front) => match resolved(functions, fields, exprs[n - 1]) {
                Err(e) => Err(e),
                Ok(t) => Ok(front.push(t)),
            },
        }
    }
}

/// The output fields of the first `n` expressions of a projection or of an aggregate.
/// Where they are the aggregates of an aggregate, each has to be an aggregate call.
pub open spec fn resolved_outputs(
    functions: Map<Seq<char>, ScalarFunction>,
    fields: Seq<FieldView>,
    exprs: Seq<Expr>,
    n: int,
    aggregates: bool,
) -> Result<Seq<FieldView>, Failure>
    decreases n,
{
    if n <= 0 || n > exprs.len() {
        Ok(Seq::empty())
    } else {
        match resolved_outputs(functions, fields, exprs, n - 1, aggregates) {
            Err(e) => Err(e),
            Ok(front) => if aggregates && !(unaliased(exprs[n - 1]) is Aggregate) {
                Err(failure(ErrorKind::PlanError, "not an aggregate"@))
            } else {
                match resolved(functions, fields, exprs[n - 1]) {
                    Err(e) => Err(e),
                    Ok(t) => Ok(front.push(output_field(fields, exprs[n - 1], t))),
                }
            },
        }
    }
}

/// The fields of a join of any kind: those of both sides, where both sides come out, and
/// those of the one side that a semi or anti join keeps.
pub open spec fn join_fields(kind: JoinKind, left: Seq<FieldView>, right: Seq<FieldView>) -> Seq<
    FieldView,
> {
    match kind {
        JoinKind::LeftSemi | JoinKind::LeftAnti => left,
        JoinKind::RightSemi | JoinKind::RightAnti => right,
        _ => joined(kind, left, right),
    }
}

/// The fields that a plan resolves to, or why it does not resolve. A scan of a connector
/// table gives its declared fields, whatever its kind; a view is looked through, `depth`
/// views deep at most; a node that the compiler has no form for gives the fields that came
/// with it.
pub open spec fn resolved_fields(
    tables: Map<Seq<char>, Table>,
    functions: Map<Seq<char>, ScalarFunction>,
    plan: LogicalPlan,
    depth: nat,
) -> Result<Seq<FieldView>, Failure>
    decreases depth, plan,
{
    match plan {
        LogicalPlan::TableScan { table_name, alias } => if !tables.contains_key(table_name@) {
            Err(failure(ErrorKind::UnknownTable, table_name@))
        } else {
            match tables[table_name@] {
                Table::ConnectorTable(t) => Ok(
                    aliased(fields_view(t.fields@), scan_name(table_name@, opt_view(alias))),
                ),
                Table::TableFromQuery { logical_plan, .. } => if depth == 0 {
                    Err(failure(ErrorKind::PlanError, table_name@))
                } else {
                    match resolved_fields(tables, functions, logical_plan, (depth - 1) as nat) {
                        Err(e) => Err(e),
                        Ok(f) => Ok(aliased(f, scan_name(table_name@, opt_view(alias)))),
                    }
                },
                _ => Err(failure(ErrorKind::PlanError, table_name@)),
            }
        },
        LogicalPlan::Projection { exprs, input } => match resolved_fields(
            tables,
            functions,
            *input,
            depth,
        ) {
            Err(e) => Err(e),
            Ok(f) => resolved_outputs(functions, f, exprs@, exprs@.len() as int, false),
        },
        LogicalPlan::Filter { predicate, input } => match resolved_fields(
            tables,
            functions,
            *input,
            depth,
        ) {
            Err(e) => Err(e),
            Ok(f) => match resolved(functions, f, predicate) {
                Err(e) => Err(e),
                Ok(t) => if t.kind == PrimitiveKind::Boolean {
                    Ok(f)
                } else {
                    Err(failure(ErrorKind::PlanError, "condition is not boolean"@))
                },
            },
        },
        LogicalPlan::Join { left, right, kind, condition } => match resolved_fields(
            tables,
            functions,
            *left,
            depth,
        ) {
            Err(e) => Err(e),
            Ok(l) => match resolved_fields(tables, functions, *right, depth) {
                Err(e) => Err(e),
                Ok(r) => match resolved(functions, l + r, condition) {
                    Err(e) => Err(e),
                    Ok(t) => if t.kind == PrimitiveKind::Boolean {
                        Ok(join_fields(kind, l, r))
                    } else {
                        Err(failure(ErrorKind::PlanError, "condition is not boolean"@))
                    },
                },
            },
        },
        LogicalPlan::Aggregate { group_exprs, aggr_exprs, input } => match resolved_fields(
            tables,
            functions,
            *input,
            depth,
        ) {
            Err(e) => Err(e),
            Ok(f) => match resolved_outputs(
                functions,
                f,
                group_exprs@,
                group_exprs@.len() as int,
                false,
            ) {
                Err(e) => Err(e),
                Ok(keys) => match resolved_outputs(
                    functions,
                    f,
                    aggr_exprs@,
                    aggr_exprs@.len() as int,
                    true,
                ) {
                    Err(e) => Err(e),
                    Ok(aggregates) => Ok(keys + aggregates),
                },
            },
        },
        // A statement has no place inside a query.
        LogicalPlan::CreateView { .. } => Err(
            failure(ErrorKind::PlanError, "create view inside a query"@),
        ),
        LogicalPlan::CreateMemoryTable { .. } => Err(
            failure(ErrorKind::PlanError, "create table inside a query"@),
        ),
        LogicalPlan::Insert { .. } => Err(failure(ErrorKind::PlanError, "insert inside a query"@)),
        LogicalPlan::Unsupported { fields, .. } => Ok(fields_view(fields@)),
    }
}

/// Once resolution fails among the first `n` expressions, it fails the same way for more.
pub proof fn lemma_resolved_first_fails(
    functions: Map<Seq<char>, ScalarFunction>,
    fields: Seq<FieldView>,
    exprs: Seq<Expr>,
    n: int,
    m: int,
)
    requires
        0 <= n <= m <= exprs.len(),
        resolved_first(functions, fields, exprs, n) is Err,
    ensures
        resolved_first(functions, fields, exprs, m) == resolved_first(functions, fields, exprs, n),
    decreases m - n,
{
    if n < m {
        lemma_resolved_first_fails(functions, fields, exprs, n, m - 1);
    }
}

/// Once the outputs fail among the first `n` expressions, they fail the same way for more.
pub proof fn lemma_resolved_outputs_fails(
    functions: Map<Seq<char>, ScalarFunction>,
    fields: Seq<FieldView>,
    exprs: Seq<Expr>,
    n: int,
    m: int,
    aggregates: bool,
)
    requires
        0 <= n <= m <= exprs.len(),
        resolved_outputs(functions, fields, exprs, n, aggregates) is Err,
    ensures
        resolved_outputs(functions, fields, exprs, m, aggregates) == resolved_outputs(
            functions,
            fields,
            exprs,
            n,
            aggregates,
        ),
    decreases m - n,
{
    if n < m {
        lemma_resolved_outputs_fails(functions, fields, exprs, n, m - 1, aggregates);
    }
}

/// Resolution never refuses a construct as unsupported: that is for the lowering to say.
pub proof fn lemma_resolution_supports(
    functions: Map<Seq<char>, ScalarFunction>,
    fields: Seq<FieldView>,
    e: Expr,
)
    ensures
        resolved(functions, fields, e) matches Err(f) ==> f.kind
            != ErrorKind::UnsupportedConstruct,
    decreases e, 0int,
{
    match e {
        Expr::Unary { input, .. } => {
            lemma_resolution_supports(functions, fields, *input);
        },
        Expr::Binary { left, right, .. } => {
            lemma_resolution_supports(functions, fields, *left);
            lemma_resolution_supports(functions, fields, *right);
        },
        Expr::Cast { input, .. } => {
            lemma_resolution_supports(functions, fields, *input);
        },
        Expr::Call { args, .. } => {
            lemma_resolution_supports_first(functions, fields, args@, args@.len() as int);
        },
        Expr::Aggregate { arg, .. } => {
            lemma_resolution_supports(functions, fields, *arg);
        },
        Expr::Alias { input, .. } => {
            lemma_resolution_supports(functions, fields, *input);
        },
        _ => {},
    }
}

pub proof fn lemma_resolution_supports_first(
    functions: Map<Seq<char>, ScalarFunction>,
    fields: Seq<FieldView>,
    exprs: Seq<Expr>,
    n: int,
)
    ensures
        resolved_first(functions, fields, exprs, n) matches Err(f) ==> f.kind
            != ErrorKind::UnsupportedConstruct,
    decreases exprs, n,
{
    if 0 < n <= exprs.len() {
        lemma_resolution_supports_first(functions, fields, exprs, n - 1);
        lemma_resolution_supports(functions, fields, exprs[n - 1]);
    }
}

/// The type that an expression resolves to.
#[verifier::loop_isolation(false)]
pub fn resolve_expr(catalog: &ArroyoSchemaProvider, schema: &StructDef, expr: &Expr) -> (r: Result<
    TypeDef,
    SqlError,
>)
    ensures
        match r {
            Ok(t) => resolved(catalog.functions@, schema@.fields, *expr) == Ok::<TypeDef, Failure>(
                t,
            ),
            Err(e) => resolved(catalog.functions@, schema@.fields, *expr) == Err::<
                TypeDef,
                Failure,
            >(e@),
        },
    decreases expr,
{
    match expr {
        Expr::Column(c) => match schema.field_index(&c.relation, c.name.as_str()) {
            Some(index) => {
                assert(schema@.fields[index as int] == schema.fields@[index as int]@);
                Ok(schema.fields[index].data_type)
            },
            None => Err(SqlError::new(ErrorKind::UnknownColumn, c.name.as_str())),
        },
        Expr::Literal(v) => Ok(TypeDef { kind: v.kind, nullable: v.text.is_none() }),
        Expr::Interval(_) => Err(SqlError::new(ErrorKind::PlanError, "interval")),
        Expr::Unary { op, input } => {
            let t = match resolve_expr(catalog, schema, input) {
                Ok(t) => t,
                Err(e) => {
                    return Err(e);
                },
            };
            match unary_result(*op, t) {
                Ok(t) => Ok(t),
                Err(kind) => Err(SqlError::new(kind, "unary operator")),
            }
        },
        Expr::Binary { left, op, right } => {
            let l = match resolve_expr(catalog, schema, left) {
                Ok(t) => t,
                Err(e) => {
                    return Err(e);
                },
            };
            let r = match resolve_expr(catalog, schema, right) {
                Ok(t) => t,
                Err(e) => {
                    return Err(e);
                },
            };
            match binary_result(*op, l, r) {
                Ok(t) => Ok(t),
                Err(kind) => Err(SqlError::new(kind, "binary operator")),
            }
        },
        Expr::Cast { input, kind } => {
            let from = match resolve_expr(catalog, schema, input) {
                Ok(t) => t,
                Err(e) => {
                    return Err(e);
                },
            };
            if can_cast(from.kind, *kind) {
                Ok(TypeDef { kind: *kind, nullable: from.nullable })
            } else {
                Err(SqlError::new(ErrorKind::UnsupportedCast, "cast"))
            }
        },
        Expr::Call { name, args } => {
            let function = match catalog.get_function_meta(name.as_str()) {
                Some(f) => f,
                None => {
                    return Err(SqlError::new(ErrorKind::UnknownFunction, name.as_str()));
                },
            };
            if function.return_type == SqlType::Window {
                return Ok(TypeDef { kind: PrimitiveKind::Timestamp, nullable: false });
            }
            let mut types: Vec<TypeDef> = Vec::new();
            let mut i: usize = 0;
            while i < args.len()
                invariant
                    i <= args.len(),
                    resolved_first(catalog.functions@, schema@.fields, args@, i as int) == Ok::<
                        Seq<TypeDef>,
                        Failure,
                    >(types@),
                decreases args.len() - i,
            {
                match resolve_expr(catalog, schema, &args[i]) {
                    Ok(t) => {
                        types.push(t);
                    },
                    Err(e) => {
                        proof {
                            lemma_resolved_first_fails(
                                catalog.functions@,
                                schema@.fields,
                                args@,
                                i + 1,
                                args@.len() as int,
                            );
                        }
                        return Err(e);
                    },
                }
                i += 1;
            }
            match call_result(function, &types) {
                Ok(t) => Ok(t),
                Err(_) => Err(SqlError::new(ErrorKind::PlanError, name.as_str())),
            }
        },
        Expr::Aggregate { kind, arg } => {
            let t = match resolve_expr(catalog, schema, arg) {
                Ok(t) => t,
                Err(e) => {
                    return Err(e);
                },
            };
            match aggregate_result(*kind, t) {
                Ok(t) => Ok(t),
                Err(k) => Err(SqlError::new(k, "aggregate")),
            }
        },
        Expr::Alias { input, .. } => resolve_expr(catalog, schema, input),
        Expr::Unsupported { data_type, .. } => Ok(*data_type),
    }
}

/// The output fields of the expressions of a projection or of an aggregate.
pub fn resolve_outputs(
    catalog: &ArroyoSchemaProvider,
    schema: &StructDef,
    exprs: &Vec<Expr>,
    aggregates: bool,
) -> (r: Result<Vec<StructField>, SqlError>)
    ensures
        match r {
            Ok(fields) => resolved_outputs(
                catalog.functions@,
                schema@.fields,
                exprs@,
                exprs@.len() as int,
                aggregates,
            ) == Ok::<Seq<FieldView>, Failure>(fields_view(fields@)),
            Err(e) => resolved_outputs(
                catalog.functions@,
                schema@.fields,
                exprs@,
                exprs@.len() as int,
                aggregates,
            ) == Err::<Seq<FieldView>, Failure>(e@),
        },
{
    let mut fields: Vec<StructField> = Vec::new();
    let mut i: usize = 0;
    assert(fields_view(fields@) =~= Seq::<FieldView>::empty());
    while i < exprs.len()
        invariant
            i <= exprs.len(),
            resolved_outputs(catalog.functions@, schema@.fields, exprs@, i as int, aggregates)
                == Ok::<Seq<FieldView>, Failure>(fields_view(fields@)),
        decreases exprs.len() - i,
    {
        let ghost before = fields_view(fields@);
        let is_aggregate = match strip_alias(&exprs[i]) {
            Expr::Aggregate { .. } => true,
            _ => false,
        };
        if aggregates && !is_aggregate {
            proof {
                lemma_resolved_outputs_fails(
                    catalog.functions@,
                    schema@.fields,
                    exprs@,
                    i + 1,
                    exprs@.len() as int,
                    aggregates,
                );
            }
            return Err(SqlError::new(ErrorKind::PlanError, "not an aggregate"));
        }
        match resolve_expr(catalog, schema, &exprs[i]) {
            Ok(t) => {
                let f = output_field_of(schema, &exprs[i], t);
                fields.push(f);
                assert(fields_view(fields@) =~= before.push(f@));
            },
            Err(e) => {
                proof {
                    lemma_resolved_outputs_fails(
                        catalog.functions@,
                        schema@.fields,
                        exprs@,
                        i + 1,
                        exprs@.len() as int,
                        aggregates,
                    );
                }
                return Err(e);
            },
        }
        i += 1;
    }
    Ok(fields)
}

fn schema_of(fields: Vec<StructField>) -> (d: StructDef)
    ensures
        d.fields == fields,
{
    StructDef { name: None, fields }
}

/// Whether a condition resolves to a boolean.
fn resolve_condition(catalog: &ArroyoSchemaProvider, schema: &StructDef, e: &Expr) -> (r: Result<
    (),
    SqlError,
>)
    ensures
        match r {
            Ok(()) => resolved(catalog.functions@, schema@.fields, *e) matches Ok(t) && t.kind
                == PrimitiveKind::Boolean,
            Err(err) => match resolved(catalog.functions@, schema@.fields, *e) {
                Ok(t) => t.kind != PrimitiveKind::Boolean && err@ == failure(
                    ErrorKind::PlanError,
                    "condition is not boolean"@,
                ),
                Err(f) => err@ == f,
            },
        },
{
    match resolve_expr(catalog, schema, e) {
        Err(err) => Err(err),
        Ok(t) => if t.kind == PrimitiveKind::Boolean {
            Ok(())
        } else {
            Err(SqlError::new(ErrorKind::PlanError, "condition is not boolean"))
        },
    }
}

/// The fields that a plan resolves to. It succeeds exactly where `resolved_fields` gives
/// fields, and fails with the reason `resolved_fields` gives where it gives none.
pub fn resolve_plan(catalog: &ArroyoSchemaProvider, plan: &LogicalPlan, depth: usize) -> (r: Result<
    Vec<StructField>,
    SqlError,
>)
    ensures
        match r {
            Ok(fields) => resolved_fields(catalog.tables@, catalog.functions@, *plan, depth as nat)
                == Ok::<Seq<FieldView>, Failure>(fields_view(fields@)),
            Err(e) => resolved_fields(catalog.tables@, catalog.functions@, *plan, depth as nat)
                == Err::<Seq<FieldView>, Failure>(e@),
        },
    decreases depth, plan,
{
    match plan {
        LogicalPlan::TableScan { table_name, alias } => {
            let table = match catalog.get_table(table_name.as_str()) {
                Some(t) => t,
                None => {
                    return Err(SqlError::new(ErrorKind::UnknownTable, table_name.as_str()));
                },
            };
            let name = scan_alias(table_name, alias);
            match table {
                Table::ConnectorTable(t) => Ok(scan_fields(&t.fields, name)),
                Table::TableFromQuery { logical_plan, .. } => {
                    if depth == 0 {
                        return Err(SqlError::new(ErrorKind::PlanError, table_name.as_str()));
                    }
                    match resolve_plan(catalog, logical_plan, depth - 1) {
                        Ok(fields) => Ok(scan_fields(&fields, name)),
                        Err(e) => Err(e),
                    }
                },
                _ => Err(SqlError::new(ErrorKind::PlanError, table_name.as_str())),
            }
        },
        LogicalPlan::Projection { exprs, input } => {
            let fields = match resolve_plan(catalog, input, depth) {
                Ok(f) => f,
                Err(e) => {
                    return Err(e);
                },
            };
            resolve_outputs(catalog, &schema_of(fields), exprs, false)
        },
        LogicalPlan::Filter { predicate, input } => {
            let fields = match resolve_plan(catalog, input, depth) {
                Ok(f) => f,
                Err(e) => {
                    return Err(e);
                },
            };
            let schema = schema_of(fields);
            match resolve_condition(catalog, &schema, predicate) {
                Ok(()) => Ok(schema.fields),
                Err(e) => Err(e),
            }
        },
        LogicalPlan::Join { left, right, kind, condition } => {
            let l = match resolve_plan(catalog, left, depth) {
                Ok(f) => f,
                Err(e) => {
                    return Err(e);
                },
            };
            let r = match resolve_plan(catalog, right, depth) {
                Ok(f) => f,
                Err(e) => {
                    return Err(e);
                },
            };
            let both = schema_of(append_fields(clone_fields(&l), &r));
            match resolve_condition(catalog, &both, condition) {
                Ok(()) => {},
                Err(e) => {
                    return Err(e);
                },
            }
            match kind {
                JoinKind::LeftSemi | JoinKind::LeftAnti => Ok(l),
                JoinKind::RightSemi | JoinKind::RightAnti => Ok(r),
                JoinKind::Inner => Ok(append_fields(l, &r)),
                JoinKind::Left => Ok(append_fields(l, &nullable_fields(&r))),
                JoinKind::Right => Ok(append_fields(nullable_fields(&l), &r)),
                JoinKind::Full => Ok(append_fields(nullable_fields(&l), &nullable_fields(&r))),
            }
        },
        LogicalPlan::Aggregate { group_exprs, aggr_exprs, input } => {
            let fields = match resolve_plan(catalog, input, depth) {
                Ok(f) => f,
                Err(e) => {
                    return Err(e);
                },
            };
            let schema = schema_of(fields);
            let keys = match resolve_outputs(catalog, &schema, group_exprs, false) {
                Ok(k) => k,
                Err(e) => {
                    return Err(e);
                },
            };
            let aggregates = match resolve_outputs(catalog, &schema, aggr_exprs, true) {
                Ok(a) => a,
                Err(e) => {
                    return Err(e);
                },
            };
            Ok(append_fields(keys, &aggregates))
        },
        LogicalPlan::CreateView { .. } => Err(
            SqlError::new(ErrorKind::PlanError, "create view inside a query"),
        ),
        LogicalPlan::CreateMemoryTable { .. } => Err(
            SqlError::new(ErrorKind::PlanError, "create table inside a query"),
        ),
        LogicalPlan::Insert { .. } => Err(
            SqlError::new(ErrorKind::PlanError, "insert inside a query"),
        ),
        LogicalPlan::Unsupported { fields, .. } => Ok(clone_fields(fields)),
    }
}

/// Whether the two window constructors are among the functions.
pub open spec fn windows_known(functions: Map<Seq<char>, ScalarFunction>) -> bool {
    &&& functions.contains_key("tumble"@)
    &&& functions["tumble"@].return_type == SqlType::Window
    &&& functions.contains_key("hop"@)
    &&& functions["hop"@].return_type == SqlType::Window
}

/// An expression that the compiler types resolves, to the same type.
pub proof fn lemma_typed_resolves(
    functions: Map<Seq<char>, ScalarFunction>,
    fields: Seq<FieldView>,
    e: Expr,
)
    requires
        typed(functions, fields, e) is Ok,
    ensures
        resolved(functions, fields, e) == typed(functions, fields, e),
    decreases e, 0int,
{
    match e {
        Expr::Unary { input, .. } => {
            lemma_typed_resolves(functions, fields, *input);
        },
        Expr::Binary { left, right, .. } => {
            lemma_typed_resolves(functions, fields, *left);
            lemma_typed_resolves(functions, fields, *right);
        },
        Expr::Cast { input, .. } => {
            lemma_typed_resolves(functions, fields, *input);
        },
        Expr::Call { args, .. } => {
            lemma_typed_first_resolves(functions, fields, args@, args@.len() as int);
        },
        Expr::Alias { input, .. } => {
            lemma_typed_resolves(functions, fields, *input);
        },
        _ => {},
    }
}

/// Expressions that the compiler types resolve, to the same types.
pub proof fn lemma_typed_first_resolves(
    functions: Map<Seq<char>, ScalarFunction>,
    fields: Seq<FieldView>,
    exprs: Seq<Expr>,
    n: int,
)
    requires
        typed_first(functions, fields, exprs, n) is Ok,
    ensures
        resolved_first(functions, fields, exprs, n) == typed_first(functions, fields, exprs, n),
    decreases exprs, n,
{
    if 0 < n <= exprs.len() {
        lemma_typed_first_resolves(functions, fields, exprs, n - 1);
        lemma_typed_resolves(functions, fields, exprs[n - 1]);
    }
}

/// An expression resolves as what is under its aliases does, and its output field has the
/// name of its outermost alias.
pub proof fn lemma_resolved_unaliased(
    functions: Map<Seq<char>, ScalarFunction>,
    fields: Seq<FieldView>,
    e: Expr,
)
    ensures
        resolved(functions, fields, e) == resolved(functions, fields, unaliased(e)),
    decreases e,
{
    match e {
        Expr::Alias { input, .. } => {
            lemma_resolved_unaliased(functions, fields, *input);
        },
        _ => {},
    }
}

/// The outputs of a projection that the compiler types resolve, to the same fields.
pub proof fn lemma_projected_resolves(
    functions: Map<Seq<char>, ScalarFunction>,
    fields: Seq<FieldView>,
    exprs: Seq<Expr>,
    n: int,
)
    requires
        projected(functions, fields, exprs, n) is Ok,
    ensures
        resolved_outputs(functions, fields, exprs, n, false) == projected(
            functions,
            fields,
            exprs,
            n,
        ),
    decreases n,
{
    if 0 < n <= exprs.len() {
        lemma_projected_resolves(functions, fields, exprs, n - 1);
        lemma_typed_resolves(functions, fields, exprs[n - 1]);
    }
}

/// The grouping expressions that the compiler types resolve, to the same fields.
pub proof fn lemma_grouped_resolves(
    functions: Map<Seq<char>, ScalarFunction>,
    fields: Seq<FieldView>,
    exprs: Seq<Expr>,
    n: int,
)
    requires
        windows_known(functions),
        grouped(functions, fields, exprs, n) is Ok,
    ensures
        resolved_outputs(functions, fields, exprs, n, false) == Ok::<Seq<FieldView>, Failure>(
            grouped(functions, fields, exprs, n)->Ok_0.0,
        ),
    decreases n,
{
    if 0 < n <= exprs.len() {
        lemma_grouped_resolves(functions, fields, exprs, n - 1);
        let e = exprs[n - 1];
        if window_call(e) {
            lemma_resolved_unaliased(functions, fields, e);
            assert(resolved(functions, fields, e) == Ok::<TypeDef, Failure>(window_type()));
            assert(output_field(fields, e, window_type()) == window_field(e));
        } else {
            lemma_typed_resolves(functions, fields, e);
        }
    }
}

/// The aggregates that the compiler types resolve, to the same fields.
pub proof fn lemma_aggregated_resolves(
    functions: Map<Seq<char>, ScalarFunction>,
    fields: Seq<FieldView>,
    exprs: Seq<Expr>,
    n: int,
)
    requires
        aggregated(functions, fields, exprs, n) is Ok,
    ensures
        resolved_outputs(functions, fields, exprs, n, true) == aggregated(
            functions,
            fields,
            exprs,
            n,
        ),
    decreases n,
{
    if 0 < n <= exprs.len() {
        lemma_aggregated_resolves(functions, fields, exprs, n - 1);
        let e = exprs[n - 1];
        lemma_resolved_unaliased(functions, fields, e);
        match unaliased(e) {
            Expr::Aggregate { kind, arg } => {
                lemma_typed_resolves(functions, fields, *arg);
                let t = aggregate_typed(functions, fields, e)->Ok_0;
                assert(resolved(functions, fields, e) == Ok::<TypeDef, Failure>(t));
                assert(output_field(fields, e, t) == window_field(e).typed_as(t));
            },
            _ => {},
        }
    }
}

/// A plan that the compiler lowers resolves, to the fields of what it lowers to: the
/// lowering refuses more than the resolution, and changes no field.
pub proof fn lemma_lowered_resolves(
    tables: Map<Seq<char>, Table>,
    functions: Map<Seq<char>, ScalarFunction>,
    plan: LogicalPlan,
    depth: nat,
)
    requires
        windows_known(functions),
        plan_fields(tables, functions, plan, depth) is Ok,
    ensures
        resolved_fields(tables, functions, plan, depth) == plan_fields(
            tables,
            functions,
            plan,
            depth,
        ),
    decreases depth, plan,
{
    match plan {
        LogicalPlan::TableScan { table_name, .. } => {
            match tables[table_name@] {
                Table::TableFromQuery { logical_plan, .. } => {
                    lemma_lowered_resolves(tables, functions, logical_plan, (depth - 1) as nat);
                },
                _ => {},
            }
        },
        LogicalPlan::Projection { exprs, input } => {
            lemma_lowered_resolves(tables, functions, *input, depth);
            let f = plan_fields(tables, functions, *input, depth)->Ok_0;
            lemma_projected_resolves(functions, f, exprs@, exprs@.len() as int);
        },
        LogicalPlan::Filter { predicate, input } => {
            lemma_lowered_resolves(tables, functions, *input, depth);
            let f = plan_fields(tables, functions, *input, depth)->Ok_0;
            lemma_typed_resolves(functions, f, predicate);
        },
        LogicalPlan::Join { left, right, condition, .. } => {
            lemma_lowered_resolves(tables, functions, *left, depth);
            lemma_lowered_resolves(tables, functions, *right, depth);
            let l = plan_fields(tables, functions, *left, depth)->Ok_0;
            let r = plan_fields(tables, functions, *right, depth)->Ok_0;
            lemma_typed_resolves(functions, l + r, condition);
        },
        LogicalPlan::Aggregate { group_exprs, aggr_exprs, input } => {
            lemma_lowered_resolves(tables, functions, *input, depth);
            let f = plan_fields(tables, functions, *input, depth)->Ok_0;
            lemma_grouped_resolves(functions, f, group_exprs@, group_exprs@.len() as int);
            lemma_aggregated_resolves(functions, f, aggr_exprs@, aggr_exprs@.len() as int);
        },
        _ => {},
    }
}

} // verus!
