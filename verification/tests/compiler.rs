use arroyo_sql::catalog::ArroyoSchemaProvider;
use arroyo_sql::error::ErrorKind;
use arroyo_sql::expressions::{Expression, ExpressionContext};
use arroyo_sql::pipeline::{lower_plan, Duration, KeyExpr, OperatorBody, WindowType};
use arroyo_sql::plan::{
    AggregateKind, BinaryOp, Column, Expr, IntervalValue, JoinKind, LogicalPlan, ScalarValue,
    UnaryOp,
};
use arroyo_sql::plan_graph::{PlanEdge, PlanGraph, PlanOperator, SqlConfig};
use arroyo_sql::program::{build_program, parse_and_get_program_sync};
use arroyo_sql::statement::{check_query, SqlProgramBuilder};
use arroyo_sql::tables::{ConnectorType, SerializationMode, Table};
use arroyo_sql::types::{PrimitiveKind, StructDef, StructField, TypeDef};

const MAX_VIEW_DEPTH: usize = 8;

fn field(name: &str, kind: PrimitiveKind, nullable: bool) -> StructField {
    StructField::new(name.to_string(), None, TypeDef::new(kind, nullable))
}

fn catalog() -> ArroyoSchemaProvider {
    let mut c = ArroyoSchemaProvider::new();
    c.add_connector_table(
        7,
        "t".to_string(),
        ConnectorType::Source,
        vec![
            field("a", PrimitiveKind::Int64, false),
            field("b", PrimitiveKind::Utf8, true),
            field("c", PrimitiveKind::Int64, true),
            field("ts", PrimitiveKind::Timestamp, false),
        ],
        Some("T".to_string()),
        "connectors::mqtt::source::MqttSourceFunc".to_string(),
        "{}".to_string(),
        "MqttSource<t>".to_string(),
        SerializationMode::Json,
    );
    c.add_connector_table(
        9,
        "out".to_string(),
        ConnectorType::Sink,
        vec![field("a", PrimitiveKind::Int64, false)],
        None,
        "connectors::mqtt::sink::MqttSinkFunc::<#in_k, #in_t>".to_string(),
        "{\"topic\":\"out\"}".to_string(),
        "MqttSink<out>".to_string(),
        SerializationMode::Json,
    );
    c
}

fn col(name: &str) -> Expr {
    Expr::Column(Column::new(None, name.to_string()))
}

fn qcol(relation: &str, name: &str) -> Expr {
    Expr::Column(Column::new(Some(relation.to_string()), name.to_string()))
}

fn scan(name: &str) -> LogicalPlan {
    LogicalPlan::TableScan { table_name: name.to_string(), alias: None }
}

fn scan_as(name: &str, alias: &str) -> LogicalPlan {
    LogicalPlan::TableScan { table_name: name.to_string(), alias: Some(alias.to_string()) }
}

fn select(exprs: Vec<Expr>, input: LogicalPlan) -> LogicalPlan {
    LogicalPlan::Projection { exprs, input: Box::new(input) }
}

fn insert(sink: &str, input: LogicalPlan) -> LogicalPlan {
    LogicalPlan::Insert { table_name: sink.to_string(), input: Box::new(input) }
}

fn binary(left: Expr, op: BinaryOp, right: Expr) -> Expr {
    Expr::Binary { left: Box::new(left), op, right: Box::new(right) }
}

fn int_literal(text: &str) -> Expr {
    Expr::Literal(ScalarValue::new(PrimitiveKind::Int64, Some(text.to_string())))
}

fn interval_secs(secs: i64) -> Expr {
    Expr::Interval(IntervalValue { months: 0, days: 0, nanos: secs * 1_000_000_000 })
}

fn call(name: &str, args: Vec<Expr>) -> Expr {
    Expr::Call { name: name.to_string(), args }
}

fn schema_of_t() -> StructDef {
    StructDef::new(
        None,
        vec![
            field("a", PrimitiveKind::Int64, false),
            field("b", PrimitiveKind::Utf8, true),
            field("c", PrimitiveKind::Int64, true),
        ],
    )
}

fn type_of(e: &Expr) -> Result<TypeDef, ErrorKind> {
    let c = catalog();
    let s = schema_of_t();
    let ctx = ExpressionContext { schema_provider: &c, input_struct: &s };
    ctx.compile_expr(e).map(|x| x.data_type()).map_err(|e| e.kind())
}

#[test]
fn empty_query_is_refused() {
    assert_eq!(check_query("").unwrap_err().kind(), ErrorKind::EmptyQuery);
    assert_eq!(check_query(" \t\r\n\u{a0}\u{3000}").unwrap_err().kind(), ErrorKind::EmptyQuery);
    assert!(check_query(" select 1 ").is_ok());
    assert!(check_query("\u{200b}").is_ok());
    let r = parse_and_get_program_sync(
        "  \n".to_string(),
        catalog(),
        SqlConfig::default(),
        vec![insert("out", select(vec![col("a")], scan("t")))],
    );
    assert_eq!(r.unwrap_err().kind(), ErrorKind::EmptyQuery);
}

#[test]
fn query_without_sink_is_refused() {
    let r = parse_and_get_program_sync(
        "SELECT a FROM t".to_string(),
        catalog(),
        SqlConfig::default(),
        vec![select(vec![col("a")], scan("t"))],
    );
    let e = r.unwrap_err();
    assert_eq!(e.kind(), ErrorKind::NoSinkDefined);
    let r = parse_and_get_program_sync(
        "-- nothing".to_string(),
        catalog(),
        SqlConfig::default(),
        vec![],
    );
    assert_eq!(r.unwrap_err().kind(), ErrorKind::NoSinkDefined);
}

#[test]
fn select_columns_keeps_order_and_types() {
    let c = catalog();
    let op = lower_plan(&c, &select(vec![col("b"), col("a")], scan("t")), MAX_VIEW_DEPTH).unwrap();
    assert!(matches!(op.body, OperatorBody::Projection { .. }));
    assert_eq!(op.schema.fields.len(), 2);
    assert_eq!(op.schema.fields[0].name, "b");
    assert_eq!(op.schema.fields[0].data_type, TypeDef::new(PrimitiveKind::Utf8, true));
    assert_eq!(op.schema.fields[0].alias.as_deref(), Some("t"));
    assert_eq!(op.schema.fields[1].name, "a");
    assert_eq!(op.schema.fields[1].data_type, TypeDef::new(PrimitiveKind::Int64, false));
    if let OperatorBody::Projection { exprs, input } = op.body {
        assert!(matches!(exprs[0], Expression::Column { index: 1, .. }));
        assert!(matches!(exprs[1], Expression::Column { index: 0, .. }));
        assert!(matches!(input.body, OperatorBody::Source { .. }));
        assert_eq!(input.schema.fields.len(), 4);
    }
}

#[test]
fn unnamed_and_aliased_outputs() {
    let c = catalog();
    let plan = select(
        vec![
            binary(col("a"), BinaryOp::Plus, int_literal("1")),
            Expr::Alias { input: Box::new(col("a")), name: "x".to_string() },
        ],
        scan("t"),
    );
    let op = lower_plan(&c, &plan, MAX_VIEW_DEPTH).unwrap();
    assert_eq!(op.schema.fields[0].name, "?column?");
    assert_eq!(op.schema.fields[0].alias, None);
    assert_eq!(op.schema.fields[1].name, "x");
    assert_eq!(op.schema.fields[1].alias, None);
}

#[test]
fn binary_operators_propagate_nullability() {
    let t = type_of(&binary(col("a"), BinaryOp::Plus, col("c"))).unwrap();
    assert_eq!(t, TypeDef::new(PrimitiveKind::Int64, true));
    let t = type_of(&binary(col("c"), BinaryOp::Multiply, col("a"))).unwrap();
    assert_eq!(t, TypeDef::new(PrimitiveKind::Int64, true));
    let t = type_of(&binary(col("a"), BinaryOp::Minus, int_literal("2"))).unwrap();
    assert_eq!(t, TypeDef::new(PrimitiveKind::Int64, false));
    let t = type_of(&binary(col("a"), BinaryOp::Lt, col("a"))).unwrap();
    assert_eq!(t, TypeDef::new(PrimitiveKind::Boolean, false));
    let t = type_of(&binary(col("a"), BinaryOp::Eq, col("c"))).unwrap();
    assert_eq!(t, TypeDef::new(PrimitiveKind::Boolean, true));
    let both = binary(
        binary(col("a"), BinaryOp::Gt, int_literal("0")),
        BinaryOp::And,
        binary(col("c"), BinaryOp::Gt, int_literal("0")),
    );
    assert_eq!(type_of(&both).unwrap(), TypeDef::new(PrimitiveKind::Boolean, true));
    let null = Expr::Literal(ScalarValue::new(PrimitiveKind::Int64, None));
    let t = type_of(&binary(col("a"), BinaryOp::Plus, null)).unwrap();
    assert_eq!(t, TypeDef::new(PrimitiveKind::Int64, true));
}

#[test]
fn ill_typed_operands_are_plan_errors() {
    assert_eq!(type_of(&binary(col("a"), BinaryOp::Plus, col("b"))), Err(ErrorKind::PlanError));
    assert_eq!(type_of(&binary(col("b"), BinaryOp::Plus, col("b"))), Err(ErrorKind::PlanError));
    assert_eq!(type_of(&binary(col("a"), BinaryOp::And, col("a"))), Err(ErrorKind::PlanError));
    assert_eq!(type_of(&binary(col("a"), BinaryOp::Eq, col("b"))), Err(ErrorKind::PlanError));
    let not = Expr::Unary { op: UnaryOp::Not, input: Box::new(col("a")) };
    assert_eq!(type_of(&not), Err(ErrorKind::PlanError));
}

#[test]
fn unary_operators() {
    let is_null = Expr::Unary { op: UnaryOp::IsNull, input: Box::new(col("b")) };
    assert_eq!(type_of(&is_null).unwrap(), TypeDef::new(PrimitiveKind::Boolean, false));
    let neg = Expr::Unary { op: UnaryOp::Negative, input: Box::new(col("c")) };
    assert_eq!(type_of(&neg).unwrap(), TypeDef::new(PrimitiveKind::Int64, true));
    let not = Expr::Unary { op: UnaryOp::Not, input: Box::new(is_null) };
    assert_eq!(type_of(&not).unwrap(), TypeDef::new(PrimitiveKind::Boolean, false));
}

#[test]
fn casts() {
    let cast = |e: Expr, kind| Expr::Cast { input: Box::new(e), kind };
    assert_eq!(
        type_of(&cast(col("c"), PrimitiveKind::Float64)).unwrap(),
        TypeDef::new(PrimitiveKind::Float64, true)
    );
    assert_eq!(
        type_of(&cast(col("a"), PrimitiveKind::Utf8)).unwrap(),
        TypeDef::new(PrimitiveKind::Utf8, false)
    );
    assert_eq!(
        type_of(&cast(col("b"), PrimitiveKind::Int32)).unwrap(),
        TypeDef::new(PrimitiveKind::Int32, true)
    );
    assert_eq!(
        type_of(&cast(col("a"), PrimitiveKind::Timestamp)).unwrap(),
        TypeDef::new(PrimitiveKind::Timestamp, false)
    );
    assert_eq!(type_of(&cast(col("a"), PrimitiveKind::Binary)), Err(ErrorKind::UnsupportedCast));
    assert_eq!(type_of(&cast(col("a"), PrimitiveKind::Boolean)), Err(ErrorKind::UnsupportedCast));
    assert_eq!(type_of(&cast(col("b"), PrimitiveKind::Binary)), Err(ErrorKind::UnsupportedCast));
}

#[test]
fn resolution_failures() {
    assert_eq!(type_of(&col("nope")), Err(ErrorKind::UnknownColumn));
    assert_eq!(type_of(&qcol("other", "a")), Err(ErrorKind::UnknownColumn));
    assert_eq!(type_of(&call("nope", vec![col("a")])), Err(ErrorKind::UnknownFunction));
    let c = catalog();
    let e = lower_plan(&c, &scan("missing"), MAX_VIEW_DEPTH).unwrap_err();
    assert_eq!(e.kind(), ErrorKind::UnknownTable);
    assert_eq!(e.detail(), "missing");
    let e = lower_plan(&c, &select(vec![col("zz")], scan("t")), MAX_VIEW_DEPTH).unwrap_err();
    assert_eq!(e.kind(), ErrorKind::UnknownColumn);
    assert_eq!(e.detail(), "zz");
}

#[test]
fn function_calls() {
    let t = type_of(&call("extract_json_string", vec![col("b"), col("b")])).unwrap();
    assert_eq!(t, TypeDef::new(PrimitiveKind::Utf8, true));
    assert_eq!(
        type_of(&call("extract_json_string", vec![col("b")])),
        Err(ErrorKind::PlanError)
    );
    assert_eq!(
        type_of(&call("extract_json_string", vec![col("a"), col("b")])),
        Err(ErrorKind::PlanError)
    );
    assert_eq!(
        type_of(&call("get_json_objects", vec![col("b"), col("b")])),
        Err(ErrorKind::PlanError)
    );
    assert_eq!(
        type_of(&call("tumble", vec![interval_secs(60)])),
        Err(ErrorKind::UnsupportedConstruct)
    );
    assert_eq!(type_of(&call("hop", vec![])), Err(ErrorKind::UnsupportedConstruct));
    assert_eq!(
        type_of(&Expr::Aggregate { kind: AggregateKind::Count, arg: Box::new(col("a")) }),
        Err(ErrorKind::UnsupportedConstruct)
    );
}

#[test]
fn user_function_call_is_nullable_with_its_arguments() {
    let mut c = catalog();
    c.add_rust_udf("fn twice(x: i64) -> i64 { 2 * x }").unwrap();
    let s = schema_of_t();
    let ctx = ExpressionContext { schema_provider: &c, input_struct: &s };
    let t = ctx.compile_expr(&call("twice", vec![col("a")])).unwrap().data_type();
    assert_eq!(t, TypeDef::new(PrimitiveKind::Int64, false));
    let t = ctx.compile_expr(&call("twice", vec![col("c")])).unwrap().data_type();
    assert_eq!(t, TypeDef::new(PrimitiveKind::Int64, true));
}

fn windowed(window: Expr) -> LogicalPlan {
    LogicalPlan::Aggregate {
        group_exprs: vec![col("b"), window],
        aggr_exprs: vec![
            Expr::Aggregate { kind: AggregateKind::Count, arg: Box::new(col("a")) },
            Expr::Alias {
                input: Box::new(
                    Expr::Aggregate { kind: AggregateKind::Sum, arg: Box::new(col("c")) },
                ),
                name: "total".to_string(),
            },
        ],
        input: Box::new(scan("t")),
    }
}

#[test]
fn tumble_makes_a_tumbling_window() {
    let c = catalog();
    let op = lower_plan(&c, &windowed(call("tumble", vec![interval_secs(60)])), MAX_VIEW_DEPTH)
        .unwrap();
    if let OperatorBody::Aggregate { window, keys, aggregates, .. } = op.body {
        assert_eq!(window, WindowType::Tumbling { size: Duration::from_secs(60) });
        assert_eq!(window, WindowType::Tumbling { size: Duration { nanos: 60_000_000_000 } });
        assert!(matches!(keys[0], KeyExpr::Value(Expression::Column { index: 1, .. })));
        assert!(matches!(keys[1], KeyExpr::Window));
        assert_eq!(aggregates.len(), 2);
        assert_eq!(aggregates[0].data_type, TypeDef::new(PrimitiveKind::Int64, false));
        assert_eq!(aggregates[1].data_type, TypeDef::new(PrimitiveKind::Int64, true));
    } else {
        panic!("not an aggregate");
    }
    let names: Vec<&str> = op.schema.fields.iter().map(|f| f.name.as_str()).collect();
    assert_eq!(names, vec!["b", "?column?", "?column?", "total"]);
    assert_eq!(op.schema.fields[1].data_type, TypeDef::new(PrimitiveKind::Timestamp, false));
}

#[test]
fn hop_makes_a_hopping_window() {
    let c = catalog();
    let plan = windowed(call("hop", vec![interval_secs(30), interval_secs(60)]));
    let op = lower_plan(&c, &plan, MAX_VIEW_DEPTH).unwrap();
    if let OperatorBody::Aggregate { window, .. } = op.body {
        assert_eq!(
            window,
            WindowType::Hopping { size: Duration::from_secs(60), slide: Duration::from_secs(30) }
        );
        if let WindowType::Hopping { size, slide } = window {
            assert_eq!(size.as_secs(), 60);
            assert_eq!(slide.as_secs(), 30);
        }
    } else {
        panic!("not an aggregate");
    }
}

#[test]
fn aggregate_without_window_is_instant() {
    let c = catalog();
    let plan = LogicalPlan::Aggregate {
        group_exprs: vec![col("b")],
        aggr_exprs: vec![Expr::Aggregate { kind: AggregateKind::Avg, arg: Box::new(col("a")) }],
        input: Box::new(scan("t")),
    };
    let op = lower_plan(&c, &plan, MAX_VIEW_DEPTH).unwrap();
    if let OperatorBody::Aggregate { window, aggregates, .. } = op.body {
        assert_eq!(window, WindowType::Instant);
        assert_eq!(aggregates[0].data_type, TypeDef::new(PrimitiveKind::Float64, false));
    } else {
        panic!("not an aggregate");
    }
}

#[test]
fn bad_windows_are_unsupported() {
    let c = catalog();
    let kind = |w: Expr| lower_plan(&c, &windowed(w), MAX_VIEW_DEPTH).unwrap_err().kind();
    assert_eq!(kind(call("tumble", vec![])), ErrorKind::UnsupportedConstruct);
    assert_eq!(kind(call("tumble", vec![col("a")])), ErrorKind::UnsupportedConstruct);
    assert_eq!(
        kind(call("tumble", vec![interval_secs(1), interval_secs(2)])),
        ErrorKind::UnsupportedConstruct
    );
    assert_eq!(kind(call("hop", vec![interval_secs(1)])), ErrorKind::UnsupportedConstruct);
    let month = Expr::Interval(IntervalValue { months: 1, days: 0, nanos: 0 });
    assert_eq!(kind(call("tumble", vec![month])), ErrorKind::UnsupportedConstruct);
    let negative = Expr::Interval(IntervalValue { months: 0, days: 0, nanos: -1 });
    assert_eq!(kind(call("tumble", vec![negative])), ErrorKind::UnsupportedConstruct);
    let long = Expr::Interval(IntervalValue { months: 0, days: i32::MAX, nanos: 0 });
    assert_eq!(kind(call("tumble", vec![long])), ErrorKind::UnsupportedConstruct);
    let two = LogicalPlan::Aggregate {
        group_exprs: vec![
            call("tumble", vec![interval_secs(1)]),
            call("hop", vec![interval_secs(1), interval_secs(2)]),
        ],
        aggr_exprs: vec![],
        input: Box::new(scan("t")),
    };
    assert_eq!(
        lower_plan(&c, &two, MAX_VIEW_DEPTH).unwrap_err().kind(),
        ErrorKind::UnsupportedConstruct
    );
    let in_projection = select(vec![call("tumble", vec![interval_secs(1)])], scan("t"));
    assert_eq!(
        lower_plan(&c, &in_projection, MAX_VIEW_DEPTH).unwrap_err().kind(),
        ErrorKind::UnsupportedConstruct
    );
}

#[test]
fn window_of_days() {
    let c = catalog();
    let day = Expr::Interval(IntervalValue { months: 0, days: 2, nanos: 5 });
    let op = lower_plan(&c, &windowed(call("tumble", vec![day])), MAX_VIEW_DEPTH).unwrap();
    if let OperatorBody::Aggregate { window, .. } = op.body {
        assert_eq!(window, WindowType::Tumbling { size: Duration { nanos: 172_800_000_000_005 } });
    } else {
        panic!("not an aggregate");
    }
}

#[test]
fn filter_needs_a_boolean() {
    let c = catalog();
    let ok = LogicalPlan::Filter {
        predicate: binary(col("a"), BinaryOp::Gt, int_literal("3")),
        input: Box::new(scan("t")),
    };
    let op = lower_plan(&c, &ok, MAX_VIEW_DEPTH).unwrap();
    assert_eq!(op.schema.fields.len(), 4);
    assert_eq!(op.schema.fields[1].name, "b");
    let bad = LogicalPlan::Filter { predicate: col("a"), input: Box::new(scan("t")) };
    assert_eq!(lower_plan(&c, &bad, MAX_VIEW_DEPTH).unwrap_err().kind(), ErrorKind::PlanError);
}

fn self_join(kind: JoinKind) -> LogicalPlan {
    LogicalPlan::Join {
        left: Box::new(scan_as("t", "l")),
        right: Box::new(scan_as("t", "r")),
        kind,
        condition: binary(qcol("l", "a"), BinaryOp::Eq, qcol("r", "a")),
    }
}

#[test]
fn joins_make_the_outer_side_nullable() {
    let c = catalog();
    let nullable = |kind| -> Vec<bool> {
        lower_plan(&c, &self_join(kind), MAX_VIEW_DEPTH)
            .unwrap()
            .schema
            .fields
            .iter()
            .map(|f| f.data_type.nullable)
            .collect()
    };
    assert_eq!(nullable(JoinKind::Inner), vec![false, true, true, false, false, true, true, false]);
    assert_eq!(nullable(JoinKind::Left), vec![false, true, true, false, true, true, true, true]);
    assert_eq!(nullable(JoinKind::Right), vec![true, true, true, true, false, true, true, false]);
    assert_eq!(nullable(JoinKind::Full), vec![true; 8]);
    let op = lower_plan(&c, &self_join(JoinKind::Inner), MAX_VIEW_DEPTH).unwrap();
    assert_eq!(op.schema.fields[0].alias.as_deref(), Some("l"));
    assert_eq!(op.schema.fields[4].alias.as_deref(), Some("r"));
    if let OperatorBody::Join { condition, kind, .. } = op.body {
        assert_eq!(kind, JoinKind::Inner);
        if let Expression::Binary { left, right, .. } = condition {
            assert!(matches!(*left, Expression::Column { index: 0, .. }));
            assert!(matches!(*right, Expression::Column { index: 4, .. }));
        } else {
            panic!("not a comparison");
        }
    }
}

#[test]
fn other_joins_are_unsupported() {
    let c = catalog();
    for kind in [JoinKind::LeftSemi, JoinKind::RightSemi, JoinKind::LeftAnti, JoinKind::RightAnti] {
        let e = lower_plan(&c, &self_join(kind), MAX_VIEW_DEPTH).unwrap_err();
        assert_eq!(e.kind(), ErrorKind::UnsupportedConstruct);
    }
}

#[test]
fn unsupported_constructs_are_named() {
    let c = catalog();
    let plan = LogicalPlan::Unsupported { construct: "Sort".to_string(), fields: vec![] };
    let e = lower_plan(&c, &plan, MAX_VIEW_DEPTH).unwrap_err();
    assert_eq!(e.kind(), ErrorKind::UnsupportedConstruct);
    assert_eq!(e.detail(), "Sort");
    let e = lower_plan(&c, &scan("out"), MAX_VIEW_DEPTH).unwrap_err();
    assert_eq!(e.kind(), ErrorKind::UnsupportedConstruct);
    let nested = select(vec![col("a")], insert("out", scan("t")));
    let e = lower_plan(&c, &nested, MAX_VIEW_DEPTH).unwrap_err();
    assert_eq!(e.kind(), ErrorKind::UnsupportedConstruct);
}

#[test]
fn view_is_inserted_and_resolved() {
    let mut builder = SqlProgramBuilder::new(catalog());
    let create = LogicalPlan::CreateView {
        name: "v".to_string(),
        input: Box::new(select(vec![col("a"), col("b")], scan("t"))),
    };
    let outputs = builder
        .plan_query("q", vec![create, select(vec![col("a")], scan("v"))])
        .unwrap();
    assert_eq!(outputs.len(), 1);
    assert!(matches!(outputs[0], Table::Anonymous { .. }));
    assert!(matches!(
        builder.schema_provider.get_table("v"),
        Some(Table::TableFromQuery { .. })
    ));
    let fields = builder.schema_provider.get_table_provider("v").unwrap();
    assert_eq!(fields.len(), 2);
    assert_eq!(fields[1].name, "b");
    let op = lower_plan(&builder.schema_provider, &scan("v"), MAX_VIEW_DEPTH).unwrap();
    assert!(matches!(op.body, OperatorBody::Projection { .. }));
    assert_eq!(op.schema.fields[0].alias.as_deref(), Some("v"));
}

#[test]
fn statements_are_classified() {
    let builder = SqlProgramBuilder::new(catalog());
    let t = builder
        .process_statement(LogicalPlan::CreateMemoryTable {
            name: "m".to_string(),
            input: Box::new(scan("t")),
        })
        .unwrap();
    assert!(matches!(t, Table::TableFromQuery { ref name, .. } if name == "m"));
    let t = builder.process_statement(insert("out", scan("t"))).unwrap();
    assert!(matches!(t, Table::InsertQuery { ref sink_name, .. } if sink_name == "out"));
    let t = builder.process_statement(scan("t")).unwrap();
    assert!(matches!(t, Table::Anonymous { .. }));
    let e = builder.process_statement(scan("zz")).unwrap_err();
    assert_eq!(e.kind(), ErrorKind::UnknownTable);
}

#[test]
fn failure_names_its_statement_and_keeps_earlier_views() {
    let mut builder = SqlProgramBuilder::new(catalog());
    let create = LogicalPlan::CreateView { name: "v".to_string(), input: Box::new(scan("t")) };
    let e = builder
        .plan_query("q", vec![create, select(vec![col("zz")], scan("v")), scan("t")])
        .unwrap_err();
    assert_eq!(e.kind(), ErrorKind::UnknownColumn);
    assert_eq!(e.statement, Some(1));
    assert!(builder.schema_provider.get_table("v").is_some());
}

#[test]
fn later_view_replaces_earlier() {
    let mut builder = SqlProgramBuilder::new(catalog());
    let first = LogicalPlan::CreateView {
        name: "v".to_string(),
        input: Box::new(select(vec![col("a")], scan("t"))),
    };
    let second = LogicalPlan::CreateView {
        name: "v".to_string(),
        input: Box::new(select(vec![col("b"), col("c")], scan("t"))),
    };
    builder.plan_query("q", vec![first, second]).unwrap();
    let fields = builder.schema_provider.get_table_provider("v").unwrap();
    assert_eq!(fields.len(), 2);
    assert_eq!(fields[0].name, "b");
}

#[test]
fn a_long_chain_of_views_resolves() {
    let mut builder = SqlProgramBuilder::new(catalog());
    let mut statements = vec![];
    let mut last = "t".to_string();
    for i in 0..100 {
        let name = format!("v{}", i);
        statements.push(LogicalPlan::CreateView {
            name: name.clone(),
            input: Box::new(scan(&last)),
        });
        last = name;
    }
    statements.push(insert("out", select(vec![col("a")], scan(&last))));
    let outputs = builder.plan_query("q", statements).unwrap();
    let (program, sinks) =
        build_program(&builder.schema_provider, &outputs, SqlConfig::default()).unwrap();
    assert_eq!(sinks, vec![9]);
    assert_eq!(program.nodes.len(), 3);
}

#[test]
fn views_that_refer_to_each_other_are_refused() {
    let mut builder = SqlProgramBuilder::new(catalog());
    let v = LogicalPlan::CreateView { name: "v".to_string(), input: Box::new(scan("t")) };
    let t = LogicalPlan::CreateView { name: "t".to_string(), input: Box::new(scan("v")) };
    builder.plan_query("q", vec![v, t]).unwrap();
    let e = builder.process_statement(scan("v")).unwrap_err();
    assert_eq!(e.kind(), ErrorKind::PlanError);
    let e = lower_plan(&builder.schema_provider, &scan("v"), builder.schema_provider.view_depth())
        .unwrap_err();
    assert_eq!(e.kind(), ErrorKind::PlanError);
}

#[test]
fn insert_compiles_to_a_program() {
    let (program, sinks) = parse_and_get_program_sync(
        "INSERT INTO out SELECT a FROM t".to_string(),
        catalog(),
        SqlConfig::default(),
        vec![insert("out", select(vec![col("a")], scan("t")))],
    )
    .unwrap();
    assert_eq!(sinks, vec![9]);
    assert_eq!(program.default_parallelism, 4);
    assert_eq!(program.nodes.len(), 3);
    assert!(matches!(program.nodes[0].operator, PlanOperator::Source { id: Some(7), .. }));
    assert!(matches!(program.nodes[1].operator, PlanOperator::Projection { .. }));
    assert!(matches!(program.nodes[2].operator, PlanOperator::Sink { id: Some(9), .. }));
    assert_eq!(
        program.edges,
        vec![PlanEdge { from: 0, to: 1, input: 0 }, PlanEdge { from: 1, to: 2, input: 0 }]
    );
    if let PlanOperator::Sink { name, operator, config, .. } = &program.nodes[2].operator {
        assert_eq!(name, "out");
        assert_eq!(operator, "connectors::mqtt::sink::MqttSinkFunc::<#in_k, #in_t>");
        assert_eq!(config, "{\"topic\":\"out\"}");
    }
    assert_eq!(program.nodes[2].schema.fields.len(), 1);
}

#[test]
fn insert_into_what_is_no_sink() {
    let c = catalog();
    let run = |plan: LogicalPlan| {
        let b = SqlProgramBuilder::new(catalog());
        let t = b.process_statement(plan).unwrap();
        build_program(&c, &vec![t], SqlConfig::default()).unwrap_err().kind()
    };
    assert_eq!(run(insert("nowhere", scan("t"))), ErrorKind::UnknownTable);
    assert_eq!(run(insert("t", scan("t"))), ErrorKind::UnsupportedConstruct);
}

#[test]
fn self_join_shares_its_source() {
    let (program, sinks) = parse_and_get_program_sync(
        "INSERT INTO out SELECT l.a FROM t l JOIN t r ON l.a = r.a".to_string(),
        catalog(),
        SqlConfig { default_parallelism: 2 },
        vec![insert("out", select(vec![qcol("l", "a")], self_join(JoinKind::Inner)))],
    )
    .unwrap();
    assert_eq!(sinks, vec![9]);
    assert_eq!(program.default_parallelism, 2);
    let sources = program
        .nodes
        .iter()
        .filter(|n| matches!(n.operator, PlanOperator::Source { .. }))
        .count();
    assert_eq!(sources, 1);
    assert_eq!(program.nodes.len(), 4);
    assert!(matches!(program.nodes[1].operator, PlanOperator::Join { .. }));
    assert_eq!(
        program.edges,
        vec![
            PlanEdge { from: 0, to: 1, input: 0 },
            PlanEdge { from: 0, to: 1, input: 1 },
            PlanEdge { from: 1, to: 2, input: 0 },
            PlanEdge { from: 2, to: 3, input: 0 },
        ]
    );
}

#[test]
fn two_inserts_share_a_source_and_list_both_sinks() {
    let mut c = catalog();
    c.add_connector_table(
        11,
        "out2".to_string(),
        ConnectorType::Sink,
        vec![field("b", PrimitiveKind::Utf8, true)],
        None,
        "op".to_string(),
        "cfg".to_string(),
        "d".to_string(),
        SerializationMode::RawJson,
    );
    let (program, sinks) = parse_and_get_program_sync(
        "two inserts".to_string(),
        c,
        SqlConfig::default(),
        vec![
            insert("out2", select(vec![col("b")], scan("t"))),
            insert("out", select(vec![col("a")], scan("t"))),
        ],
    )
    .unwrap();
    assert_eq!(sinks, vec![11, 9]);
    assert_eq!(program.nodes.len(), 5);
    assert!(program.edges.iter().all(|e| e.from < e.to && e.to < program.nodes.len()));
}

#[test]
fn graph_adds_inputs_before_consumers() {
    let c = catalog();
    let op = lower_plan(&c, &select(vec![col("a")], scan("t")), MAX_VIEW_DEPTH).unwrap();
    let mut g = PlanGraph::new(SqlConfig::default());
    let id = g.add_sql_operator(op);
    assert_eq!(id, 1);
    let again = lower_plan(&c, &scan_as("t", "other"), MAX_VIEW_DEPTH).unwrap();
    assert_eq!(g.add_sql_operator(again), 0);
    assert_eq!(g.nodes.len(), 2);
    assert_eq!(g.edges.len(), 1);
    let e = arroyo_sql::plan_graph::get_program(g).unwrap_err();
    assert_eq!(e.kind(), ErrorKind::NoSinkDefined);
}
