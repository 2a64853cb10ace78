use arroyo_sql::catalog::ArroyoSchemaProvider;
use arroyo_sql::error::ErrorKind;
use arroyo_sql::plan::{
    AggregateKind, BinaryOp, Column, Expr, IntervalValue, JoinKind, LogicalPlan,
};
use arroyo_sql::plan_graph::SqlConfig;
use arroyo_sql::program::build_program;
use arroyo_sql::resolve::{resolve_expr, resolve_plan};
use arroyo_sql::statement::SqlProgramBuilder;
use arroyo_sql::tables::{ConnectorType, SerializationMode, Table};
use arroyo_sql::types::{PrimitiveKind, StructDef, StructField, TypeDef};

fn declared() -> Vec<StructField> {
    vec![
        StructField::new("a".to_string(), None, TypeDef::new(PrimitiveKind::Int64, false)),
        StructField::new("b".to_string(), None, TypeDef::new(PrimitiveKind::Utf8, true)),
    ]
}

fn catalog_with(kind: ConnectorType) -> ArroyoSchemaProvider {
    let mut c = ArroyoSchemaProvider::new();
    c.add_connector_table(
        1,
        "t".to_string(),
        kind,
        declared(),
        None,
        "op".to_string(),
        "cfg".to_string(),
        "d".to_string(),
        SerializationMode::Json,
    );
    c
}

fn col(name: &str) -> Expr {
    Expr::Column(Column::new(None, name.to_string()))
}

fn scan(name: &str) -> LogicalPlan {
    LogicalPlan::TableScan { table_name: name.to_string(), alias: None }
}

fn select_all(name: &str) -> LogicalPlan {
    LogicalPlan::Projection { exprs: vec![col("a"), col("b")], input: Box::new(scan(name)) }
}

fn create_view(name: &str, input: LogicalPlan) -> LogicalPlan {
    LogicalPlan::CreateView { name: name.to_string(), input: Box::new(input) }
}

fn is_connector(c: &ArroyoSchemaProvider, name: &str, kind: ConnectorType) -> bool {
    matches!(c.get_table(name), Some(Table::ConnectorTable(t)) if t.connector_type == kind && t.id == Some(1))
}

#[test]
fn view_over_any_connector_table_is_inserted() {
    for kind in [ConnectorType::Source, ConnectorType::Sink] {
        let mut builder = SqlProgramBuilder::new(catalog_with(kind));
        let outputs = builder
            .plan_query(
                "CREATE VIEW v AS SELECT * FROM t; SELECT * FROM v",
                vec![create_view("v", select_all("t")), select_all("v")],
            )
            .unwrap();
        assert!(matches!(
            builder.schema_provider.get_table("v"),
            Some(Table::TableFromQuery { name, .. }) if name == "v"
        ));
        assert!(is_connector(&builder.schema_provider, "t", kind));
        assert!(builder.schema_provider.get_table("a").is_none());
        assert_eq!(outputs.len(), 1);
        let Table::Anonymous { logical_plan } = &outputs[0] else {
            panic!("not a plan without a name");
        };
        let c = &builder.schema_provider;
        let fields = resolve_plan(c, logical_plan, c.view_depth()).unwrap();
        assert_eq!(fields.len(), 2);
        for (f, d) in fields.iter().zip(declared().iter()) {
            assert_eq!(f.name, d.name);
            assert_eq!(f.data_type, d.data_type);
        }
        let fields = c.get_table_provider("v").unwrap();
        assert_eq!(fields.len(), 2);
        assert_eq!(fields[1].name, "b");
    }
}

#[test]
fn failure_after_a_view_leaves_the_view() {
    for kind in [ConnectorType::Source, ConnectorType::Sink] {
        let mut builder = SqlProgramBuilder::new(catalog_with(kind));
        let e = builder
            .plan_query(
                "CREATE VIEW v AS SELECT * FROM t; SELECT * FROM missing",
                vec![create_view("v", select_all("t")), select_all("missing")],
            )
            .unwrap_err();
        assert_eq!(
            (e.kind(), e.detail(), e.statement),
            (ErrorKind::UnknownTable, "missing", Some(1))
        );
        assert!(matches!(
            builder.schema_provider.get_table("v"),
            Some(Table::TableFromQuery { .. })
        ));
        assert!(is_connector(&builder.schema_provider, "t", kind));
    }
}

#[test]
fn query_without_text_changes_nothing() {
    let mut builder = SqlProgramBuilder::new(ArroyoSchemaProvider::new());
    let e = builder.plan_query("", vec![]).unwrap_err();
    assert_eq!((e.kind(), e.statement), (ErrorKind::EmptyQuery, None));
    let mut builder = SqlProgramBuilder::new(catalog_with(ConnectorType::Sink));
    let e = builder.plan_query(" \n", vec![create_view("v", select_all("t"))]).unwrap_err();
    assert_eq!(e.kind(), ErrorKind::EmptyQuery);
    assert!(builder.schema_provider.get_table("v").is_none());
    assert!(is_connector(&builder.schema_provider, "t", ConnectorType::Sink));
    assert!(builder.plan_query("-- nothing", vec![]).unwrap().is_empty());
}

#[test]
fn scan_of_a_sink_resolves_and_is_refused_only_when_lowered() {
    let mut builder = SqlProgramBuilder::new(catalog_with(ConnectorType::Sink));
    let outputs = builder.plan_query("SELECT * FROM t", vec![select_all("t")]).unwrap();
    let e = build_program(&builder.schema_provider, &outputs, SqlConfig::default()).unwrap_err();
    assert_eq!((e.kind(), e.detail()), (ErrorKind::UnsupportedConstruct, "scan of a sink"));
}

#[test]
fn joins_of_every_kind_resolve() {
    let c = catalog_with(ConnectorType::Source);
    let join = |kind| LogicalPlan::Join {
        left: Box::new(LogicalPlan::TableScan {
            table_name: "t".to_string(),
            alias: Some("l".to_string()),
        }),
        right: Box::new(LogicalPlan::TableScan {
            table_name: "t".to_string(),
            alias: Some("r".to_string()),
        }),
        kind,
        condition: Expr::Binary {
            left: Box::new(Expr::Column(Column::new(Some("l".to_string()), "a".to_string()))),
            op: BinaryOp::Eq,
            right: Box::new(Expr::Column(Column::new(Some("r".to_string()), "a".to_string()))),
        },
    };
    let aliases = |kind| -> Vec<String> {
        resolve_plan(&c, &join(kind), c.view_depth())
            .unwrap()
            .iter()
            .map(|f| f.alias.clone().unwrap())
            .collect()
    };
    assert_eq!(aliases(JoinKind::Inner), vec!["l", "l", "r", "r"]);
    assert_eq!(aliases(JoinKind::Full), vec!["l", "l", "r", "r"]);
    assert_eq!(aliases(JoinKind::LeftSemi), vec!["l", "l"]);
    assert_eq!(aliases(JoinKind::LeftAnti), vec!["l", "l"]);
    assert_eq!(aliases(JoinKind::RightSemi), vec!["r", "r"]);
    assert_eq!(aliases(JoinKind::RightAnti), vec!["r", "r"]);
    let nullable: Vec<bool> = resolve_plan(&c, &join(JoinKind::Left), c.view_depth())
        .unwrap()
        .iter()
        .map(|f| f.data_type.nullable)
        .collect();
    assert_eq!(nullable, vec![false, true, true, true]);
    let mut builder = SqlProgramBuilder::new(catalog_with(ConnectorType::Source));
    builder.plan_query("q", vec![create_view("v", join(JoinKind::LeftAnti))]).unwrap();
    assert!(builder.schema_provider.get_table("v").is_some());
}

#[test]
fn what_the_compiler_has_no_form_for_resolves_with_its_fields() {
    let c = catalog_with(ConnectorType::Source);
    let sort = LogicalPlan::Unsupported { construct: "Sort".to_string(), fields: declared() };
    let fields = resolve_plan(&c, &sort, c.view_depth()).unwrap();
    assert_eq!(fields.len(), 2);
    assert_eq!(fields[0].name, "a");
    let plan = LogicalPlan::Projection {
        exprs: vec![
            Expr::Unsupported {
                construct: "CASE".to_string(),
                data_type: TypeDef::new(PrimitiveKind::Utf8, true),
            },
            col("a"),
        ],
        input: Box::new(sort),
    };
    let fields = resolve_plan(&c, &plan, c.view_depth()).unwrap();
    assert_eq!(fields[0].name, "?column?");
    assert_eq!(fields[0].data_type, TypeDef::new(PrimitiveKind::Utf8, true));
    assert_eq!(fields[1].data_type, TypeDef::new(PrimitiveKind::Int64, false));
    let builder = SqlProgramBuilder::new(catalog_with(ConnectorType::Source));
    let table = builder.process_statement(plan).unwrap();
    let e = build_program(&builder.schema_provider, &vec![table], SqlConfig::default())
        .unwrap_err();
    assert_eq!((e.kind(), e.detail()), (ErrorKind::UnsupportedConstruct, "Sort"));
}

#[test]
fn expressions_resolve_without_asking_for_support() {
    let c = catalog_with(ConnectorType::Source);
    let s = StructDef::new(None, declared());
    let kind = |e: &Expr| resolve_expr(&c, &s, e).map_err(|e| e.kind());
    let interval = Expr::Interval(IntervalValue { months: 1, days: 0, nanos: 0 });
    let window = Expr::Call { name: "tumble".to_string(), args: vec![interval] };
    assert_eq!(kind(&window), Ok(TypeDef::new(PrimitiveKind::Timestamp, false)));
    let count = Expr::Aggregate { kind: AggregateKind::Count, arg: Box::new(col("b")) };
    assert_eq!(kind(&count), Ok(TypeDef::new(PrimitiveKind::Int64, false)));
    let sum = Expr::Aggregate { kind: AggregateKind::Sum, arg: Box::new(col("b")) };
    assert_eq!(kind(&sum), Err(ErrorKind::PlanError));
    let list = Expr::Call {
        name: "get_json_objects".to_string(),
        args: vec![col("b"), col("b")],
    };
    assert_eq!(kind(&list), Err(ErrorKind::PlanError));
    assert_eq!(
        kind(&Expr::Interval(IntervalValue { months: 0, days: 0, nanos: 1 })),
        Err(ErrorKind::PlanError)
    );
    assert_eq!(kind(&col("zz")), Err(ErrorKind::UnknownColumn));
    assert_eq!(
        kind(&Expr::Call { name: "nope".to_string(), args: vec![] }),
        Err(ErrorKind::UnknownFunction)
    );
    assert_eq!(
        kind(&Expr::Cast { input: Box::new(col("a")), kind: PrimitiveKind::Binary }),
        Err(ErrorKind::UnsupportedCast)
    );
    let not_aggregate = LogicalPlan::Aggregate {
        group_exprs: vec![],
        aggr_exprs: vec![col("a")],
        input: Box::new(scan("t")),
    };
    let e = resolve_plan(&c, &not_aggregate, c.view_depth()).unwrap_err();
    assert_eq!((e.kind(), e.detail()), (ErrorKind::PlanError, "not an aggregate"));
    let nested = LogicalPlan::Filter {
        predicate: col("a"),
        input: Box::new(create_view("v", scan("t"))),
    };
    let e = resolve_plan(&c, &nested, c.view_depth()).unwrap_err();
    assert_eq!(e.kind(), ErrorKind::PlanError);
}

#[test]
fn built_ins_are_in_place() {
    let mut c = ArroyoSchemaProvider::new();
    assert!(c.is_well_formed());
    c.add_rust_udf("fn f(x: i64) -> i64 { x }").unwrap();
    assert!(c.is_well_formed());
    assert_eq!(c.view_depth(), 64);
    assert_eq!(catalog_with(ConnectorType::Source).view_depth(), 64);
    let mut many = ArroyoSchemaProvider::new();
    for i in 0..70 {
        many.insert_table(Table::TableFromQuery {
            name: format!("v{}", i),
            logical_plan: scan("t"),
        });
    }
    assert_eq!(many.view_depth(), 70);
}

#[test]
fn table_read_twice_through_a_view_is_realized_once() {
    let mut c = catalog_with(ConnectorType::Source);
    c.add_connector_table(
        2,
        "out".to_string(),
        ConnectorType::Sink,
        declared(),
        None,
        "op".to_string(),
        "cfg".to_string(),
        "d".to_string(),
        SerializationMode::Json,
    );
    let side = |table: &str, alias: &str| LogicalPlan::TableScan {
        table_name: table.to_string(),
        alias: Some(alias.to_string()),
    };
    let join = LogicalPlan::Join {
        left: Box::new(side("v", "l")),
        right: Box::new(side("t", "r")),
        kind: JoinKind::Inner,
        condition: Expr::Binary {
            left: Box::new(Expr::Column(Column::new(Some("l".to_string()), "a".to_string()))),
            op: BinaryOp::Eq,
            right: Box::new(Expr::Column(Column::new(Some("r".to_string()), "a".to_string()))),
        },
    };
    let insert = LogicalPlan::Insert {
        table_name: "out".to_string(),
        input: Box::new(LogicalPlan::Projection {
            exprs: vec![
                Expr::Column(Column::new(Some("l".to_string()), "a".to_string())),
                Expr::Column(Column::new(Some("r".to_string()), "b".to_string())),
            ],
            input: Box::new(join),
        }),
    };
    let mut builder = SqlProgramBuilder::new(c);
    let outputs = builder.plan_query("q", vec![create_view("v", select_all("t")), insert]).unwrap();
    let (program, sinks) =
        build_program(&builder.schema_provider, &outputs, SqlConfig::default()).unwrap();
    assert_eq!(sinks, vec![2]);
    let sources: Vec<usize> = program
        .nodes
        .iter()
        .enumerate()
        .filter(|(_, n)| matches!(n.operator, arroyo_sql::plan_graph::PlanOperator::Source { .. }))
        .map(|(i, _)| i)
        .collect();
    assert_eq!(sources, vec![0]);
    let from_source: Vec<_> = program.edges.iter().filter(|e| e.from == 0).collect();
    assert_eq!(from_source.len(), 2);
    assert_ne!(from_source[0], from_source[1]);
    for (i, a) in program.edges.iter().enumerate() {
        assert!(a.from < a.to && a.to < program.nodes.len());
        for b in &program.edges[i + 1..] {
            assert_ne!(a, b);
        }
    }
}
