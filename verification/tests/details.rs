use arroyo_sql::catalog::{lexographic_max_return_type, ArroyoSchemaProvider};
use arroyo_sql::error::{ErrorKind, SqlError};
use arroyo_sql::expressions::ExpressionContext;
use arroyo_sql::mqtt::{
    ConnectionSchema, MqttConfig, MqttConnector, MqttError, MqttTable, QualityOfService,
    TableType, VarStr,
};
use arroyo_sql::pipeline::{interval_duration, lower_plan, Duration};
use arroyo_sql::plan::{BinaryOp, Column, Expr, IntervalValue, JoinKind, LogicalPlan, ScalarValue};
use arroyo_sql::program::parse_and_get_program_sync;
use arroyo_sql::plan_graph::SqlConfig;
use arroyo_sql::tables::{ConnectorType, SerializationMode};
use arroyo_sql::testing::test_struct_def;
use arroyo_sql::text::{blank, decimal, str_eq};
use arroyo_sql::types::{PrimitiveKind, StructDef, StructField, TypeDef};

const MAX_VIEW_DEPTH: usize = 8;

fn source_catalog() -> ArroyoSchemaProvider {
    let mut c = ArroyoSchemaProvider::new();
    c.add_connector_table(
        3,
        "t".to_string(),
        ConnectorType::Source,
        vec![StructField::new("a".to_string(), None, TypeDef::new(PrimitiveKind::Int64, false))],
        None,
        "op".to_string(),
        "cfg".to_string(),
        "d".to_string(),
        SerializationMode::Json,
    );
    c
}

fn col(name: &str) -> Expr {
    Expr::Column(Column::new(None, name.to_string()))
}

fn scan(name: &str) -> LogicalPlan {
    LogicalPlan::TableScan { table_name: name.to_string(), alias: None }
}

fn failure_of(e: &Expr) -> SqlError {
    let c = source_catalog();
    let s = StructDef::new(
        None,
        vec![StructField::new("a".to_string(), None, TypeDef::new(PrimitiveKind::Int64, false))],
    );
    let ctx = ExpressionContext { schema_provider: &c, input_struct: &s };
    ctx.compile_expr(e).unwrap_err()
}

#[test]
fn expression_failures_name_what_they_are_about() {
    let e = failure_of(&col("zz"));
    assert_eq!((e.kind(), e.detail()), (ErrorKind::UnknownColumn, "zz"));
    let e = failure_of(&Expr::Call { name: "nope".to_string(), args: vec![] });
    assert_eq!((e.kind(), e.detail()), (ErrorKind::UnknownFunction, "nope"));
    let e = failure_of(&Expr::Call { name: "extract_json_string".to_string(), args: vec![] });
    assert_eq!((e.kind(), e.detail()), (ErrorKind::PlanError, "extract_json_string"));
    let e = failure_of(&Expr::Unsupported {
        construct: "CASE".to_string(),
        data_type: TypeDef::new(PrimitiveKind::Int64, true),
    });
    assert_eq!((e.kind(), e.detail()), (ErrorKind::UnsupportedConstruct, "CASE"));
    let e = failure_of(&Expr::Cast { input: Box::new(col("a")), kind: PrimitiveKind::Binary });
    assert_eq!((e.kind(), e.detail()), (ErrorKind::UnsupportedCast, "cast"));
    let e = failure_of(&Expr::Interval(IntervalValue { months: 0, days: 0, nanos: 1 }));
    assert_eq!((e.kind(), e.detail()), (ErrorKind::PlanError, "interval"));
    let bad = Expr::Binary {
        left: Box::new(col("a")),
        op: BinaryOp::And,
        right: Box::new(col("zz")),
    };
    let e = failure_of(&bad);
    assert_eq!((e.kind(), e.detail()), (ErrorKind::UnknownColumn, "zz"));
    assert_eq!(e.statement, None);
}

#[test]
fn first_failing_argument_decides() {
    let call = Expr::Call {
        name: "extract_json_string".to_string(),
        args: vec![col("x1"), col("x2")],
    };
    let e = failure_of(&call);
    assert_eq!((e.kind(), e.detail()), (ErrorKind::UnknownColumn, "x1"));
}

#[test]
fn plan_failures_name_what_they_are_about() {
    let c = source_catalog();
    let join = LogicalPlan::Join {
        left: Box::new(scan("t")),
        right: Box::new(scan("nope")),
        kind: JoinKind::LeftAnti,
        condition: col("a"),
    };
    let e = lower_plan(&c, &join, MAX_VIEW_DEPTH).unwrap_err();
    assert_eq!((e.kind(), e.detail()), (ErrorKind::UnsupportedConstruct, "left anti join"));
    let join = LogicalPlan::Join {
        left: Box::new(scan("t")),
        right: Box::new(scan("nope")),
        kind: JoinKind::Inner,
        condition: col("a"),
    };
    let e = lower_plan(&c, &join, MAX_VIEW_DEPTH).unwrap_err();
    assert_eq!((e.kind(), e.detail()), (ErrorKind::UnknownTable, "nope"));
    let join = LogicalPlan::Join {
        left: Box::new(scan("t")),
        right: Box::new(scan("t")),
        kind: JoinKind::Inner,
        condition: col("a"),
    };
    let e = lower_plan(&c, &join, MAX_VIEW_DEPTH).unwrap_err();
    assert_eq!((e.kind(), e.detail()), (ErrorKind::PlanError, "condition is not boolean"));
    let e = lower_plan(&c, &scan("t"), 0).unwrap();
    assert_eq!(e.schema.fields.len(), 1);
}

#[test]
fn program_failures() {
    let insert = LogicalPlan::Insert { table_name: "t".to_string(), input: Box::new(scan("t")) };
    let e = parse_and_get_program_sync(
        "q".to_string(),
        source_catalog(),
        SqlConfig::default(),
        vec![insert],
    )
    .unwrap_err();
    assert_eq!((e.kind(), e.detail()), (ErrorKind::UnsupportedConstruct, "t"));
    let e = parse_and_get_program_sync(
        "q".to_string(),
        source_catalog(),
        SqlConfig::default(),
        vec![scan("t"), scan("u")],
    )
    .unwrap_err();
    assert_eq!((e.kind(), e.detail(), e.statement), (ErrorKind::UnknownTable, "u", Some(1)));
    let e = parse_and_get_program_sync(
        "q".to_string(),
        source_catalog(),
        SqlConfig::default(),
        vec![scan("t")],
    )
    .unwrap_err();
    assert_eq!((e.kind(), e.detail(), e.statement), (ErrorKind::NoSinkDefined, "no sink", None));
    let e = parse_and_get_program_sync(
        "\n".to_string(),
        source_catalog(),
        SqlConfig::default(),
        vec![],
    )
    .unwrap_err();
    assert_eq!(
        (e.kind(), e.detail(), e.statement),
        (ErrorKind::EmptyQuery, "query is empty", None)
    );
}

#[test]
fn udf_failures_name_what_they_are_about() {
    let mut c = ArroyoSchemaProvider::new();
    let e = c.add_rust_udf("fn f(x: i64) { }").unwrap_err();
    assert_eq!((e.kind(), e.detail()), (ErrorKind::MissingReturnType, "f"));
    let e = c.add_rust_udf("fn g(self) -> i64 { 0 }").unwrap_err();
    assert_eq!((e.kind(), e.detail()), (ErrorKind::InvalidSelfParameter, "g"));
    let e = c.add_rust_udf("fn h(x: Vec<String>) -> i64 { 0 }").unwrap_err();
    assert_eq!((e.kind(), e.detail()), (ErrorKind::UnsupportedType, "Vec < String >"));
    let e = c.add_rust_udf("fn h(").unwrap_err();
    assert_eq!((e.kind(), e.detail()), (ErrorKind::SyntaxError, "source does not parse"));
    let e = c.add_rust_udf("const X: i64 = 1;").unwrap_err();
    assert_eq!((e.kind(), e.detail()), (ErrorKind::UnsupportedConstruct, "not a function"));
}

#[test]
fn udf_source_is_kept_public() {
    let mut c = ArroyoSchemaProvider::new();
    c.add_rust_udf("fn add_one(x: i64) -> i64 { x + 1 }").unwrap();
    let def = c.get_udf("add_one").unwrap();
    assert_eq!(def.args, vec![TypeDef::new(PrimitiveKind::Int64, false)]);
    assert_eq!(def.ret, TypeDef::new(PrimitiveKind::Int64, false));
    assert_eq!(def.def, "pub fn add_one (x : i64) -> i64 { x + 1 }");
    assert!(c.get_udf("tumble").is_none());
    c.add_rust_udf("#[inline]\n#[allow(unused)]\npub(crate) fn two() -> Option<String> { None }")
        .unwrap();
    assert_eq!(
        c.get_udf("two").unwrap().def,
        "# [inline] # [allow (unused)] pub fn two () -> Option < String > { None }"
    );
    assert_eq!(c.get_udf("two").unwrap().ret, TypeDef::new(PrimitiveKind::Utf8, true));
}

#[test]
fn definitions_and_connections_are_kept() {
    let mut c = ArroyoSchemaProvider::new();
    c.add_defs("nexmark".to_string(), "struct Bid;".to_string());
    c.add_defs("nexmark".to_string(), "struct Auction;".to_string());
    assert_eq!(c.get_defs("nexmark").map(|s| s.as_str()), Some("struct Auction;"));
    assert!(c.get_defs("other").is_none());

    let config = MqttConfig {
        url: "tcp://b:1883".to_string(),
        username: Some(VarStr::new("u".to_string())),
        password: None,
        tls: None,
        client_prefix: None,
    };
    let table = MqttTable {
        topic: "in".to_string(),
        type_: TableType::Source,
        qos: Some(QualityOfService::AtLeastOnce),
    };
    let schema = ConnectionSchema {
        format: Some("json".to_string()),
        bad_data: Some("drop".to_string()),
        framing: None,
        struct_name: Some("Event".to_string()),
        fields: vec![StructField::new(
            "a".to_string(),
            None,
            TypeDef::new(PrimitiveKind::Int64, false),
        )],
    };
    let m = MqttConnector {};
    assert_eq!(m.config_description(&config), "tcp://b:1883");
    let connection = m.from_config(Some(5), "conn", config, table, Some(&schema)).unwrap();
    assert_eq!(connection.id, Some(5));
    assert_eq!(connection.connection_type, ConnectorType::Source);
    assert_eq!(connection.operator, "connectors::mqtt::source::MqttSourceFunc");
    assert_eq!(connection.description, "MqttSource<in>");
    assert_eq!(connection.config.bad_data.as_deref(), Some("drop"));
    assert_eq!(connection.config.framing, None);
    assert_eq!(connection.schema.format.as_deref(), Some("json"));
    assert_eq!(connection.schema.bad_data.as_deref(), Some("drop"));
    assert_eq!(connection.schema.struct_name.as_deref(), Some("Event"));
    assert_eq!(connection.schema.fields.len(), 1);
    assert_eq!(connection.schema.fields[0].name, "a");
    assert_eq!(connection.config.connection.username.as_ref().unwrap().raw, "u");
    c.add_connection(connection);
    assert_eq!(c.get_connection("conn").unwrap().name, "conn");
    assert!(c.get_connection("other").is_none());

    let config = MqttConfig {
        url: String::new(),
        username: None,
        password: None,
        tls: None,
        client_prefix: None,
    };
    let table = MqttTable { topic: "x".to_string(), type_: TableType::Source, qos: None };
    assert_eq!(m.from_config(None, "n", config, table, None).unwrap_err(), MqttError::NoSchema);
}

#[test]
fn record_of_lexographic_max() {
    let types: Vec<TypeDef> = (0..12)
        .map(|i| TypeDef::new(if i % 2 == 0 { PrimitiveKind::Int64 } else { PrimitiveKind::Utf8 }, true))
        .collect();
    let fields = lexographic_max_return_type(&types);
    assert_eq!(fields.len(), 12);
    assert_eq!(fields[0].name, "_0");
    assert_eq!(fields[9].name, "_9");
    assert_eq!(fields[10].name, "_10");
    assert_eq!(fields[11].name, "_11");
    assert_eq!(fields[1].data_type, TypeDef::new(PrimitiveKind::Utf8, false));
    assert_eq!(fields[2].data_type, TypeDef::new(PrimitiveKind::Int64, false));
    assert!(lexographic_max_return_type(&vec![]).is_empty());
}

#[test]
fn text_helpers() {
    assert_eq!(decimal(0), "0");
    assert_eq!(decimal(7), "7");
    assert_eq!(decimal(10), "10");
    assert_eq!(decimal(1234567890), "1234567890");
    assert_eq!(decimal(usize::MAX), usize::MAX.to_string());
    assert!(str_eq("", ""));
    assert!(str_eq("é", "é"));
    assert!(!str_eq("a", "ab"));
    assert!(blank(""));
    assert!(blank("\u{2028}\u{205f}\u{1680}\u{85}\u{b}\u{c}"));
    assert!(!blank(" a "));
    assert!(!blank("\u{feff}"));
}

#[test]
fn intervals_as_durations() {
    assert_eq!(
        interval_duration(IntervalValue { months: 0, days: 0, nanos: 0 }),
        Some(Duration { nanos: 0 })
    );
    assert_eq!(
        interval_duration(IntervalValue { months: 0, days: 1, nanos: 1 }),
        Some(Duration { nanos: 86_400_000_000_001 })
    );
    assert_eq!(
        interval_duration(IntervalValue { months: 0, days: 213_503, nanos: 0 }),
        Some(Duration { nanos: 213_503 * 86_400_000_000_000 })
    );
    assert_eq!(interval_duration(IntervalValue { months: 0, days: 213_504, nanos: 0 }), None);
    assert_eq!(interval_duration(IntervalValue { months: 0, days: -1, nanos: 0 }), None);
    assert_eq!(interval_duration(IntervalValue { months: 0, days: 0, nanos: -1 }), None);
    assert_eq!(interval_duration(IntervalValue { months: 1, days: 0, nanos: 0 }), None);
    assert_eq!(Duration::from_secs(0).as_secs(), 0);
    assert_eq!(Duration { nanos: 1_999_999_999 }.as_secs(), 1);
}

#[test]
fn record_with_a_field_of_every_kind() {
    let d = test_struct_def();
    assert_eq!(d.name.as_deref(), Some("TestStruct"));
    let names: Vec<&str> = d.fields.iter().map(|f| f.name.as_str()).collect();
    assert_eq!(
        names,
        vec![
            "non_nullable_i32",
            "nullable_i32",
            "non_nullable_bool",
            "nullable_bool",
            "non_nullable_f32",
            "nullable_f32",
            "non_nullable_f64",
            "nullable_f64",
            "non_nullable_i64",
            "nullable_i64",
            "non_nullable_string",
            "nullable_string",
            "non_nullable_timestamp",
            "nullable_timestamp",
            "non_nullable_bytes",
            "nullable_bytes",
        ]
    );
    for (i, f) in d.fields.iter().enumerate() {
        assert_eq!(f.data_type.nullable, i % 2 == 1);
        assert_eq!(f.alias, None);
    }
    assert_eq!(d.fields[4].data_type.kind, PrimitiveKind::Float32);
    assert_eq!(d.fields[13].data_type.kind, PrimitiveKind::Timestamp);
    let literal = Expr::Literal(ScalarValue::new(PrimitiveKind::Boolean, Some("true".to_string())));
    let c = ArroyoSchemaProvider::new();
    let ctx = ExpressionContext { schema_provider: &c, input_struct: &d };
    let both = Expr::Binary {
        left: Box::new(col("nullable_bool")),
        op: BinaryOp::Or,
        right: Box::new(literal),
    };
    assert_eq!(
        ctx.compile_expr(&both).unwrap().data_type(),
        TypeDef::new(PrimitiveKind::Boolean, true)
    );
}
