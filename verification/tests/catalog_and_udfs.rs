use arroyo_sql::catalog::ArroyoSchemaProvider;
use arroyo_sql::error::ErrorKind;
use arroyo_sql::mqtt::{
    probe_plan, probe_step, MqttConnector, MqttTable, ProbeEvent, ProbeStep,
    QualityOfService, TableType,
};
use arroyo_sql::plan::LogicalPlan;
use arroyo_sql::tables::{ConnectorType, SerializationMode, SqlType, Table};
use arroyo_sql::types::{PrimitiveKind, StructDef, StructField, TypeDef};
use arroyo_sql::udf::{parse_type, FnSyntax};

fn field(name: &str, kind: PrimitiveKind, nullable: bool) -> StructField {
    StructField::new(name.to_string(), None, TypeDef::new(kind, nullable))
}

fn with_table(name: &str, fields: Vec<StructField>) -> ArroyoSchemaProvider {
    let mut c = ArroyoSchemaProvider::new();
    c.add_connector_table(
        1,
        name.to_string(),
        ConnectorType::Source,
        fields,
        None,
        "op".to_string(),
        "cfg".to_string(),
        "desc".to_string(),
        SerializationMode::Json,
    );
    c
}

#[test]
fn new_catalog_has_the_built_in_functions() {
    let c = ArroyoSchemaProvider::new();
    for name in ["hop", "tumble", "get_first_json_object", "get_json_objects", "extract_json_string"] {
        let f = c.get_function_meta(name).unwrap();
        assert_eq!(f.name, name);
        assert!(f.built_in);
    }
    assert_eq!(c.get_function_meta("hop").unwrap().args, vec![SqlType::Interval; 2]);
    assert_eq!(c.get_function_meta("tumble").unwrap().args, vec![SqlType::Interval]);
    assert_eq!(c.get_function_meta("tumble").unwrap().return_type, SqlType::Window);
    assert_eq!(
        c.get_function_meta("get_json_objects").unwrap().return_type,
        SqlType::List(PrimitiveKind::Utf8)
    );
    assert_eq!(
        c.get_function_meta("extract_json_string").unwrap().args,
        vec![SqlType::Primitive(PrimitiveKind::Utf8); 2]
    );
    assert!(c.get_function_meta("nope").is_none());
    assert!(c.get_table("t").is_none());
}

#[test]
fn missing_table_is_not_found() {
    let c = with_table("t", vec![field("a", PrimitiveKind::Int32, false)]);
    let e = c.get_table_provider("u").unwrap_err();
    assert_eq!(e.kind(), ErrorKind::TableNotFound);
    assert_eq!(e.detail(), "u");
    let fields = c.get_table_provider("t").unwrap();
    assert_eq!(fields.len(), 1);
    assert_eq!(fields[0].name, "a");
    assert_eq!(fields[0].data_type, TypeDef::new(PrimitiveKind::Int32, false));
}

#[test]
fn connector_table_is_kept_as_given() {
    let c = with_table("t", vec![field("a", PrimitiveKind::Int32, false)]);
    match c.get_table("t") {
        Some(Table::ConnectorTable(t)) => {
            assert_eq!(t.id, Some(1));
            assert_eq!(t.name, "t");
            assert_eq!(t.connector_type, ConnectorType::Source);
            assert_eq!(t.operator, "op");
            assert_eq!(t.config, "cfg");
            assert_eq!(t.description, "desc");
            assert_eq!(t.serialization_mode, SerializationMode::Json);
            assert_eq!(t.event_time_field, None);
            assert_eq!(t.watermark_field, None);
        },
        _ => panic!("not a connector table"),
    }
}

#[test]
fn last_write_wins() {
    let mut c = with_table("t", vec![field("a", PrimitiveKind::Int32, false)]);
    c.insert_table(Table::TableFromQuery {
        name: "t".to_string(),
        logical_plan: LogicalPlan::TableScan { table_name: "gone".to_string(), alias: None },
    });
    assert!(matches!(c.get_table("t"), Some(Table::TableFromQuery { .. })));
    let e = c.get_table_provider("t").unwrap_err();
    assert_eq!((e.kind(), e.detail()), (ErrorKind::PlanError, "t"));
    c.insert_table(Table::Anonymous {
        logical_plan: LogicalPlan::Unsupported { construct: "y".to_string(), fields: vec![] },
    });
    assert!(matches!(c.get_table("t"), Some(Table::TableFromQuery { .. })));
}

#[test]
fn aggregate_meta_knows_lexographic_max() {
    let c = ArroyoSchemaProvider::new();
    let f = c.get_aggregate_meta("lexographic_max").unwrap();
    assert_eq!((f.min_args, f.max_args), (1, 4));
    assert!(c.get_aggregate_meta("max").is_none());
    assert!(c.get_variable_type(&vec!["@x".to_string()]).is_none());
}

#[test]
fn types_of_rust_map_to_kinds() {
    assert_eq!(parse_type("i32"), Some(TypeDef::new(PrimitiveKind::Int32, false)));
    assert_eq!(parse_type(" i64 "), Some(TypeDef::new(PrimitiveKind::Int64, false)));
    assert_eq!(parse_type("f32"), Some(TypeDef::new(PrimitiveKind::Float32, false)));
    assert_eq!(parse_type("f64"), Some(TypeDef::new(PrimitiveKind::Float64, false)));
    assert_eq!(parse_type("bool"), Some(TypeDef::new(PrimitiveKind::Boolean, false)));
    assert_eq!(parse_type("String"), Some(TypeDef::new(PrimitiveKind::Utf8, false)));
    assert_eq!(parse_type("Vec < u8 >"), Some(TypeDef::new(PrimitiveKind::Binary, false)));
    assert_eq!(parse_type("SystemTime"), Some(TypeDef::new(PrimitiveKind::Timestamp, false)));
    assert_eq!(
        parse_type("std :: time :: SystemTime"),
        Some(TypeDef::new(PrimitiveKind::Timestamp, false))
    );
    assert_eq!(parse_type("Option < i64 >"), Some(TypeDef::new(PrimitiveKind::Int64, true)));
    assert_eq!(
        parse_type("Option<Vec<u8>>"),
        Some(TypeDef::new(PrimitiveKind::Binary, true))
    );
    assert_eq!(parse_type("Option<Option<i64>>"), None);
    assert_eq!(parse_type("u64"), None);
    assert_eq!(parse_type("Option<>"), None);
    assert_eq!(parse_type(""), None);
    assert_eq!(parse_type("& str"), None);
}

#[test]
fn udf_is_registered_with_its_signature_and_source() {
    let mut c = ArroyoSchemaProvider::new();
    c.add_rust_udf("fn add_one(x: i64, y: Option<f64>) -> Option<i64> { Some(x + 1) }").unwrap();
    let f = c.get_function_meta("add_one").unwrap();
    assert!(!f.built_in);
    assert_eq!(
        f.args,
        vec![SqlType::Primitive(PrimitiveKind::Int64), SqlType::Primitive(PrimitiveKind::Float64)]
    );
    assert_eq!(f.return_type, SqlType::Primitive(PrimitiveKind::Int64));
    assert!(f.return_nullable);
}

#[test]
fn udf_named_like_a_built_in_collides() {
    for name in ["tumble", "hop", "get_first_json_object", "get_json_objects", "extract_json_string"] {
        let mut c = ArroyoSchemaProvider::new();
        let e = c.add_rust_udf(&format!("fn {}(x: i64) -> i64 {{ x }}", name)).unwrap_err();
        assert_eq!(e.kind(), ErrorKind::NameCollision);
        assert_eq!(e.detail(), name);
        assert!(c.get_function_meta(name).unwrap().built_in);
    }
}

#[test]
fn udf_registered_twice_collides() {
    let mut c = ArroyoSchemaProvider::new();
    c.add_rust_udf("fn f(x: i64) -> i64 { x }").unwrap();
    let e = c.add_rust_udf("fn f(x: String) -> String { x }").unwrap_err();
    assert_eq!(e.kind(), ErrorKind::NameCollision);
    assert_eq!(
        c.get_function_meta("f").unwrap().args,
        vec![SqlType::Primitive(PrimitiveKind::Int64)]
    );
}

#[test]
fn udf_with_receiver_is_refused() {
    let mut c = ArroyoSchemaProvider::new();
    let e = c.add_rust_udf("fn f(&self, x: i64) -> i64 { x }").unwrap_err();
    assert_eq!(e.kind(), ErrorKind::InvalidSelfParameter);
    assert!(c.get_function_meta("f").is_none());
}

#[test]
fn udf_signature_errors() {
    let mut c = ArroyoSchemaProvider::new();
    let kind = |c: &mut ArroyoSchemaProvider, body: &str| c.add_rust_udf(body).unwrap_err().kind();
    assert_eq!(kind(&mut c, "fn f(x: i64) { }"), ErrorKind::MissingReturnType);
    assert_eq!(kind(&mut c, "fn f(x: u128) -> i64 { 0 }"), ErrorKind::UnsupportedType);
    assert_eq!(kind(&mut c, "fn f(x: i64) -> u8 { 0 }"), ErrorKind::UnsupportedType);
    assert_eq!(kind(&mut c, "fn f(x: i64 -> i64 { 0 }"), ErrorKind::SyntaxError);
    assert_eq!(kind(&mut c, "struct S;"), ErrorKind::UnsupportedConstruct);
    assert_eq!(kind(&mut c, "fn f(self, x: u128) { }"), ErrorKind::InvalidSelfParameter);
    assert!(c.get_function_meta("f").is_none());
}

#[test]
fn udfs_before_a_failure_stay() {
    let mut c = ArroyoSchemaProvider::new();
    let e = c
        .add_rust_udf("fn a(x: i64) -> i64 { x }\nfn b(x: i64) { }\nfn c(x: i64) -> i64 { x }")
        .unwrap_err();
    assert_eq!(e.kind(), ErrorKind::MissingReturnType);
    assert!(c.get_function_meta("a").is_some());
    assert!(c.get_function_meta("b").is_none());
    assert!(c.get_function_meta("c").is_none());
}

#[test]
fn register_udf_from_plain_values() {
    let mut c = ArroyoSchemaProvider::new();
    let item = FnSyntax {
        function: true,
        name: "g".to_string(),
        args: vec![Some("bool".to_string())],
        ret: Some("String".to_string()),
        attributes: vec!["# [inline]".to_string()],
        signature: "fn g (b : bool) -> String".to_string(),
        block: "{ String :: new () }".to_string(),
    };
    c.register_udf(&item).unwrap();
    assert_eq!(
        c.get_udf("g").unwrap().def,
        "# [inline] pub fn g (b : bool) -> String { String :: new () }"
    );
    let f = c.get_function_meta("g").unwrap();
    assert_eq!(f.args, vec![SqlType::Primitive(PrimitiveKind::Boolean)]);
    assert!(!f.return_nullable);
    assert_eq!(c.register_udf(&item).unwrap_err().kind(), ErrorKind::NameCollision);
    let receiver = FnSyntax {
        function: true,
        name: "h".to_string(),
        args: vec![Some("bool".to_string()), None],
        ret: None,
        attributes: vec![],
        signature: String::new(),
        block: String::new(),
    };
    assert_eq!(c.register_udf(&receiver).unwrap_err().kind(), ErrorKind::InvalidSelfParameter);
}

#[test]
fn field_lookup_takes_the_first_that_answers() {
    let d = StructDef::new(
        None,
        vec![
            StructField::new("a".to_string(), Some("l".to_string()), TypeDef::new(PrimitiveKind::Int32, false)),
            StructField::new("a".to_string(), Some("r".to_string()), TypeDef::new(PrimitiveKind::Int64, false)),
            StructField::new("b".to_string(), None, TypeDef::new(PrimitiveKind::Utf8, true)),
        ],
    );
    assert_eq!(d.field_index(&None, "a"), Some(0));
    assert_eq!(d.field_index(&Some("r".to_string()), "a"), Some(1));
    assert_eq!(d.field_index(&Some("r".to_string()), "b"), None);
    assert_eq!(d.field_index(&None, "b"), Some(2));
    assert_eq!(d.field_index(&None, "c"), None);
    let t = TypeDef::new(PrimitiveKind::Int32, false);
    assert!(!t.is_optional());
    assert!(t.as_nullable().is_optional());
    assert_eq!(t.as_nullable().kind, PrimitiveKind::Int32);
    assert_eq!(t.with_nullity(false), t);
}

#[test]
fn probe_decisions() {
    assert_eq!(probe_step(true, ProbeEvent::OutgoingPublish), ProbeStep::Continue);
    assert_eq!(probe_step(false, ProbeEvent::OutgoingPublish), ProbeStep::Published);
    assert_eq!(probe_step(true, ProbeEvent::IncomingPublish { text: true }), ProbeStep::Subscribed);
    assert_eq!(probe_step(false, ProbeEvent::IncomingPublish { text: false }), ProbeStep::BadPayload);
    assert_eq!(probe_step(true, ProbeEvent::Disconnect), ProbeStep::Disconnected);
    assert_eq!(probe_step(true, ProbeEvent::Failure), ProbeStep::ReadFailed);
    assert_eq!(probe_step(false, ProbeEvent::Other), ProbeStep::Continue);

    let p = probe_plan(None);
    assert_eq!(p.topic, "test-arroyo");
    assert_eq!(p.qos, QualityOfService::AtMostOnce);
    assert!(!p.retain && !p.subscribe);
    let sink = MqttTable {
        topic: "o".to_string(),
        type_: TableType::Sink { retain: true },
        qos: Some(QualityOfService::ExactlyOnce),
    };
    let p = probe_plan(Some(&sink));
    assert_eq!(p.topic, "o");
    assert_eq!(p.qos, QualityOfService::ExactlyOnce);
    assert!(p.retain && !p.subscribe);
    let source = MqttTable { topic: "i".to_string(), type_: TableType::Source, qos: None };
    let p = probe_plan(Some(&source));
    assert_eq!(p.qos, QualityOfService::AtMostOnce);
    assert!(!p.retain && p.subscribe);
}

#[test]
fn connector_metadata() {
    let m = MqttConnector {};
    assert_eq!(m.name(), "mqtt");
    let meta = m.metadata("<svg/>".to_string(), "{c}".to_string(), "{t}".to_string());
    assert_eq!(meta.id, "mqtt");
    assert_eq!(meta.name, "Mqtt");
    assert_eq!(meta.icon, "<svg/>");
    assert_eq!(meta.description, "Read and write from a mqtt cluster");
    assert!(meta.enabled && meta.source && meta.sink && meta.testing && meta.custom_schemas);
    assert!(!meta.hidden);
    assert_eq!(meta.connection_config.as_deref(), Some("{c}"));
    assert_eq!(meta.table_config, "{t}");
    let sink = MqttTable { topic: "o".to_string(), type_: TableType::Sink { retain: false }, qos: None };
    assert_eq!(m.table_type(&sink), ConnectorType::Sink);
}
