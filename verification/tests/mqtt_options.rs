use arroyo_sql::mqtt::{
    ConnectionSchema, MqttConnector, MqttError, QualityOfService, TableType,
};
use arroyo_sql::options::ConnectorOptions;
use arroyo_sql::tables::ConnectorType;

fn options(pairs: &[(&str, &str)]) -> ConnectorOptions {
    let mut o = ConnectorOptions::new();
    for (k, v) in pairs {
        o.insert(k.to_string(), v.to_string());
    }
    o
}

#[test]
fn table_source_with_qos() {
    let mut o = options(&[("type", "source"), ("topic", "events"), ("qos", "AtLeastOnce"), ("x", "y")]);
    let t = MqttConnector::table_from_options(&mut o).unwrap();
    assert_eq!(t.topic, "events");
    assert_eq!(t.type_, TableType::Source);
    assert_eq!(t.qos, Some(QualityOfService::AtLeastOnce));
    assert!(o.contains_key("x"));
    assert!(!o.contains_key("type"));
    assert!(!o.contains_key("topic"));
    assert!(!o.contains_key("qos"));
}

#[test]
fn table_sink_retain_defaults_to_false() {
    let mut o = options(&[("type", "sink"), ("topic", "out")]);
    let t = MqttConnector::table_from_options(&mut o).unwrap();
    assert_eq!(t.type_, TableType::Sink { retain: false });
    assert_eq!(t.qos, None);
    assert!(o.is_empty());
}

#[test]
fn table_sink_retain_true() {
    let mut o = options(&[("type", "sink"), ("topic", "out"), ("sink.retain", "true")]);
    let t = MqttConnector::table_from_options(&mut o).unwrap();
    assert_eq!(t.type_, TableType::Sink { retain: true });
}

#[test]
fn table_errors() {
    let mut o = options(&[("topic", "out")]);
    assert_eq!(MqttConnector::table_from_options(&mut o).unwrap_err(), MqttError::MissingType);
    assert!(o.contains_key("topic"));
    let mut o = options(&[("type", "both"), ("topic", "out")]);
    assert_eq!(MqttConnector::table_from_options(&mut o).unwrap_err(), MqttError::InvalidType);
    let mut o = options(&[("type", "sink"), ("topic", "out"), ("qos", "2")]);
    assert_eq!(MqttConnector::table_from_options(&mut o).unwrap_err(), MqttError::InvalidQos);
    let mut o = options(&[("type", "sink"), ("topic", "out"), ("sink.retain", "yes")]);
    assert_eq!(MqttConnector::table_from_options(&mut o).unwrap_err(), MqttError::InvalidRetain);
    let mut o = options(&[("type", "source")]);
    assert_eq!(MqttConnector::table_from_options(&mut o).unwrap_err(), MqttError::MissingTopic);
}

#[test]
fn connection_keeps_tls_only_for_tls_schemes() {
    let mut o = options(&[
        ("url", "mqtts://broker:8883"),
        ("username", "u"),
        ("tls.ca", "ca.pem"),
        ("client_prefix", "p"),
    ]);
    let c = MqttConnector::connection_from_options(&mut o).unwrap();
    assert_eq!(c.url, "mqtts://broker:8883");
    assert_eq!(c.username.unwrap().raw, "u");
    assert!(c.password.is_none());
    let tls = c.tls.unwrap();
    assert_eq!(tls.ca.unwrap().raw, "ca.pem");
    assert!(tls.cert.is_none());
    assert_eq!(c.client_prefix.as_deref(), Some("p"));
    assert!(o.is_empty());

    let mut o = options(&[("url", "tcp://broker:1883"), ("tls.ca", "ca.pem")]);
    let c = MqttConnector::connection_from_options(&mut o).unwrap();
    assert!(c.tls.is_none());

    let mut o = options(&[("url", "SSL://broker:1883")]);
    let c = MqttConnector::connection_from_options(&mut o).unwrap();
    assert!(c.tls.is_some());
}

#[test]
fn connection_errors() {
    let mut o = options(&[("username", "u")]);
    assert_eq!(MqttConnector::connection_from_options(&mut o).unwrap_err(), MqttError::MissingUrl);
    assert!(o.contains_key("username"));
    let mut o = options(&[("url", "not a url"), ("client_prefix", "p")]);
    assert_eq!(MqttConnector::connection_from_options(&mut o).unwrap_err(), MqttError::InvalidUrl);
    assert!(o.contains_key("client_prefix"));
}

#[test]
fn from_options_builds_a_sink_connection() {
    let mut o = options(&[("url", "tcp://broker:1883"), ("type", "sink"), ("topic", "out")]);
    let schema = ConnectionSchema {
        format: Some("json".to_string()),
        bad_data: None,
        framing: None,
        struct_name: None,
        fields: vec![],
    };
    let c = MqttConnector {}.from_options("t", &mut o, Some(&schema), None).unwrap();
    assert_eq!(c.id, None);
    assert_eq!(c.name, "t");
    assert_eq!(c.connection_type, ConnectorType::Sink);
    assert_eq!(c.operator, "connectors::mqtt::sink::MqttSinkFunc::<#in_k, #in_t>");
    assert_eq!(c.description, "MqttSink<out>");
    assert_eq!(c.config.format, "json");
    assert_eq!(c.config.table.topic, "out");

    let mut o = options(&[("url", "tcp://broker:1883"), ("type", "source"), ("topic", "in")]);
    let e = MqttConnector {}.from_options("t", &mut o, None, None).unwrap_err();
    assert_eq!(e, MqttError::NoSchema);
    let schema = ConnectionSchema {
        format: None,
        bad_data: None,
        framing: None,
        struct_name: None,
        fields: vec![],
    };
    let mut o = options(&[("url", "tcp://broker:1883"), ("type", "source"), ("topic", "in")]);
    let e = MqttConnector {}.from_options("t", &mut o, Some(&schema), None).unwrap_err();
    assert_eq!(e, MqttError::NoFormat);
}
