//! The MQTT connector: from user options to a connection profile, a table
//! descriptor and an operator configuration, and the decisions of its
//! connectivity probe.

use vstd::prelude::*;
use crate::options::{lookup, ConnectorOptions};
use crate::tables::ConnectorType;
use crate::text::str_eq;
use crate::types::{clone_fields, clone_opt, fields_view, opt_view, FieldView, StructField};

verus! {

#[derive(Clone, Copy, Debug, PartialEq, Eq, Structural)]
pub enum QualityOfService {
    AtMostOnce,
    AtLeastOnce,
    ExactlyOnce,
}

#[derive(Clone, Copy, Debug, PartialEq, Eq, Structural)]
pub enum TableType {
    Source,
    Sink { retain: bool },
}

/// Why options or a configuration were rejected.
#[derive(Clone, Copy, Debug, PartialEq, Eq, Structural)]
pub enum MqttError {
    MissingUrl,
    InvalidUrl,
    MissingType,
    InvalidType,
    InvalidQos,
    InvalidRetain,
    MissingTopic,
    NoSchema,
    NoFormat,
}

/// A text in which environment variables are substituted before use.
#[derive(Debug)]
pub struct VarStr {
    pub raw: String,
}

#[derive(Debug)]
pub struct Tls {
    pub ca: Option<VarStr>,
    pub cert: Option<VarStr>,
    pub key: Option<VarStr>,
}

/// The connection profile of a broker.
#[derive(Debug)]
pub struct MqttConfig {
    pub url: String,
    pub username: Option<VarStr>,
    pub password: Option<VarStr>,
    pub tls: Option<Tls>,
    pub client_prefix: Option<String>,
}

/// The table descriptor: topic, role and quality of service.
#[derive(Debug)]
pub struct MqttTable {
    pub topic: String,
    pub type_: TableType,
    pub qos: Option<QualityOfService>,
}

pub struct TlsView {
    pub ca: Option<Seq<char>>,
    pub cert: Option<Seq<char>>,
    pub key: Option<Seq<char>>,
}

pub struct ConfigView {
    pub url: Seq<char>,
    pub username: Option<Seq<char>>,
    pub password: Option<Seq<char>>,
    pub tls: Option<TlsView>,
    pub client_prefix: Option<Seq<char>>,
}

pub struct TableView {
    pub topic: Seq<char>,
    pub type_: TableType,
    pub qos: Option<QualityOfService>,
}

pub open spec fn var_view(o: Option<VarStr>) -> Option<Seq<char>> {
    match o {
        Some(v) => Some(v.raw@),
        None => None,
    }
}

impl View for Tls {
    type V = TlsView;

    open spec fn view(&self) -> TlsView {
        TlsView { ca: var_view(self.ca), cert: var_view(self.cert), key: var_view(self.key) }
    }
}

impl View for MqttConfig {
    type V = ConfigView;

    open spec fn view(&self) -> ConfigView {
        ConfigView {
            url: self.url@,
            username: var_view(self.username),
            password: var_view(self.password),
            tls: match self.tls {
                Some(t) => Some(t@),
                None => None,
            },
            client_prefix: opt_view(self.client_prefix),
        }
    }
}

impl View for MqttTable {
    type V = TableView;

    open spec fn view(&self) -> TableView {
        TableView { topic: self.topic@, type_: self.type_, qos: self.qos }
    }
}

impl VarStr {
    pub fn new(raw: String) -> (v: VarStr)
        ensures
            v.raw == raw,
    {
        VarStr { raw }
    }
}

fn var_of(o: Option<String>) -> (r: Option<VarStr>)
    ensures
        var_view(r) == opt_view(o),
{
    match o {
        Some(s) => Some(VarStr::new(s)),
        None => None,
    }
}

fn clone_var(o: &Option<VarStr>) -> (r: Option<VarStr>)
    ensures
        r == *o,
{
    match o {
        Some(v) => Some(VarStr { raw: v.raw.clone() }),
        None => None,
    }
}

impl Clone for MqttConfig {
    fn clone(&self) -> (r: Self)
        ensures
            r == *self,
    {
        MqttConfig {
            url: self.url.clone(),
            username: clone_var(&self.username),
            password: clone_var(&self.password),
            tls: match &self.tls {
                Some(t) => Some(
                    Tls { ca: clone_var(&t.ca), cert: clone_var(&t.cert), key: clone_var(&t.key) },
                ),
                None => None,
            },
            client_prefix: clone_opt(&self.client_prefix),
        }
    }
}

impl Clone for MqttTable {
    fn clone(&self) -> (r: Self)
        ensures
            r == *self,
    {
        MqttTable { topic: self.topic.clone(), type_: self.type_, qos: self.qos }
    }
}

/// The scheme of an absolute URL, where the text is one.
pub uninterp spec fn url_scheme_of(url: Seq<char>) -> Option<Seq<char>>;

/// Parses `url` with `url::Url::parse` and hands back what `Url::scheme` gives for it, or
/// nothing where the text is no absolute URL. The result depends on the text alone.
#[verifier::external_body]
fn url_scheme(url: &str) -> (r: Option<String>)
    ensures
        opt_view(r) == url_scheme_of(url@),
{
    url::Url::parse(url).ok().map(|u| u.scheme().to_owned())
}

/// The schemes under which the broker is reached over TLS.
pub open spec fn tls_scheme(scheme: Seq<char>) -> bool {
    scheme == "mqtts"@ || scheme == "ssl"@
}

/// The quality of service that a text names.
pub open spec fn qos_named(s: Seq<char>) -> Option<QualityOfService> {
    if s == "AtMostOnce"@ {
        Some(QualityOfService::AtMostOnce)
    } else if s == "AtLeastOnce"@ {
        Some(QualityOfService::AtLeastOnce)
    } else if s == "ExactlyOnce"@ {
        Some(QualityOfService::ExactlyOnce)
    } else {
        None
    }
}

/// The truth value that a text names.
pub open spec fn bool_named(s: Seq<char>) -> Option<bool> {
    if s == "true"@ {
        Some(true)
    } else if s == "false"@ {
        Some(false)
    } else {
        None
    }
}

/// The profile that the options describe, for a URL with the given scheme.
pub open spec fn profile_of(o: Map<Seq<char>, Seq<char>>, scheme: Seq<char>) -> ConfigView {
    ConfigView {
        url: o["url"@],
        username: lookup(o, "username"@),
        password: lookup(o, "password"@),
        tls: if tls_scheme(scheme) {
            Some(
                TlsView {
                    ca: lookup(o, "tls.ca"@),
                    cert: lookup(o, "tls.cert"@),
                    key: lookup(o, "tls.key"@),
                },
            )
        } else {
            None
        },
        client_prefix: lookup(o, "client_prefix"@),
    }
}

/// What `connection_from_options` makes of the options.
pub open spec fn connection_of(o: Map<Seq<char>, Seq<char>>) -> Result<ConfigView, MqttError> {
    if !o.contains_key("url"@) {
        Err(MqttError::MissingUrl)
    } else {
        match url_scheme_of(o["url"@]) {
            None => Err(MqttError::InvalidUrl),
            Some(scheme) => Ok(profile_of(o, scheme)),
        }
    }
}

/// The options that `connection_from_options` leaves.
pub open spec fn after_connection(o: Map<Seq<char>, Seq<char>>) -> Map<Seq<char>, Seq<char>> {
    if !o.contains_key("url"@) {
        o
    } else {
        let taken = o.remove("url"@).remove("username"@).remove("password"@).remove(
            "tls.ca"@,
        ).remove("tls.cert"@).remove("tls.key"@);
        if url_scheme_of(o["url"@]) is None {
            taken
        } else {
            taken.remove("client_prefix"@)
        }
    }
}

/// The role that the options name, once `type` is known to be there.
pub open spec fn role_of(o: Map<Seq<char>, Seq<char>>) -> Result<TableType, MqttError> {
    if o["type"@] == "source"@ {
        Ok(TableType::Source)
    } else if o["type"@] == "sink"@ {
        match lookup(o, "sink.retain"@) {
            None => Ok(TableType::Sink { retain: false }),
            Some(s) => match bool_named(s) {
                Some(retain) => Ok(TableType::Sink { retain }),
                None => Err(MqttError::InvalidRetain),
            },
        }
    } else {
        Err(MqttError::InvalidType)
    }
}

/// What `table_from_options` makes of the options.
pub open spec fn table_of(o: Map<Seq<char>, Seq<char>>) -> Result<TableView, MqttError> {
    if !o.contains_key("type"@) {
        Err(MqttError::MissingType)
    } else if o.contains_key("qos"@) && qos_named(o["qos"@]) is None {
        Err(MqttError::InvalidQos)
    } else {
        match role_of(o) {
            Err(e) => Err(e),
            Ok(type_) => if !o.contains_key("topic"@) {
                Err(MqttError::MissingTopic)
            } else {
                Ok(
                    TableView {
                        topic: o["topic"@],
                        type_,
                        qos: match lookup(o, "qos"@) {
                            Some(s) => qos_named(s),
                            None => None,
                        },
                    },
                )
            },
        }
    }
}

/// The options that `table_from_options` leaves.
pub open spec fn after_table(o: Map<Seq<char>, Seq<char>>) -> Map<Seq<char>, Seq<char>> {
    if !o.contains_key("type"@) {
        o
    } else {
        let taken = o.remove("type"@).remove("qos"@);
        if o.contains_key("qos"@) && qos_named(o["qos"@]) is None {
            taken
        } else if o["type"@] == "source"@ {
            taken.remove("topic"@)
        } else if o["type"@] == "sink"@ {
            if role_of(o) is Err {
                taken.remove("sink.retain"@)
            } else {
                taken.remove("sink.retain"@).remove("topic"@)
            }
        } else {
            taken
        }
    }
}

/// The keys of the connection options are seven different texts.
proof fn lemma_connection_keys()
    ensures
        "url"@.len() == 3,
        "tls.ca"@.len() == 6,
        "tls.key"@.len() == 7,
        "client_prefix"@.len() == 13,
        "username"@.len() == 8 && "username"@[0] == 'u',
        "password"@.len() == 8 && "password"@[0] == 'p',
        "tls.cert"@.len() == 8 && "tls.cert"@[0] == 't',
{
    reveal_strlit("url");
    reveal_strlit("username");
    reveal_strlit("password");
    reveal_strlit("tls.ca");
    reveal_strlit("tls.cert");
    reveal_strlit("tls.key");
    reveal_strlit("client_prefix");
}

/// The keys of the table options are four different texts.
proof fn lemma_table_keys()
    ensures
        "qos"@.len() == 3,
        "type"@.len() == 4,
        "topic"@.len() == 5,
        "sink.retain"@.len() == 11,
{
    reveal_strlit("type");
    reveal_strlit("qos");
    reveal_strlit("sink.retain");
    reveal_strlit("topic");
}

pub fn parse_qos(s: &str) -> (r: Option<QualityOfService>)
    ensures
        r == qos_named(s@),
{
    if str_eq(s, "AtMostOnce") {
        Some(QualityOfService::AtMostOnce)
    } else if str_eq(s, "AtLeastOnce") {
        Some(QualityOfService::AtLeastOnce)
    } else if str_eq(s, "ExactlyOnce") {
        Some(QualityOfService::ExactlyOnce)
    } else {
        None
    }
}

pub fn parse_bool(s: &str) -> (r: Option<bool>)
    ensures
        r == bool_named(s@),
{
    if str_eq(s, "true") {
        Some(true)
    } else if str_eq(s, "false") {
        Some(false)
    } else {
        None
    }
}

pub fn uses_tls(scheme: &str) -> (b: bool)
    ensures
        b == tls_scheme(scheme@),
{
    str_eq(scheme, "mqtts") || str_eq(scheme, "ssl")
}

/// The options that configure a connection, taken out of the option map.
pub struct ConnectionParts {
    pub url: String,
    pub username: Option<String>,
    pub password: Option<String>,
    pub ca: Option<String>,
    pub cert: Option<String>,
    pub key: Option<String>,
}

pub struct MqttConnector {}

impl MqttConnector {
    /// The profile for a URL whose scheme is `scheme`: TLS material is kept only where the
    /// scheme asks for TLS.
    pub fn connection_with_scheme(
        parts: ConnectionParts,
        scheme: &str,
        client_prefix: Option<String>,
    ) -> (config: MqttConfig)
        ensures
            config@ == (ConfigView {
                url: parts.url@,
                username: opt_view(parts.username),
                password: opt_view(parts.password),
                tls: if tls_scheme(scheme@) {
                    Some(
                        TlsView {
                            ca: opt_view(parts.ca),
                            cert: opt_view(parts.cert),
                            key: opt_view(parts.key),
                        },
                    )
                } else {
                    None
                },
                client_prefix: opt_view(client_prefix),
            }),
    {
        let ca = var_of(parts.ca);
        let cert = var_of(parts.cert);
        let key = var_of(parts.key);
        let tls = if uses_tls(scheme) {
            Some(Tls { ca, cert, key })
        } else {
            None
        };
        MqttConfig {
            url: parts.url,
            username: var_of(parts.username),
            password: var_of(parts.password),
            tls,
            client_prefix,
        }
    }

    /// Reads the connection profile out of the options, taking out the keys it uses.
    pub fn connection_from_options(options: &mut ConnectorOptions) -> (r: Result<
        MqttConfig,
        MqttError,
    >)
        ensures
            match r {
                Ok(config) => connection_of(old(options)@) == Ok::<ConfigView, MqttError>(config@),
                Err(e) => connection_of(old(options)@) == Err::<ConfigView, MqttError>(e),
            },
            final(options)@ == after_connection(old(options)@),
    {
        let url = match options.remove("url") {
            Some(url) => url,
            None => {
                assert(options@ =~= old(options)@);
                return Err(MqttError::MissingUrl);
            },
        };
        let username = options.remove("username");
        let password = options.remove("password");
        let ca = options.remove("tls.ca");
        let cert = options.remove("tls.cert");
        let key = options.remove("tls.key");
        proof {
            lemma_connection_keys();
        }
        let scheme = match url_scheme(url.as_str()) {
            Some(scheme) => scheme,
            None => {
                return Err(MqttError::InvalidUrl);
            },
        };
        let client_prefix = options.remove("client_prefix");
        let parts = ConnectionParts { url, username, password, ca, cert, key };
        Ok(Self::connection_with_scheme(parts, scheme.as_str(), client_prefix))
    }

    /// Reads the table descriptor out of the options, taking out the keys it uses.
    pub fn table_from_options(options: &mut ConnectorOptions) -> (r: Result<MqttTable, MqttError>)
        ensures
            match r {
                Ok(table) => table_of(old(options)@) == Ok::<TableView, MqttError>(table@),
                Err(e) => table_of(old(options)@) == Err::<TableView, MqttError>(e),
            },
            final(options)@ == after_table(old(options)@),
    {
        proof {
            lemma_table_keys();
        }
        let typ = match options.remove("type") {
            Some(typ) => typ,
            None => {
                assert(options@ =~= old(options)@);
                return Err(MqttError::MissingType);
            },
        };
        let qos = match options.remove("qos") {
            Some(s) => match parse_qos(s.as_str()) {
                Some(q) => Some(q),
                None => {
                    return Err(MqttError::InvalidQos);
                },
            },
            None => None,
        };
        let type_ = if str_eq(typ.as_str(), "source") {
            TableType::Source
        } else if str_eq(typ.as_str(), "sink") {
            let retain = match options.remove("sink.retain") {
                Some(s) => match parse_bool(s.as_str()) {
                    Some(b) => b,
                    None => {
                        return Err(MqttError::InvalidRetain);
                    },
                },
                None => false,
            };
            TableType::Sink { retain }
        } else {
            return Err(MqttError::InvalidType);
        };
        let topic = match options.remove("topic") {
            Some(topic) => topic,
            None => {
                assert(options@ =~= after_table(old(options)@));
                return Err(MqttError::MissingTopic);
            },
        };
        Ok(MqttTable { topic, type_, qos })
    }
}

} // verus!

verus! {

/// The schema of a connection: the fields of its records and the name of their type where
/// one is declared, and how the records are encoded: the format, what to do with bad
/// records, and the framing.
#[derive(Debug)]
pub struct ConnectionSchema {
    pub format: Option<String>,
    pub bad_data: Option<String>,
    pub framing: Option<String>,
    pub struct_name: Option<String>,
    pub fields: Vec<StructField>,
}

/// What a `ConnectionSchema` holds, as mathematical values.
pub struct SchemaView {
    pub format: Option<Seq<char>>,
    pub bad_data: Option<Seq<char>>,
    pub framing: Option<Seq<char>>,
    pub struct_name: Option<Seq<char>>,
    pub fields: Seq<FieldView>,
}

impl View for ConnectionSchema {
    type V = SchemaView;

    open spec fn view(&self) -> SchemaView {
        SchemaView {
            format: opt_view(self.format),
            bad_data: opt_view(self.bad_data),
            framing: opt_view(self.framing),
            struct_name: opt_view(self.struct_name),
            fields: fields_view(self.fields@),
        }
    }
}

impl Clone for ConnectionSchema {
    fn clone(&self) -> (r: Self)
        ensures
            r@ == self@,
            r.format == self.format,
            r.bad_data == self.bad_data,
            r.framing == self.framing,
            r.struct_name == self.struct_name,
            r.fields@ == self.fields@,
    {
        ConnectionSchema {
            format: clone_opt(&self.format),
            bad_data: clone_opt(&self.bad_data),
            framing: clone_opt(&self.framing),
            struct_name: clone_opt(&self.struct_name),
            fields: clone_fields(&self.fields),
        }
    }
}

/// The configuration the operator is started with.
#[derive(Debug)]
pub struct OperatorConfig {
    pub connection: MqttConfig,
    pub table: MqttTable,
    pub format: String,
    pub bad_data: Option<String>,
    pub framing: Option<String>,
}

/// A configured connection: a table on a broker, ready to be put into a catalog.
#[derive(Debug)]
pub struct Connection {
    pub id: Option<i64>,
    pub name: String,
    pub connection_type: ConnectorType,
    pub schema: ConnectionSchema,
    pub operator: String,
    pub config: OperatorConfig,
    pub description: String,
}

/// What the registry of connectors shows of this connector.
#[derive(Debug)]
pub struct ConnectorMetadata {
    pub id: String,
    pub name: String,
    pub icon: String,
    pub description: String,
    pub enabled: bool,
    pub source: bool,
    pub sink: bool,
    pub testing: bool,
    pub hidden: bool,
    pub custom_schemas: bool,
    pub connection_config: Option<String>,
    pub table_config: String,
}

/// The role of a table.
pub open spec fn role(type_: TableType) -> ConnectorType {
    match type_ {
        TableType::Source => ConnectorType::Source,
        TableType::Sink { .. } => ConnectorType::Sink,
    }
}

/// The operator that runs a table of the given role.
pub open spec fn operator_of(type_: TableType) -> Seq<char> {
    match type_ {
        TableType::Source => "connectors::mqtt::source::MqttSourceFunc"@,
        TableType::Sink { .. } => "connectors::mqtt::sink::MqttSinkFunc::<#in_k, #in_t>"@,
    }
}

/// The description of a table: its role and, in angle brackets, its topic.
pub open spec fn description_of(type_: TableType, topic: Seq<char>) -> Seq<char> {
    match type_ {
        TableType::Source => "MqttSource<"@ + topic + ">"@,
        TableType::Sink { .. } => "MqttSink<"@ + topic + ">"@,
    }
}

impl MqttConnector {
    pub fn name(&self) -> (n: &'static str)
        ensures
            n@ == "mqtt"@,
    {
        "mqtt"
    }

    /// What the registry shows: the connector reads and writes, can be tested, and takes
    /// schemas of the user's own.
    pub fn metadata(&self, icon: String, connection_config: String, table_config: String) -> (m:
        ConnectorMetadata)
        ensures
            m.id@ == "mqtt"@,
            m.name@ == "Mqtt"@,
            m.icon == icon,
            m.description@ == "Read and write from a mqtt cluster"@,
            m.enabled && m.source && m.sink && m.testing && !m.hidden && m.custom_schemas,
            m.connection_config == Some(connection_config),
            m.table_config == table_config,
    {
        ConnectorMetadata {
            id: "mqtt".to_owned(),
            name: "Mqtt".to_owned(),
            icon,
            description: "Read and write from a mqtt cluster".to_owned(),
            enabled: true,
            source: true,
            sink: true,
            testing: true,
            hidden: false,
            custom_schemas: true,
            connection_config: Some(connection_config),
            table_config,
        }
    }

    pub fn config_description(&self, config: &MqttConfig) -> (d: String)
        ensures
            d@ == config@.url,
    {
        config.url.clone()
    }

    pub fn table_type(&self, table: &MqttTable) -> (t: ConnectorType)
        ensures
            t == role(table.type_),
    {
        match table.type_ {
            TableType::Source => ConnectorType::Source,
            TableType::Sink { .. } => ConnectorType::Sink,
        }
    }

    /// Puts profile, table and schema together. The schema must be there and name a format.
    pub fn from_config(
        &self,
        id: Option<i64>,
        name: &str,
        config: MqttConfig,
        table: MqttTable,
        schema: Option<&ConnectionSchema>,
    ) -> (r: Result<Connection, MqttError>)
        ensures
            match r {
                Ok(c) => {
                    &&& schema matches Some(s)
                    &&& s.format matches Some(format)
                    &&& c.id == id
                    &&& c.name@ == name@
                    &&& c.schema@ == s@
                    &&& c.schema.fields@ == s.fields@
                    &&& c.connection_type == role(table.type_)
                    &&& c.operator@ == operator_of(table.type_)
                    &&& c.description@ == description_of(table.type_, table.topic@)
                    &&& c.config.connection == config
                    &&& c.config.table == table
                    &&& c.config.format == format
                    &&& c.config.bad_data == s.bad_data
                    &&& c.config.framing == s.framing
                },
                Err(e) => match schema {
                    None => e == MqttError::NoSchema,
                    Some(s) => s.format is None && e == MqttError::NoFormat,
                },
            },
    {
        let (connection_type, operator, prefix) = match table.type_ {
            TableType::Source => (
                ConnectorType::Source,
                "connectors::mqtt::source::MqttSourceFunc",
                "MqttSource<",
            ),
            TableType::Sink { .. } => (
                ConnectorType::Sink,
                "connectors::mqtt::sink::MqttSinkFunc::<#in_k, #in_t>",
                "MqttSink<",
            ),
        };
        let description = prefix.to_owned().concat(table.topic.as_str()).concat(">");
        let schema = match schema {
            Some(s) => s,
            None => {
                return Err(MqttError::NoSchema);
            },
        };
        let format = match &schema.format {
            Some(f) => f.clone(),
            None => {
                return Err(MqttError::NoFormat);
            },
        };
        let config = OperatorConfig {
            connection: config,
            table,
            format,
            bad_data: clone_opt(&schema.bad_data),
            framing: clone_opt(&schema.framing),
        };
        Ok(
            Connection {
                id,
                name: name.to_owned(),
                connection_type,
                schema: schema.clone(),
                operator: operator.to_owned(),
                config,
                description,
            },
        )
    }

    /// Reads profile and table out of the options and puts them together with the schema.
    /// A stored profile, where there is one, takes the place of the connection options.
    pub fn from_options(
        &self,
        name: &str,
        options: &mut ConnectorOptions,
        schema: Option<&ConnectionSchema>,
        profile: Option<MqttConfig>,
    ) -> (r: Result<Connection, MqttError>)
        ensures
            ({
                let with_profile = profile is Some;
                let before_table = if with_profile {
                    old(options)@
                } else {
                    after_connection(old(options)@)
                };
                let connection = if with_profile {
                    Ok::<ConfigView, MqttError>(profile->0@)
                } else {
                    connection_of(old(options)@)
                };
                match connection {
                    Err(e) => r == Err::<Connection, MqttError>(e) && final(options)@
                        == before_table,
                    Ok(config) => {
                        &&& final(options)@ == after_table(before_table)
                        &&& match table_of(before_table) {
                            Err(e) => r == Err::<Connection, MqttError>(e),
                            Ok(table) => match r {
                                Ok(c) => {
                                    &&& schema matches Some(s)
                                    &&& s.format matches Some(format)
                                    &&& c.id is None
                                    &&& c.name@ == name@
                                    &&& c.schema@ == s@
                                    &&& c.schema.fields@ == s.fields@
                                    &&& c.connection_type == role(table.type_)
                                    &&& c.operator@ == operator_of(table.type_)
                                    &&& c.description@ == description_of(table.type_, table.topic)
                                    &&& c.config.connection@ == config
                                    &&& c.config.table@ == table
                                    &&& c.config.format == format
                                    &&& c.config.bad_data == s.bad_data
                                    &&& c.config.framing == s.framing
                                },
                                Err(e) => match schema {
                                    None => e == MqttError::NoSchema,
                                    Some(s) => s.format is None && e == MqttError::NoFormat,
                                },
                            },
                        }
                    },
                }
            }),
    {
        let connection = match profile {
            Some(p) => p,
            None => match Self::connection_from_options(options) {
                Ok(c) => c,
                Err(e) => {
                    return Err(e);
                },
            },
        };
        let table = match Self::table_from_options(options) {
            Ok(t) => t,
            Err(e) => {
                return Err(e);
            },
        };
        self.from_config(None, name, connection, table, schema)
    }
}

/// What the broker's event loop reports while a connection is probed.
#[derive(Clone, Copy, Debug, PartialEq, Eq, Structural)]
pub enum ProbeEvent {
    /// A message arrived; `text` says whether its payload is valid UTF-8.
    IncomingPublish { text: bool },
    /// A message of the probe's own left.
    OutgoingPublish,
    /// Either side closed the connection.
    Disconnect,
    /// The event loop failed.
    Failure,
    /// Anything else.
    Other,
}

/// What the probe does after an event.
#[derive(Clone, Copy, Debug, PartialEq, Eq, Structural)]
pub enum ProbeStep {
    Continue,
    Subscribed,
    Published,
    BadPayload,
    Disconnected,
    ReadFailed,
}

/// What the probe sends before it listens.
#[derive(Debug)]
pub struct ProbePlan {
    pub topic: String,
    pub qos: QualityOfService,
    pub retain: bool,
    /// Whether the probe subscribes to the topic first and then waits for its own message.
    pub subscribe: bool,
}

/// The step after an event: a source probe ends with the first message that arrives, any
/// other with the first message that leaves; a closed connection or a failed loop ends both.
pub open spec fn step_after(waiting: bool, event: ProbeEvent) -> ProbeStep {
    match event {
        ProbeEvent::IncomingPublish { text } => if text {
            ProbeStep::Subscribed
        } else {
            ProbeStep::BadPayload
        },
        ProbeEvent::OutgoingPublish => if waiting {
            ProbeStep::Continue
        } else {
            ProbeStep::Published
        },
        ProbeEvent::Disconnect => ProbeStep::Disconnected,
        ProbeEvent::Failure => ProbeStep::ReadFailed,
        ProbeEvent::Other => ProbeStep::Continue,
    }
}

pub fn probe_step(waiting: bool, event: ProbeEvent) -> (s: ProbeStep)
    ensures
        s == step_after(waiting, event),
{
    match event {
        ProbeEvent::IncomingPublish { text } => if text {
            ProbeStep::Subscribed
        } else {
            ProbeStep::BadPayload
        },
        ProbeEvent::OutgoingPublish => if waiting {
            ProbeStep::Continue
        } else {
            ProbeStep::Published
        },
        ProbeEvent::Disconnect => ProbeStep::Disconnected,
        ProbeEvent::Failure => ProbeStep::ReadFailed,
        ProbeEvent::Other => ProbeStep::Continue,
    }
}

/// What to send for a table, or for a bare profile: a sink is published to with its own
/// retain flag, a source is subscribed to and then published to, and a bare profile gets one
/// message on the topic `test-arroyo`. Without a quality of service, at most once.
pub fn probe_plan(table: Option<&MqttTable>) -> (p: ProbePlan)
    ensures
        match table {
            None => p.topic@ == "test-arroyo"@ && p.qos == QualityOfService::AtMostOnce
                && !p.retain && !p.subscribe,
            Some(t) => {
                &&& p.topic@ == t.topic@
                &&& p.qos == match t.qos {
                    Some(q) => q,
                    None => QualityOfService::AtMostOnce,
                }
                &&& match t.type_ {
                    TableType::Sink { retain } => p.retain == retain && !p.subscribe,
                    TableType::Source => !p.retain && p.subscribe,
                }
            },
        },
{
    match table {
        None => ProbePlan {
            topic: "test-arroyo".to_owned(),
            qos: QualityOfService::AtMostOnce,
            retain: false,
            subscribe: false,
        },
        Some(t) => {
            let qos = match t.qos {
                Some(q) => q,
                None => QualityOfService::AtMostOnce,
            };
            match t.type_ {
                TableType::Sink { retain } => ProbePlan {
                    topic: t.topic.clone(),
                    qos,
                    retain,
                    subscribe: false,
                },
                TableType::Source => ProbePlan {
                    topic: t.topic.clone(),
                    qos,
                    retain: false,
                    subscribe: true,
                },
            }
        },
    }
}

} // verus!
