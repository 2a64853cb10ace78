//! The catalog: the tables and functions that names resolve to while one query is compiled.

use vstd::prelude::*;
use vstd::hash_map::StringHashMap;
use crate::error::{failure, ErrorKind, Failure, SqlError};
use crate::mqtt::Connection;
use crate::resolve::{resolve_plan, resolved_fields};
use crate::tables::{
    AggregateFunction, ConnectorTable, ConnectorType, ScalarFunction, SerializationMode, SqlType,
    Table, UdfDef,
};
use crate::text::str_eq;
use crate::types::{clone_fields, fields_view, FieldView, PrimitiveKind, StructField, TypeDef};

verus! {

/// The names of the functions every catalog starts with.
pub open spec fn built_in(name: Seq<char>) -> bool {
    name == "hop"@ || name == "tumble"@ || name == "get_first_json_object"@ || name
        == "get_json_objects"@ || name == "extract_json_string"@
}

/// The argument types of a built-in function.
pub open spec fn built_in_args(name: Seq<char>) -> Seq<SqlType> {
    if name == "hop"@ {
        seq![SqlType::Interval, SqlType::Interval]
    } else if name == "tumble"@ {
        seq![SqlType::Interval]
    } else {
        seq![SqlType::Primitive(PrimitiveKind::Utf8), SqlType::Primitive(PrimitiveKind::Utf8)]
    }
}

/// The result type of a built-in function.
pub open spec fn built_in_return(name: Seq<char>) -> SqlType {
    if name == "hop"@ || name == "tumble"@ {
        SqlType::Window
    } else if name == "get_json_objects"@ {
        SqlType::List(PrimitiveKind::Utf8)
    } else {
        SqlType::Primitive(PrimitiveKind::Utf8)
    }
}

/// Whether `f` is the built-in function of that name.
pub open spec fn is_built_in(f: ScalarFunction, name: Seq<char>) -> bool {
    &&& f.name@ == name
    &&& f.args@ == built_in_args(name)
    &&& f.return_type == built_in_return(name)
    &&& f.return_nullable == (f.return_type != SqlType::Window)
    &&& f.built_in
}

/// The built-in names are five different texts.
pub proof fn lemma_built_in_names()
    ensures
        "hop"@.len() == 3,
        "tumble"@.len() == 6,
        "get_first_json_object"@.len() == 21,
        "get_json_objects"@.len() == 16,
        "extract_json_string"@.len() == 19,
{
    reveal_strlit("hop");
    reveal_strlit("tumble");
    reveal_strlit("get_first_json_object");
    reveal_strlit("get_json_objects");
    reveal_strlit("extract_json_string");
}

/// The tables, functions and connections known while one query is compiled.
pub struct ArroyoSchemaProvider {
    pub source_defs: StringHashMap<String>,
    pub tables: StringHashMap<Table>,
    pub functions: StringHashMap<ScalarFunction>,
    pub connections: StringHashMap<Connection>,
    pub udf_defs: StringHashMap<UdfDef>,
}

fn utf8() -> (t: SqlType)
    ensures
        t == SqlType::Primitive(PrimitiveKind::Utf8),
{
    SqlType::Primitive(PrimitiveKind::Utf8)
}

impl ArroyoSchemaProvider {
    /// The built-in functions are in place, as they were at the start.
    pub open spec fn wf(&self) -> bool {
        forall|k: Seq<char>|
            built_in(k) ==> #[trigger] self.functions@.contains_key(k) && is_built_in(
                self.functions@[k],
                k,
            )
    }

    /// A catalog without tables, with the built-in functions: the two window constructors
    /// and the three JSON helpers.
    pub fn new() -> (c: ArroyoSchemaProvider)
        ensures
            c.wf(),
            c.tables@ == Map::<Seq<char>, Table>::empty(),
            forall|k: Seq<char>| c.functions@.contains_key(k) <==> built_in(k),
            c.connections@ == Map::<Seq<char>, Connection>::empty(),
            c.udf_defs@ == Map::<Seq<char>, UdfDef>::empty(),
            c.source_defs@ == Map::<Seq<char>, String>::empty(),
    {
        let mut functions: StringHashMap<ScalarFunction> = StringHashMap::new();
        proof {
            lemma_built_in_names();
        }
        functions.insert(
            "hop".to_owned(),
            ScalarFunction {
                name: "hop".to_owned(),
                args: vec![SqlType::Interval, SqlType::Interval],
                return_type: SqlType::Window,
                return_nullable: false,
                built_in: true,
            },
        );
        functions.insert(
            "tumble".to_owned(),
            ScalarFunction {
                name: "tumble".to_owned(),
                args: vec![SqlType::Interval],
                return_type: SqlType::Window,
                return_nullable: false,
                built_in: true,
            },
        );
        functions.insert(
            "get_first_json_object".to_owned(),
            ScalarFunction {
                name: "get_first_json_object".to_owned(),
                args: vec![utf8(), utf8()],
                return_type: utf8(),
                return_nullable: true,
                built_in: true,
            },
        );
        functions.insert(
            "get_json_objects".to_owned(),
            ScalarFunction {
                name: "get_json_objects".to_owned(),
                args: vec![utf8(), utf8()],
                return_type: SqlType::List(PrimitiveKind::Utf8),
                return_nullable: true,
                built_in: true,
            },
        );
        functions.insert(
            "extract_json_string".to_owned(),
            ScalarFunction {
                name: "extract_json_string".to_owned(),
                args: vec![utf8(), utf8()],
                return_type: utf8(),
                return_nullable: true,
                built_in: true,
            },
        );
        let c = ArroyoSchemaProvider {
            tables: StringHashMap::new(),
            functions,
            source_defs: StringHashMap::new(),
            connections: StringHashMap::new(),
            udf_defs: StringHashMap::new(),
        };
        proof {
            assert forall|k: Seq<char>| built_in(k) implies #[trigger] c.functions@.contains_key(k)
                && is_built_in(c.functions@[k], k) by {
                assert(c.functions@[k].args@ =~= built_in_args(k));
            }
        }
        c
    }

    /// Keeps the connection under its name, in place of an earlier one of that name.
    pub fn add_connection(&mut self, connection: Connection)
        ensures
            final(self).connections@ == old(self).connections@.insert(
                connection.name@,
                connection,
            ),
            final(self).tables == old(self).tables,
            final(self).functions == old(self).functions,
            final(self).udf_defs == old(self).udf_defs,
            final(self).source_defs == old(self).source_defs,
    {
        self.connections.insert(connection.name.clone(), connection);
    }

    /// Puts a connector table into the catalog, in place of any table of that name.
    pub fn add_connector_table(
        &mut self,
        id: i64,
        name: String,
        connector_type: ConnectorType,
        fields: Vec<StructField>,
        struct_name: Option<String>,
        operator: String,
        config: String,
        description: String,
        serialization_mode: SerializationMode,
    )
        ensures
            final(self).tables@ == old(self).tables@.insert(
                name@,
                Table::ConnectorTable(
                    ConnectorTable {
                        id: Some(id),
                        name,
                        connector_type,
                        fields,
                        struct_name,
                        operator,
                        config,
                        description,
                        serialization_mode,
                        event_time_field: None,
                        watermark_field: None,
                    },
                ),
            ),
            final(self).functions == old(self).functions,
            final(self).connections == old(self).connections,
            final(self).udf_defs == old(self).udf_defs,
            final(self).source_defs == old(self).source_defs,
    {
        self.tables.insert(
            name.clone(),
            Table::ConnectorTable(
                ConnectorTable {
                    id: Some(id),
                    name,
                    connector_type,
                    fields,
                    struct_name,
                    operator,
                    config,
                    description,
                    serialization_mode,
                    event_time_field: None,
                    watermark_field: None,
                },
            ),
        );
    }

    /// Puts a named table into the catalog, in place of any table of that name. A table
    /// without a name is dropped.
    pub fn insert_table(&mut self, table: Table)
        ensures
            final(self).tables@ == match table.name_view() {
                Some(name) => old(self).tables@.insert(name, table),
                None => old(self).tables@,
            },
            final(self).functions == old(self).functions,
            final(self).connections == old(self).connections,
            final(self).udf_defs == old(self).udf_defs,
            final(self).source_defs == old(self).source_defs,
    {
        match table.name() {
            Some(name) => {
                self.tables.insert(name, table);
            },
            None => {},
        }
    }

    /// Keeps the definitions that go with a source.
    pub fn add_defs(&mut self, source: String, defs: String)
        ensures
            final(self).source_defs@ == old(self).source_defs@.insert(source@, defs),
            final(self).tables == old(self).tables,
            final(self).functions == old(self).functions,
            final(self).connections == old(self).connections,
            final(self).udf_defs == old(self).udf_defs,
    {
        self.source_defs.insert(source, defs);
    }

    pub fn get_table(&self, table_name: &str) -> (t: Option<&Table>)
        ensures
            match t {
                Some(table) => self.tables@.contains_key(table_name@) && *table
                    == self.tables@[table_name@],
                None => !self.tables@.contains_key(table_name@),
            },
    {
        self.tables.get(table_name)
    }

    /// The scalar function of that name. That there is none is no error: the name is then
    /// not a function call.
    pub fn get_function_meta(&self, name: &str) -> (f: Option<&ScalarFunction>)
        ensures
            match f {
                Some(function) => self.functions@.contains_key(name@) && *function
                    == self.functions@[name@],
                None => !self.functions@.contains_key(name@),
            },
    {
        self.functions.get(name)
    }

    /// The aggregate function of that name: there is one, `lexographic_max`, of one to
    /// four arguments.
    pub fn get_aggregate_meta(&self, name: &str) -> (f: Option<AggregateFunction>)
        ensures
            match f {
                Some(function) => name@ == "lexographic_max"@ && function.name@ == name@
                    && function.min_args == 1 && function.max_args == 4,
                None => name@ != "lexographic_max"@,
            },
    {
        if str_eq(name, "lexographic_max") {
            Some(AggregateFunction { name: name.to_owned(), min_args: 1, max_args: 4 })
        } else {
            None
        }
    }

    /// Queries have no variables, so no variable has a type.
    pub fn get_variable_type(&self, variable_names: &Vec<String>) -> (t: Option<TypeDef>)
        ensures
            t is None,
    {
        None
    }
}

impl ArroyoSchemaProvider {
    /// The connection kept under that name.
    pub fn get_connection(&self, name: &str) -> (c: Option<&Connection>)
        ensures
            match c {
                Some(connection) => self.connections@.contains_key(name@) && *connection
                    == self.connections@[name@],
                None => !self.connections@.contains_key(name@),
            },
    {
        self.connections.get(name)
    }

    /// The definition of the user function of that name.
    pub fn get_udf(&self, name: &str) -> (u: Option<&UdfDef>)
        ensures
            match u {
                Some(def) => self.udf_defs@.contains_key(name@) && *def == self.udf_defs@[name@],
                None => !self.udf_defs@.contains_key(name@),
            },
    {
        self.udf_defs.get(name)
    }

    /// The definitions kept for a source.
    pub fn get_defs(&self, source: &str) -> (d: Option<&String>)
        ensures
            match d {
                Some(defs) => self.source_defs@.contains_key(source@) && *defs
                    == self.source_defs@[source@],
                None => !self.source_defs@.contains_key(source@),
            },
    {
        self.source_defs.get(source)
    }
}

/// The name of field `i` of what `lexographic_max` gives: an underscore and the position.
pub open spec fn positional_name(i: nat) -> Seq<char> {
    "_"@ + crate::text::decimal_text(i)
}

/// The record that `lexographic_max` gives for arguments of the given types: one field
/// for each argument, named by its position, of the argument's kind and never NULL.
pub fn lexographic_max_return_type(input_types: &Vec<TypeDef>) -> (fields: Vec<StructField>)
    ensures
        fields@.len() == input_types@.len(),
        forall|i: int|
            0 <= i < fields@.len() ==> (#[trigger] fields@[i])@ == (FieldView {
                name: positional_name(i as nat),
                alias: None,
                data_type: TypeDef { kind: input_types@[i].kind, nullable: false },
            }),
{
    let mut fields: Vec<StructField> = Vec::new();
    let mut i: usize = 0;
    while i < input_types.len()
        invariant
            i <= input_types.len(),
            fields@.len() == i,
            forall|j: int|
                0 <= j < i ==> (#[trigger] fields@[j])@ == (FieldView {
                    name: positional_name(j as nat),
                    alias: None,
                    data_type: TypeDef { kind: input_types@[j].kind, nullable: false },
                }),
        decreases input_types.len() - i,
    {
        let name = "_".to_owned().concat(crate::text::decimal(i).as_str());
        fields.push(
            StructField {
                name,
                alias: None,
                data_type: TypeDef { kind: input_types[i].kind, nullable: false },
            },
        );
        i += 1;
    }
    fields
}

impl ArroyoSchemaProvider {
    /// How deep views are looked through: as deep as the catalog has tables, so that no
    /// chain of views that ends is cut short, and 64 views deep at the least.
    pub fn view_depth(&self) -> (d: usize)
        ensures
            d == crate::tables::view_depth(self.tables@),
    {
        let n = self.tables.len();
        if n > 64 {
            n
        } else {
            64
        }
    }

    /// Whether the built-in functions are in place.
    pub fn is_well_formed(&self) -> (b: bool)
        ensures
            b == self.wf(),
    {
        let one = vec![SqlType::Interval];
        let two = vec![SqlType::Interval, SqlType::Interval];
        let texts = vec![utf8(), utf8()];
        proof {
            lemma_built_in_names();
            assert(one@ =~= built_in_args("tumble"@));
            assert(two@ =~= built_in_args("hop"@));
            assert(texts@ =~= built_in_args("get_first_json_object"@));
            assert(texts@ =~= built_in_args("get_json_objects"@));
            assert(texts@ =~= built_in_args("extract_json_string"@));
        }
        let hop = self.has_built_in("hop", &two, SqlType::Window);
        let tumble = self.has_built_in("tumble", &one, SqlType::Window);
        let first = self.has_built_in("get_first_json_object", &texts, utf8());
        let all = self.has_built_in("get_json_objects", &texts, SqlType::List(PrimitiveKind::Utf8));
        let extract = self.has_built_in("extract_json_string", &texts, utf8());
        proof {
            if self.wf() {
                assert(self.functions@.contains_key("hop"@));
                assert(self.functions@.contains_key("tumble"@));
                assert(self.functions@.contains_key("get_first_json_object"@));
                assert(self.functions@.contains_key("get_json_objects"@));
                assert(self.functions@.contains_key("extract_json_string"@));
            }
        }
        hop && tumble && first && all && extract
    }

    /// Whether the function of that name is there, built in, with these types.
    #[verifier::loop_isolation(false)]
    fn has_built_in(&self, name: &str, args: &Vec<SqlType>, return_type: SqlType) -> (b: bool)
        ensures
            b == (self.functions@.contains_key(name@) && {
                let f = self.functions@[name@];
                &&& f.name@ == name@
                &&& f.args@ == args@
                &&& f.return_type == return_type
                &&& f.return_nullable == (return_type != SqlType::Window)
                &&& f.built_in
            }),
    {
        let f = match self.functions.get(name) {
            Some(f) => f,
            None => {
                return false;
            },
        };
        if !str_eq(f.name.as_str(), name) || f.return_type != return_type || !f.built_in
            || f.return_nullable != (return_type != SqlType::Window) || f.args.len() != args.len() {
            return false;
        }
        let mut i: usize = 0;
        while i < args.len()
            invariant
                i <= args.len(),
                f.args.len() == args.len(),
                forall|j: int| 0 <= j < i ==> #[trigger] f.args@[j] == args@[j],
            decreases args.len() - i,
        {
            if f.args[i] != args[i] {
                assert(f.args@[i as int] != args@[i as int]);
                return false;
            }
            i += 1;
        }
        assert(f.args@ =~= args@);
        true
    }

    /// The fields of the table of that name: those a connector table declares, or those
    /// the plan of a query resolves to.
    pub fn get_table_provider(&self, name: &str) -> (r: Result<Vec<StructField>, SqlError>)
        ensures
            match r {
                Ok(fields) => self.tables@.contains_key(name@) && table_fields(
                    self.tables@,
                    self.functions@,
                    self.tables@[name@],
                ) == Ok::<Seq<FieldView>, Failure>(fields_view(fields@)),
                Err(e) => if self.tables@.contains_key(name@) {
                    table_fields(self.tables@, self.functions@, self.tables@[name@]) is Err
                        && e@ == failure(ErrorKind::PlanError, name@)
                } else {
                    e@ == failure(ErrorKind::TableNotFound, name@)
                },
            },
    {
        let table = match self.get_table(name) {
            Some(t) => t,
            None => {
                return Err(SqlError::new(ErrorKind::TableNotFound, name));
            },
        };
        let plan = match table {
            Table::ConnectorTable(t) => {
                return Ok(clone_fields(&t.fields));
            },
            Table::TableFromQuery { logical_plan, .. } => logical_plan,
            Table::InsertQuery { logical_plan, .. } => logical_plan,
            Table::Anonymous { logical_plan } => logical_plan,
        };
        match resolve_plan(self, plan, self.view_depth()) {
            Ok(fields) => Ok(fields),
            Err(_) => Err(SqlError::new(ErrorKind::PlanError, name)),
        }
    }
}

/// The fields of a table: those a connector table declares, whatever its kind, or those
/// the plan of a query resolves to.
pub open spec fn table_fields(
    tables: Map<Seq<char>, Table>,
    functions: Map<Seq<char>, ScalarFunction>,
    table: Table,
) -> Result<Seq<FieldView>, Failure> {
    match table {
        Table::ConnectorTable(t) => Ok(fields_view(t.fields@)),
        Table::TableFromQuery { logical_plan, .. } => resolved_fields(
            tables,
            functions,
            logical_plan,
            crate::tables::view_depth(tables),
        ),
        Table::InsertQuery { logical_plan, .. } => resolved_fields(
            tables,
            functions,
            logical_plan,
            crate::tables::view_depth(tables),
        ),
        Table::Anonymous { logical_plan } => resolved_fields(
            tables,
            functions,
            logical_plan,
            crate::tables::view_depth(tables),
        ),
    }
}

} // verus!
