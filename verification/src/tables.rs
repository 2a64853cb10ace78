//! What a catalog holds: tables, scalar functions and the definitions of user functions.

use vstd::prelude::*;
use crate::plan::LogicalPlan;
use crate::types::{PrimitiveKind, StructField, TypeDef};

verus! {

/// Whether a connector table is read from or written to.
#[derive(Clone, Copy, Debug, PartialEq, Eq, Structural)]
pub enum ConnectorType {
    Source,
    Sink,
}

/// How the records of a connector table are encoded.
#[derive(Clone, Copy, Debug, PartialEq, Eq, Structural)]
pub enum SerializationMode {
    Json,
    JsonSchemaRegistry,
    RawJson,
    DebeziumJson,
}

/// A source or sink backed by an external connector.
#[derive(Debug)]
pub struct ConnectorTable {
    pub id: Option<i64>,
    pub name: String,
    pub connector_type: ConnectorType,
    pub fields: Vec<StructField>,
    pub struct_name: Option<String>,
    pub operator: String,
    pub config: String,
    pub description: String,
    pub serialization_mode: SerializationMode,
    pub event_time_field: Option<String>,
    pub watermark_field: Option<String>,
}

/// A table as the compiler sees it.
#[derive(Debug)]
pub enum Table {
    ConnectorTable(ConnectorTable),
    /// A named view: a name and the plan that defines it.
    TableFromQuery { name: String, logical_plan: LogicalPlan },
    /// A statement that writes what its plan produces into a named sink.
    InsertQuery { sink_name: String, logical_plan: LogicalPlan },
    /// A plan without a name.
    Anonymous { logical_plan: LogicalPlan },
}

impl Table {
    /// The name under which a catalog holds the table; queries that only produce output
    /// have none.
    pub open spec fn name_view(self) -> Option<Seq<char>> {
        match self {
            Table::ConnectorTable(t) => Some(t.name@),
            Table::TableFromQuery { name, .. } => Some(name@),
            Table::InsertQuery { .. } => None,
            Table::Anonymous { .. } => None,
        }
    }

    pub fn name(&self) -> (n: Option<String>)
        ensures
            crate::types::opt_view(n) == self.name_view(),
    {
        match self {
            Table::ConnectorTable(t) => Some(t.name.clone()),
            Table::TableFromQuery { name, .. } => Some(name.clone()),
            Table::InsertQuery { .. } => None,
            Table::Anonymous { .. } => None,
        }
    }
}

/// How deep views are looked through among the given tables: as deep as there are
/// tables, so that no chain of views that ends is cut short, and 64 views deep at the
/// least. Only views that refer to each other in a circle go deeper.
pub open spec fn view_depth(tables: Map<Seq<char>, Table>) -> nat {
    if tables.len() > 64 {
        tables.len()
    } else {
        64
    }
}

/// The type of a function's argument or result.
#[derive(Clone, Copy, Debug, PartialEq, Eq, Structural)]
pub enum SqlType {
    Primitive(PrimitiveKind),
    Interval,
    /// The window a row falls into.
    Window,
    List(PrimitiveKind),
}

/// A scalar function as the catalog knows it: the types it takes and the type it gives.
#[derive(Debug)]
pub struct ScalarFunction {
    pub name: String,
    pub args: Vec<SqlType>,
    pub return_type: SqlType,
    /// Whether the function can give NULL for arguments that are not NULL.
    pub return_nullable: bool,
    /// Whether the function was there from the start, or registered by a user.
    pub built_in: bool,
}

/// An aggregate function as the catalog knows it.
#[derive(Debug)]
pub struct AggregateFunction {
    pub name: String,
    /// The least and the greatest number of arguments it takes.
    pub min_args: usize,
    pub max_args: usize,
}

/// A user-defined function: the types of its arguments and result, and its source.
#[derive(Clone, Debug)]
pub struct UdfDef {
    pub args: Vec<TypeDef>,
    pub ret: TypeDef,
    pub def: String,
}

} // verus!
