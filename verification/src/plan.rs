//! The relational plan the compiler starts from: the scalar expressions and the
//! plan nodes of one statement, as a planner hands them over.

use vstd::prelude::*;
use crate::types::{PrimitiveKind, StructField, TypeDef};

verus! {

#[derive(Clone, Copy, Debug, PartialEq, Eq, Structural)]
pub enum BinaryOp {
    Plus,
    Minus,
    Multiply,
    Divide,
    Modulo,
    Eq,
    NotEq,
    Lt,
    LtEq,
    Gt,
    GtEq,
    And,
    Or,
}

#[derive(Clone, Copy, Debug, PartialEq, Eq, Structural)]
pub enum UnaryOp {
    Not,
    Negative,
    IsNull,
    IsNotNull,
}

#[derive(Clone, Copy, Debug, PartialEq, Eq, Structural)]
pub enum AggregateKind {
    Count,
    Sum,
    Min,
    Max,
    Avg,
}

#[derive(Clone, Copy, Debug, PartialEq, Eq, Structural)]
pub enum JoinKind {
    Inner,
    Left,
    Right,
    Full,
    LeftSemi,
    RightSemi,
    LeftAnti,
    RightAnti,
}

/// A length of time as SQL writes it: months, days and nanoseconds.
#[derive(Clone, Copy, Debug, PartialEq, Eq, Structural)]
pub struct IntervalValue {
    pub months: i32,
    pub days: i32,
    pub nanos: i64,
}

/// A reference to a column, with the relation's name where the query wrote one.
#[derive(Debug)]
pub struct Column {
    pub relation: Option<String>,
    pub name: String,
}

/// A constant of a primitive kind, as text; without text it is NULL.
#[derive(Debug)]
pub struct ScalarValue {
    pub kind: PrimitiveKind,
    pub text: Option<String>,
}

/// A scalar expression over the columns of one input.
#[derive(Debug)]
pub enum Expr {
    Column(Column),
    Literal(ScalarValue),
    Interval(IntervalValue),
    Unary { op: UnaryOp, input: Box<Expr> },
    Binary { left: Box<Expr>, op: BinaryOp, right: Box<Expr> },
    Cast { input: Box<Expr>, kind: PrimitiveKind },
    Call { name: String, args: Vec<Expr> },
    Aggregate { kind: AggregateKind, arg: Box<Expr> },
    Alias { input: Box<Expr>, name: String },
    /// Anything the compiler has no expression for, by the name of the construct, with
    /// the type of what it gives.
    Unsupported { construct: String, data_type: TypeDef },
}

/// One node of a relational plan.
#[derive(Debug)]
pub enum LogicalPlan {
    TableScan { table_name: String, alias: Option<String> },
    Projection { exprs: Vec<Expr>, input: Box<LogicalPlan> },
    Filter { predicate: Expr, input: Box<LogicalPlan> },
    Join { left: Box<LogicalPlan>, right: Box<LogicalPlan>, kind: JoinKind, condition: Expr },
    Aggregate { group_exprs: Vec<Expr>, aggr_exprs: Vec<Expr>, input: Box<LogicalPlan> },
    CreateView { name: String, input: Box<LogicalPlan> },
    CreateMemoryTable { name: String, input: Box<LogicalPlan> },
    Insert { table_name: String, input: Box<LogicalPlan> },
    /// Anything the compiler has no operator for, by the name of the construct, with the
    /// fields of what it gives.
    Unsupported { construct: String, fields: Vec<StructField> },
}

impl Column {
    pub fn new(relation: Option<String>, name: String) -> (c: Column)
        ensures
            c.relation == relation,
            c.name == name,
    {
        Column { relation, name }
    }
}

impl ScalarValue {
    pub fn new(kind: PrimitiveKind, text: Option<String>) -> (v: ScalarValue)
        ensures
            v.kind == kind,
            v.text == text,
    {
        ScalarValue { kind, text }
    }
}

impl Clone for ScalarValue {
    fn clone(&self) -> (r: Self)
        ensures
            r == *self,
    {
        ScalarValue { kind: self.kind, text: crate::types::clone_opt(&self.text) }
    }
}

} // verus!
