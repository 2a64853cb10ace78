//! The failures the compiler reports.

use vstd::prelude::*;

verus! {

/// What went wrong, without the context.
#[derive(Clone, Copy, Debug, PartialEq, Eq, Structural)]
pub enum ErrorKind {
    EmptyQuery,
    SyntaxError,
    TableNotFound,
    UnknownTable,
    UnknownColumn,
    UnknownFunction,
    PlanError,
    UnsupportedConstruct,
    UnsupportedCast,
    InvalidSelfParameter,
    MissingReturnType,
    UnsupportedType,
    NameCollision,
    NoSinkDefined,
}

/// A failure with the name of the table, column, function or construct it is about, and
/// the position of the statement it came from where it came from one.
#[derive(Clone, Debug)]
pub struct SqlError {
    pub kind: ErrorKind,
    pub detail: String,
    pub statement: Option<usize>,
}

/// A failure as mathematical values: what went wrong, the name it is about, and the
/// position of the statement it came from where it came from one.
pub struct Failure {
    pub kind: ErrorKind,
    pub detail: Seq<char>,
    pub statement: Option<usize>,
}

/// The failure of the given kind about the given name, of no statement.
pub open spec fn failure(kind: ErrorKind, detail: Seq<char>) -> Failure {
    Failure { kind, detail, statement: None }
}

impl Failure {
    /// The same failure, as that of the statement at `index`.
    pub open spec fn at(self, index: usize) -> Failure {
        Failure { kind: self.kind, detail: self.detail, statement: Some(index) }
    }
}

impl View for SqlError {
    type V = Failure;

    open spec fn view(&self) -> Failure {
        Failure { kind: self.kind, detail: self.detail@, statement: self.statement }
    }
}

impl SqlError {
    pub fn new(kind: ErrorKind, detail: &str) -> (e: SqlError)
        ensures
            e@ == failure(kind, detail@),
    {
        SqlError { kind, detail: detail.to_owned(), statement: None }
    }

    /// The same failure, as that of the statement at `index`.
    pub fn in_statement(self, index: usize) -> (e: SqlError)
        ensures
            e@ == self@.at(index),
    {
        SqlError { kind: self.kind, detail: self.detail, statement: Some(index) }
    }

    pub fn kind(&self) -> (k: ErrorKind)
        ensures
            k == self.kind,
    {
        self.kind
    }

    /// The table, column, function or construct the failure names.
    pub fn detail(&self) -> (d: &str)
        ensures
            d@ == self.detail@,
    {
        self.detail.as_str()
    }
}

} // verus!
