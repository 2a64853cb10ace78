//! The scalar expression compiler: from a relational expression and the schema it is
//! evaluated against to a typed expression tree.

use vstd::prelude::*;
use crate::catalog::ArroyoSchemaProvider;
use crate::error::{failure, ErrorKind, Failure, SqlError};
use crate::plan::{BinaryOp, Expr, ScalarValue, UnaryOp};
use crate::tables::{ScalarFunction, SqlType};
use crate::types::{first_answer, opt_view, FieldView, PrimitiveKind, StructDef, TypeDef};

verus! {

/// A typed expression over the columns of one input. Columns are bound by position.
#[derive(Debug)]
pub enum Expression {
    Column { index: usize, data_type: TypeDef },
    Literal { value: ScalarValue, data_type: TypeDef },
    Unary { op: UnaryOp, input: Box<Expression>, data_type: TypeDef },
    Binary { left: Box<Expression>, op: BinaryOp, right: Box<Expression>, data_type: TypeDef },
    Cast { input: Box<Expression>, data_type: TypeDef },
    Call { name: String, args: Vec<Expression>, data_type: TypeDef },
}

impl Expression {
    /// The type of the values the expression gives.
    pub open spec fn type_of(self) -> TypeDef {
        match self {
            Expression::Column { data_type, .. } => data_type,
            Expression::Literal { data_type, .. } => data_type,
            Expression::Unary { data_type, .. } => data_type,
            Expression::Binary { data_type, .. } => data_type,
            Expression::Cast { data_type, .. } => data_type,
            Expression::Call { data_type, .. } => data_type,
        }
    }

    pub fn data_type(&self) -> (t: TypeDef)
        ensures
            t == self.type_of(),
    {
        match self {
            Expression::Column { data_type, .. } => *data_type,
            Expression::Literal { data_type, .. } => *data_type,
            Expression::Unary { data_type, .. } => *data_type,
            Expression::Binary { data_type, .. } => *data_type,
            Expression::Cast { data_type, .. } => *data_type,
            Expression::Call { data_type, .. } => *data_type,
        }
    }
}

impl BinaryOp {
    pub open spec fn arithmetic(self) -> bool {
        self == BinaryOp::Plus || self == BinaryOp::Minus || self == BinaryOp::Multiply || self
            == BinaryOp::Divide || self == BinaryOp::Modulo
    }

    pub open spec fn logical(self) -> bool {
        self == BinaryOp::And || self == BinaryOp::Or
    }
}

/// The type of `op x` for an `x` of type `t`.
pub open spec fn unary_type(op: UnaryOp, t: TypeDef) -> Result<TypeDef, ErrorKind> {
    match op {
        UnaryOp::Not => if t.kind == PrimitiveKind::Boolean {
            Ok(t)
        } else {
            Err(ErrorKind::PlanError)
        },
        UnaryOp::Negative => if t.kind.numeric() {
            Ok(t)
        } else {
            Err(ErrorKind::PlanError)
        },
        UnaryOp::IsNull | UnaryOp::IsNotNull => Ok(
            TypeDef { kind: PrimitiveKind::Boolean, nullable: false },
        ),
    }
}

/// The type of `x op y` for operands of types `l` and `r`: arithmetic keeps the kind of
/// its numeric operands, comparisons and the logical operators give a boolean, and the
/// result is nullable exactly if an operand is.
pub open spec fn binary_type(op: BinaryOp, l: TypeDef, r: TypeDef) -> Result<TypeDef, ErrorKind> {
    let nullable = l.nullable || r.nullable;
    if op.arithmetic() {
        if l.kind == r.kind && l.kind.numeric() {
            Ok(TypeDef { kind: l.kind, nullable })
        } else {
            Err(ErrorKind::PlanError)
        }
    } else if op.logical() {
        if l.kind == PrimitiveKind::Boolean && r.kind == PrimitiveKind::Boolean {
            Ok(TypeDef { kind: PrimitiveKind::Boolean, nullable })
        } else {
            Err(ErrorKind::PlanError)
        }
    } else {
        if l.kind == r.kind {
            Ok(TypeDef { kind: PrimitiveKind::Boolean, nullable })
        } else {
            Err(ErrorKind::PlanError)
        }
    }
}

/// The casts the compiler knows: a kind to itself, between the numeric kinds, between
/// text and every kind but bytes, and between timestamps and 64-bit integers.
pub open spec fn castable(from: PrimitiveKind, to: PrimitiveKind) -> bool {
    ||| from == to
    ||| from.numeric() && to.numeric()
    ||| to == PrimitiveKind::Utf8 && from != PrimitiveKind::Binary
    ||| from == PrimitiveKind::Utf8 && to != PrimitiveKind::Binary
    ||| from == PrimitiveKind::Timestamp && to == PrimitiveKind::Int64
    ||| from == PrimitiveKind::Int64 && to == PrimitiveKind::Timestamp
}

/// Whether arguments of these types fit the parameters.
pub open spec fn args_match(params: Seq<SqlType>, types: Seq<TypeDef>) -> bool {
    &&& params.len() == types.len()
    &&& forall|i: int|
        0 <= i < params.len() ==> #[trigger] params[i] == SqlType::Primitive(types[i].kind)
}

pub open spec fn any_nullable(types: Seq<TypeDef>) -> bool {
    exists|i: int| 0 <= i < types.len() && (#[trigger] types[i]).nullable
}

/// The type of a call of `f` on arguments of the given types. A window constructor has no
/// place in a scalar expression, and what is no primitive kind has no type there.
pub open spec fn call_type(f: ScalarFunction, types: Seq<TypeDef>) -> Result<TypeDef, ErrorKind> {
    match f.return_type {
        SqlType::Primitive(kind) => if args_match(f.args@, types) {
            Ok(TypeDef { kind, nullable: f.return_nullable || any_nullable(types) })
        } else {
            Err(ErrorKind::PlanError)
        },
        SqlType::Window => Err(ErrorKind::UnsupportedConstruct),
        _ => Err(ErrorKind::PlanError),
    }
}

/// The type of an expression over the given fields, or why it has none and the name that
/// the failure is about. A window constructor has no place in a scalar expression.
pub open spec fn typed(
    functions: Map<Seq<char>, ScalarFunction>,
    fields: Seq<FieldView>,
    e: Expr,
) -> Result<TypeDef, Failure>
    decreases e, 0int,
{
    match e {
        Expr::Column(c) => match first_answer(fields, opt_view(c.relation), c.name@) {
            Some(i) => Ok(fields[i].data_type),
            None => Err(failure(ErrorKind::UnknownColumn, c.name@)),
        },
        Expr::Literal(v) => Ok(TypeDef { kind: v.kind, nullable: v.text is None }),
        Expr::Interval(_) => Err(failure(ErrorKind::PlanError, "interval"@)),
        Expr::Unary { op, input } => match typed(functions, fields, *input) {
            Err(e) => Err(e),
            Ok(t) => match unary_type(op, t) {
                Ok(t) => Ok(t),
                Err(k) => Err(failure(k, "unary operator"@)),
            },
        },
        Expr::Binary { left, op, right } => match typed(functions, fields, *left) {
            Err(e) => Err(e),
            Ok(l) => match typed(functions, fields, *right) {
                Err(e) => Err(e),
                Ok(r) => match binary_type(op, l, r) {
                    Ok(t) => Ok(t),
                    Err(k) => Err(failure(k, "binary operator"@)),
                },
            },
        },
        Expr::Cast { input, kind } => match typed(functions, fields, *input) {
            Err(e) => Err(e),
            Ok(t) => if castable(t.kind, kind) {
                Ok(TypeDef { kind, nullable: t.nullable })
            } else {
                Err(failure(ErrorKind::UnsupportedCast, "cast"@))
            },
        },
        Expr::Call { name, args } => if !functions.contains_key(name@) {
            Err(failure(ErrorKind::UnknownFunction, name@))
        } else if functions[name@].return_type == SqlType::Window {
            Err(failure(ErrorKind::UnsupportedConstruct, name@))
        } else {
            match typed_first(functions, fields, args@, args@.len() as int) {
                Err(e) => Err(e),
                Ok(types) => match call_type(functions[name@], types) {
                    Ok(t) => Ok(t),
                    Err(k) => Err(failure(k, name@)),
                },
            }
        },
        Expr::Aggregate { .. } => Err(
            failure(ErrorKind::UnsupportedConstruct, "aggregate in a scalar expression"@),
        ),
        Expr::Alias { input, .. } => typed(functions, fields, *input),
        Expr::Unsupported { construct, .. } => Err(
            failure(ErrorKind::UnsupportedConstruct, construct@),
        ),
    }
}

/// The types of the first `n` expressions, or the first failure among them.
pub open spec fn typed_first(
    functions: Map<Seq<char>, ScalarFunction>,
    fields: Seq<FieldView>,
    exprs: Seq<Expr>,
    n: int,
) -> Result<Seq<TypeDef>, Failure>
    decreases exprs, n,
{
    if n <= 0 || n > exprs.len() {
        Ok(Seq::empty())
    } else {
        match typed_first(functions, fields, exprs, n - 1) {
            Err(e) => Err(e),
            Ok(front) => match typed(functions, fields, exprs[n - 1]) {
                Err(e) => Err(e),
                Ok(t) => Ok(front.push(t)),
            },
        }
    }
}

/// The types of all the expressions, or the first failure among them.
pub open spec fn typed_all(
    functions: Map<Seq<char>, ScalarFunction>,
    fields: Seq<FieldView>,
    exprs: Seq<Expr>,
) -> Result<Seq<TypeDef>, Failure> {
    typed_first(functions, fields, exprs, exprs.len() as int)
}

/// Whether `out` is the compiled form of `e`: the same tree, with every column bound to
/// the position of the field it means, and every node carrying its type.
pub open spec fn reflects(
    functions: Map<Seq<char>, ScalarFunction>,
    fields: Seq<FieldView>,
    e: Expr,
    out: Expression,
) -> bool
    decreases e,
{
    match e {
        Expr::Alias { input, .. } => reflects(functions, fields, *input, out),
        _ => {
            &&& typed(functions, fields, e) == Ok::<TypeDef, Failure>(out.type_of())
            &&& match e {
                Expr::Column(c) => out matches Expression::Column { index, .. } && Some(
                    index as int,
                ) == first_answer(fields, opt_view(c.relation), c.name@),
                Expr::Literal(v) => out matches Expression::Literal { value, .. } && value == v,
                Expr::Unary { op, input } => out matches Expression::Unary {
                    op: out_op,
                    input: out_input,
                    ..
                } && out_op == op && reflects(functions, fields, *input, *out_input),
                Expr::Binary { left, op, right } => out matches Expression::Binary {
                    left: out_left,
                    op: out_op,
                    right: out_right,
                    ..
                } && out_op == op && reflects(functions, fields, *left, *out_left) && reflects(
                    functions,
                    fields,
                    *right,
                    *out_right,
                ),
                Expr::Cast { input, .. } => out matches Expression::Cast { input: out_input, .. }
                    && reflects(functions, fields, *input, *out_input),
                Expr::Call { name, args } => out matches Expression::Call {
                    name: out_name,
                    args: out_args,
                    ..
                } && out_name@ == name@ && out_args@.len() == args@.len() && forall|i: int|
                    0 <= i < args@.len() ==> reflects(
                        functions,
                        fields,
                        #[trigger] args@[i],
                        out_args@[i],
                    ),
                _ => false,
            }
        },
    }
}

/// Once typing fails among the first `n` expressions, it fails the same way for any more.
pub proof fn lemma_typed_first_fails(
    functions: Map<Seq<char>, ScalarFunction>,
    fields: Seq<FieldView>,
    exprs: Seq<Expr>,
    n: int,
    m: int,
)
    requires
        0 <= n <= m <= exprs.len(),
        typed_first(functions, fields, exprs, n) is Err,
    ensures
        typed_first(functions, fields, exprs, m) == typed_first(functions, fields, exprs, n),
    decreases m - n,
{
    if n < m {
        lemma_typed_first_fails(functions, fields, exprs, n, m - 1);
    }
}

/// A compiled column is bound to a position of the schema, and has the type of the field
/// at that position.
pub proof fn lemma_column_bound(
    functions: Map<Seq<char>, ScalarFunction>,
    fields: Seq<FieldView>,
    column: crate::plan::Column,
    out: Expression,
)
    requires
        reflects(functions, fields, Expr::Column(column), out),
    ensures
        out is Column,
        0 <= out->index < fields.len(),
        out.type_of() == fields[out->index as int].data_type,
        fields[out->index as int].answers(opt_view(column.relation), column.name@),
{
    crate::types::lemma_first_answer(fields, opt_view(column.relation), column.name@);
}

/// The result of `x op y` is nullable exactly if `x` or `y` is; no operator makes a
/// nullable result out of operands that are not.
pub proof fn lemma_binary_nullability(
    functions: Map<Seq<char>, ScalarFunction>,
    fields: Seq<FieldView>,
    left: Expr,
    op: BinaryOp,
    right: Expr,
)
    requires
        typed(functions, fields, Expr::Binary { left: Box::new(left), op, right: Box::new(right) })
            is Ok,
    ensures
        typed(functions, fields, left) is Ok,
        typed(functions, fields, right) is Ok,
        typed(
            functions,
            fields,
            Expr::Binary { left: Box::new(left), op, right: Box::new(right) },
        )->Ok_0.nullable == (typed(functions, fields, left)->Ok_0.nullable || typed(
            functions,
            fields,
            right,
        )->Ok_0.nullable),
{
}

} // verus!

verus! {

/// A compiled expression has the type that typing gives its source.
pub proof fn lemma_reflects_typed(
    functions: Map<Seq<char>, ScalarFunction>,
    fields: Seq<FieldView>,
    e: Expr,
    out: Expression,
)
    requires
        reflects(functions, fields, e, out),
    ensures
        typed(functions, fields, e) == Ok::<TypeDef, Failure>(out.type_of()),
    decreases e,
{
    match e {
        Expr::Alias { input, .. } => {
            lemma_reflects_typed(functions, fields, *input, out);
        },
        _ => {},
    }
}

pub fn unary_result(op: UnaryOp, t: TypeDef) -> (r: Result<TypeDef, ErrorKind>)
    ensures
        r == unary_type(op, t),
{
    match op {
        UnaryOp::Not => if t.kind == PrimitiveKind::Boolean {
            Ok(t)
        } else {
            Err(ErrorKind::PlanError)
        },
        UnaryOp::Negative => if t.kind.is_numeric() {
            Ok(t)
        } else {
            Err(ErrorKind::PlanError)
        },
        UnaryOp::IsNull | UnaryOp::IsNotNull => Ok(
            TypeDef { kind: PrimitiveKind::Boolean, nullable: false },
        ),
    }
}

pub fn binary_result(op: BinaryOp, l: TypeDef, r: TypeDef) -> (t: Result<TypeDef, ErrorKind>)
    ensures
        t == binary_type(op, l, r),
{
    let nullable = l.nullable || r.nullable;
    match op {
        BinaryOp::Plus | BinaryOp::Minus | BinaryOp::Multiply | BinaryOp::Divide | BinaryOp::Modulo => {
            if l.kind == r.kind && l.kind.is_numeric() {
                Ok(TypeDef { kind: l.kind, nullable })
            } else {
                Err(ErrorKind::PlanError)
            }
        },
        BinaryOp::And | BinaryOp::Or => {
            if l.kind == PrimitiveKind::Boolean && r.kind == PrimitiveKind::Boolean {
                Ok(TypeDef { kind: PrimitiveKind::Boolean, nullable })
            } else {
                Err(ErrorKind::PlanError)
            }
        },
        _ => {
            if l.kind == r.kind {
                Ok(TypeDef { kind: PrimitiveKind::Boolean, nullable })
            } else {
                Err(ErrorKind::PlanError)
            }
        },
    }
}

pub fn can_cast(from: PrimitiveKind, to: PrimitiveKind) -> (b: bool)
    ensures
        b == castable(from, to),
{
    from == to || (from.is_numeric() && to.is_numeric()) || (to == PrimitiveKind::Utf8 && from
        != PrimitiveKind::Binary) || (from == PrimitiveKind::Utf8 && to != PrimitiveKind::Binary)
        || (from == PrimitiveKind::Timestamp && to == PrimitiveKind::Int64) || (from
        == PrimitiveKind::Int64 && to == PrimitiveKind::Timestamp)
}

/// The type of a call of `f` on arguments of the given types.
pub fn call_result(f: &ScalarFunction, types: &Vec<TypeDef>) -> (r: Result<TypeDef, ErrorKind>)
    ensures
        r == call_type(*f, types@),
{
    let kind = match f.return_type {
        SqlType::Primitive(kind) => kind,
        SqlType::Window => {
            return Err(ErrorKind::UnsupportedConstruct);
        },
        _ => {
            return Err(ErrorKind::PlanError);
        },
    };
    if f.args.len() != types.len() {
        return Err(ErrorKind::PlanError);
    }
    let mut nullable = false;
    let mut i: usize = 0;
    while i < types.len()
        invariant
            i <= types.len(),
            f.args.len() == types.len(),
            f.return_type == SqlType::Primitive(kind),
            forall|j: int|
                0 <= j < i ==> #[trigger] f.args@[j] == SqlType::Primitive(types@[j].kind),
            nullable == any_nullable(types@.take(i as int)),
        decreases types.len() - i,
    {
        if f.args[i] != SqlType::Primitive(types[i].kind) {
            assert(f.args@[i as int] != SqlType::Primitive(types@[i as int].kind));
            return Err(ErrorKind::PlanError);
        }
        proof {
            let before = types@.take(i as int);
            let after = types@.take(i + 1);
            if types@[i as int].nullable {
                assert(after[i as int].nullable);
            } else if any_nullable(before) {
                let w = choose|w: int| 0 <= w < before.len() && (#[trigger] before[w]).nullable;
                assert(after[w].nullable);
            } else if any_nullable(after) {
                let w = choose|w: int| 0 <= w < after.len() && (#[trigger] after[w]).nullable;
                assert(before[w].nullable);
            }
        }
        nullable = nullable || types[i].nullable;
        i += 1;
    }
    proof {
        assert(types@.take(types.len() as int) =~= types@);
    }
    Ok(TypeDef { kind, nullable: f.return_nullable || nullable })
}

/// What an expression is compiled against: the catalog its functions are looked up in,
/// and the schema its columns are bound to.
pub struct ExpressionContext<'a> {
    pub schema_provider: &'a ArroyoSchemaProvider,
    pub input_struct: &'a StructDef,
}

impl<'a> ExpressionContext<'a> {
    pub open spec fn functions(&self) -> Map<Seq<char>, ScalarFunction> {
        self.schema_provider.functions@
    }

    pub open spec fn fields(&self) -> Seq<FieldView> {
        self.input_struct@.fields
    }

    /// Compiles `expr`. It succeeds exactly where the expression has a type, and then gives
    /// the same tree with columns bound by position and every node typed; else it fails
    /// with the reason typing gives.
    #[verifier::loop_isolation(false)]
    pub fn compile_expr(&self, expr: &Expr) -> (r: Result<Expression, SqlError>)
        ensures
            match r {
                Ok(out) => reflects(self.functions(), self.fields(), *expr, out),
                Err(e) => typed(self.functions(), self.fields(), *expr) == Err::<TypeDef, Failure>(
                    e@,
                ),
            },
        decreases expr,
    {
        match expr {
            Expr::Column(c) => match self.input_struct.field_index(&c.relation, c.name.as_str()) {
                Some(index) => {
                    assert(self.fields()[index as int] == self.input_struct.fields@[index as int]@);
                    Ok(
                        Expression::Column {
                            index,
                            data_type: self.input_struct.fields[index].data_type,
                        },
                    )
                },
                None => Err(SqlError::new(ErrorKind::UnknownColumn, c.name.as_str())),
            },
            Expr::Literal(v) => Ok(
                Expression::Literal {
                    value: v.clone(),
                    data_type: TypeDef { kind: v.kind, nullable: v.text.is_none() },
                },
            ),
            Expr::Interval(_) => Err(SqlError::new(ErrorKind::PlanError, "interval")),
            Expr::Unary { op, input } => {
                let compiled = match self.compile_expr(input) {
                    Ok(c) => c,
                    Err(e) => {
                        return Err(e);
                    },
                };
                proof {
                    lemma_reflects_typed(self.functions(), self.fields(), **input, compiled);
                }
                match unary_result(*op, compiled.data_type()) {
                    Ok(data_type) => Ok(
                        Expression::Unary { op: *op, input: Box::new(compiled), data_type },
                    ),
                    Err(kind) => Err(SqlError::new(kind, "unary operator")),
                }
            },
            Expr::Binary { left, op, right } => {
                let l = match self.compile_expr(left) {
                    Ok(c) => c,
                    Err(e) => {
                        return Err(e);
                    },
                };
                let r = match self.compile_expr(right) {
                    Ok(c) => c,
                    Err(e) => {
                        proof {
                            lemma_reflects_typed(self.functions(), self.fields(), **left, l);
                        }
                        return Err(e);
                    },
                };
                proof {
                    lemma_reflects_typed(self.functions(), self.fields(), **left, l);
                    lemma_reflects_typed(self.functions(), self.fields(), **right, r);
                }
                match binary_result(*op, l.data_type(), r.data_type()) {
                    Ok(data_type) => Ok(
                        Expression::Binary {
                            left: Box::new(l),
                            op: *op,
                            right: Box::new(r),
                            data_type,
                        },
                    ),
                    Err(kind) => Err(SqlError::new(kind, "binary operator")),
                }
            },
            Expr::Cast { input, kind } => {
                let compiled = match self.compile_expr(input) {
                    Ok(c) => c,
                    Err(e) => {
                        return Err(e);
                    },
                };
                proof {
                    lemma_reflects_typed(self.functions(), self.fields(), **input, compiled);
                }
                let from = compiled.data_type();
                if can_cast(from.kind, *kind) {
                    Ok(
                        Expression::Cast {
                            input: Box::new(compiled),
                            data_type: TypeDef { kind: *kind, nullable: from.nullable },
                        },
                    )
                } else {
                    Err(SqlError::new(ErrorKind::UnsupportedCast, "cast"))
                }
            },
            Expr::Call { name, args } => {
                let function = match self.schema_provider.get_function_meta(name.as_str()) {
                    Some(f) => f,
                    None => {
                        return Err(SqlError::new(ErrorKind::UnknownFunction, name.as_str()));
                    },
                };
                if function.return_type == SqlType::Window {
                    return Err(SqlError::new(ErrorKind::UnsupportedConstruct, name.as_str()));
                }
                let mut compiled: Vec<Expression> = Vec::new();
                let mut types: Vec<TypeDef> = Vec::new();
                let mut i: usize = 0;
                while i < args.len()
                    invariant
                        i <= args.len(),
                        compiled@.len() == i,
                        typed_first(self.functions(), self.fields(), args@, i as int) == Ok::<
                            Seq<TypeDef>,
                            Failure,
                        >(types@),
                        forall|j: int|
                            0 <= j < i ==> reflects(
                                self.functions(),
                                self.fields(),
                                #[trigger] args@[j],
                                compiled@[j],
                            ),
                    decreases args.len() - i,
                {
                    match self.compile_expr(&args[i]) {
                        Ok(c) => {
                            proof {
                                lemma_reflects_typed(
                                    self.functions(),
                                    self.fields(),
                                    args@[i as int],
                                    c,
                                );
                            }
                            types.push(c.data_type());
                            compiled.push(c);
                        },
                        Err(e) => {
                            proof {
                                lemma_typed_first_fails(
                                    self.functions(),
                                    self.fields(),
                                    args@,
                                    i + 1,
                                    args@.len() as int,
                                );
                            }
                            return Err(e);
                        },
                    }
                    i += 1;
                }
                match call_result(function, &types) {
                    Ok(data_type) => Ok(
                        Expression::Call { name: name.clone(), args: compiled, data_type },
                    ),
                    Err(kind) => Err(SqlError::new(kind, name.as_str())),
                }
            },
            Expr::Aggregate { .. } => Err(
                SqlError::new(ErrorKind::UnsupportedConstruct, "aggregate in a scalar expression"),
            ),
            Expr::Alias { input, .. } => self.compile_expr(input),
            Expr::Unsupported { construct, .. } => Err(
                SqlError::new(ErrorKind::UnsupportedConstruct, construct.as_str()),
            ),
        }
    }
}

} // verus!
