//! Nullable-aware column and struct types shared by every stage of the compiler.

use vstd::prelude::*;

verus! {

/// The scalar kinds a column can hold.
#[derive(Clone, Copy, Debug, PartialEq, Eq, Structural)]
pub enum PrimitiveKind {
    Int32,
    Int64,
    Float32,
    Float64,
    Boolean,
    Utf8,
    Timestamp,
    Binary,
}

/// A scalar kind together with its nullability.
#[derive(Clone, Copy, Debug, PartialEq, Eq, Structural)]
pub struct TypeDef {
    pub kind: PrimitiveKind,
    pub nullable: bool,
}

impl TypeDef {
    pub fn new(kind: PrimitiveKind, nullable: bool) -> (t: TypeDef)
        ensures
            t.kind == kind,
            t.nullable == nullable,
    {
        TypeDef { kind, nullable }
    }

    pub fn is_optional(&self) -> (b: bool)
        ensures
            b == self.nullable,
    {
        self.nullable
    }

    /// The same kind with the given nullability.
    pub fn with_nullity(&self, nullable: bool) -> (t: TypeDef)
        ensures
            t.kind == self.kind,
            t.nullable == nullable,
    {
        TypeDef { kind: self.kind, nullable }
    }

    /// The same kind, nullable.
    pub fn as_nullable(&self) -> (t: TypeDef)
        ensures
            t.kind == self.kind,
            t.nullable,
    {
        self.with_nullity(true)
    }
}

} // verus!

verus! {

impl PrimitiveKind {
    /// The kinds that arithmetic is defined on.
    pub open spec fn numeric(self) -> bool {
        self == PrimitiveKind::Int32 || self == PrimitiveKind::Int64 || self
            == PrimitiveKind::Float32 || self == PrimitiveKind::Float64
    }

    pub fn is_numeric(&self) -> (b: bool)
        ensures
            b == self.numeric(),
    {
        match self {
            PrimitiveKind::Int32 | PrimitiveKind::Int64 | PrimitiveKind::Float32 | PrimitiveKind::Float64 => true,
            _ => false,
        }
    }
}

/// One column of a struct: its name, the alias of the relation it came from, and its type.
#[derive(Debug)]
pub struct StructField {
    pub name: String,
    pub alias: Option<String>,
    pub data_type: TypeDef,
}

/// What a `StructField` holds, as mathematical values.
pub struct FieldView {
    pub name: Seq<char>,
    pub alias: Option<Seq<char>>,
    pub data_type: TypeDef,
}

/// The view of an optional text.
pub open spec fn opt_view(o: Option<String>) -> Option<Seq<char>> {
    match o {
        Some(s) => Some(s@),
        None => None,
    }
}

pub fn clone_opt(o: &Option<String>) -> (r: Option<String>)
    ensures
        r == *o,
{
    match o {
        Some(s) => Some(s.clone()),
        None => None,
    }
}

impl View for StructField {
    type V = FieldView;

    open spec fn view(&self) -> FieldView {
        FieldView { name: self.name@, alias: opt_view(self.alias), data_type: self.data_type }
    }
}

impl Clone for StructField {
    fn clone(&self) -> (r: Self)
        ensures
            r == *self,
    {
        StructField {
            name: self.name.clone(),
            alias: clone_opt(&self.alias),
            data_type: self.data_type,
        }
    }
}

impl FieldView {
    /// Whether a column reference, with or without a relation in front, means this field.
    pub open spec fn answers(self, relation: Option<Seq<char>>, name: Seq<char>) -> bool {
        self.name == name && (relation is None || self.alias == relation)
    }

    /// This field with its type made nullable.
    pub open spec fn nullable(self) -> FieldView {
        FieldView {
            name: self.name,
            alias: self.alias,
            data_type: TypeDef { kind: self.data_type.kind, nullable: true },
        }
    }
}

impl StructField {
    pub fn new(name: String, alias: Option<String>, data_type: TypeDef) -> (f: StructField)
        ensures
            f.name == name,
            f.alias == alias,
            f.data_type == data_type,
    {
        StructField { name, alias, data_type }
    }

    pub fn name(&self) -> (n: &str)
        ensures
            n@ == self@.name,
    {
        self.name.as_str()
    }

    /// Whether a column reference, with or without a relation in front, means this field.
    pub fn answers(&self, relation: &Option<String>, name: &str) -> (b: bool)
        ensures
            b == self@.answers(opt_view(*relation), name@),
    {
        if !crate::text::str_eq(self.name.as_str(), name) {
            return false;
        }
        match relation {
            None => true,
            Some(r) => match &self.alias {
                Some(a) => crate::text::str_eq(a.as_str(), r.as_str()),
                None => false,
            },
        }
    }

    /// The same field with a nullable type.
    pub fn as_nullable(&self) -> (f: StructField)
        ensures
            f@ == self@.nullable(),
    {
        StructField {
            name: self.name.clone(),
            alias: clone_opt(&self.alias),
            data_type: self.data_type.as_nullable(),
        }
    }
}

/// An ordered list of fields, with the name of the record type where one was declared.
#[derive(Debug)]
pub struct StructDef {
    pub name: Option<String>,
    pub fields: Vec<StructField>,
}

/// What a `StructDef` holds, as mathematical values.
pub struct StructView {
    pub name: Option<Seq<char>>,
    pub fields: Seq<FieldView>,
}

/// The views of a list of fields, in order.
pub open spec fn fields_view(fields: Seq<StructField>) -> Seq<FieldView> {
    Seq::new(fields.len(), |i: int| fields[i]@)
}

impl View for StructDef {
    type V = StructView;

    open spec fn view(&self) -> StructView {
        StructView { name: opt_view(self.name), fields: fields_view(self.fields@) }
    }
}

/// The position of the first field that a column reference means, if there is one.
pub open spec fn first_answer(
    fields: Seq<FieldView>,
    relation: Option<Seq<char>>,
    name: Seq<char>,
) -> Option<int>
    decreases fields.len(),
{
    if fields.len() == 0 {
        None
    } else {
        match first_answer(fields.drop_last(), relation, name) {
            Some(i) => Some(i),
            None => if fields.last().answers(relation, name) {
                Some(fields.len() - 1)
            } else {
                None
            },
        }
    }
}

/// `first_answer` finds a field that answers, and none before it does.
pub proof fn lemma_first_answer(fields: Seq<FieldView>, relation: Option<Seq<char>>, name: Seq<char>)
    ensures
        match first_answer(fields, relation, name) {
            Some(i) => 0 <= i < fields.len() && fields[i].answers(relation, name) && forall|j: int|
                0 <= j < i ==> !(#[trigger] fields[j]).answers(relation, name),
            None => forall|j: int|
                0 <= j < fields.len() ==> !(#[trigger] fields[j]).answers(relation, name),
        },
    decreases fields.len(),
{
    if fields.len() > 0 {
        let front = fields.drop_last();
        lemma_first_answer(front, relation, name);
        assert forall|j: int| 0 <= j < front.len() implies (#[trigger] fields[j]).answers(
            relation,
            name,
        ) == front[j].answers(relation, name) by {}
    }
}

/// A position that answers, with none before it, is the one `first_answer` gives.
pub proof fn lemma_first_answer_is(
    fields: Seq<FieldView>,
    relation: Option<Seq<char>>,
    name: Seq<char>,
    i: int,
)
    requires
        0 <= i < fields.len(),
        fields[i].answers(relation, name),
        forall|j: int| 0 <= j < i ==> !(#[trigger] fields[j]).answers(relation, name),
    ensures
        first_answer(fields, relation, name) == Some(i),
{
    lemma_first_answer(fields, relation, name);
}

/// Where no position answers, `first_answer` gives none.
pub proof fn lemma_first_answer_none(
    fields: Seq<FieldView>,
    relation: Option<Seq<char>>,
    name: Seq<char>,
)
    requires
        forall|j: int| 0 <= j < fields.len() ==> !(#[trigger] fields[j]).answers(relation, name),
    ensures
        first_answer(fields, relation, name) is None,
{
    lemma_first_answer(fields, relation, name);
}

pub fn clone_fields(fields: &Vec<StructField>) -> (r: Vec<StructField>)
    ensures
        r@ == fields@,
{
    let mut r: Vec<StructField> = Vec::new();
    let mut i: usize = 0;
    while i < fields.len()
        invariant
            i <= fields.len(),
            r@ == fields@.take(i as int),
        decreases fields.len() - i,
    {
        r.push(fields[i].clone());
        proof {
            assert(fields@.take(i + 1) =~= fields@.take(i as int).push(fields@[i as int]));
        }
        i += 1;
    }
    proof {
        assert(fields@.take(fields.len() as int) =~= fields@);
    }
    r
}

impl Clone for StructDef {
    fn clone(&self) -> (r: Self)
        ensures
            r.name == self.name,
            r.fields@ == self.fields@,
            r@ == self@,
    {
        StructDef { name: clone_opt(&self.name), fields: clone_fields(&self.fields) }
    }
}

impl StructDef {
    pub fn new(name: Option<String>, fields: Vec<StructField>) -> (d: StructDef)
        ensures
            d.name == name,
            d.fields == fields,
    {
        StructDef { name, fields }
    }

    /// The position of the first field that the column reference means.
    pub fn field_index(&self, relation: &Option<String>, name: &str) -> (r: Option<usize>)
        ensures
            match r {
                Some(i) => first_answer(self@.fields, opt_view(*relation), name@) == Some(i as int)
                    && i < self.fields.len(),
                None => first_answer(self@.fields, opt_view(*relation), name@) is None,
            },
    {
        let mut i: usize = 0;
        while i < self.fields.len()
            invariant
                i <= self.fields.len(),
                forall|j: int|
                    0 <= j < i ==> !(#[trigger] self@.fields[j]).answers(
                        opt_view(*relation),
                        name@,
                    ),
            decreases self.fields.len() - i,
        {
            if self.fields[i].answers(relation, name) {
                proof {
                    assert(self@.fields[i as int] == self.fields@[i as int]@);
                    lemma_first_answer_is(self@.fields, opt_view(*relation), name@, i as int);
                }
                return Some(i);
            }
            assert(self@.fields[i as int] == self.fields@[i as int]@);
            i += 1;
        }
        proof {
            lemma_first_answer_none(self@.fields, opt_view(*relation), name@);
        }
        None
    }
}

} // verus!
