//! A record with one field of every kind, nullable and not, to try expressions against.

use vstd::prelude::*;
use crate::types::{PrimitiveKind, StructDef, StructField, TypeDef};

verus! {

/// The kind of the fields at positions `2 * pair` and `2 * pair + 1`.
pub open spec fn kind_of_pair(pair: int) -> PrimitiveKind {
    if pair == 0 {
        PrimitiveKind::Int32
    } else if pair == 1 {
        PrimitiveKind::Boolean
    } else if pair == 2 {
        PrimitiveKind::Float32
    } else if pair == 3 {
        PrimitiveKind::Float64
    } else if pair == 4 {
        PrimitiveKind::Int64
    } else if pair == 5 {
        PrimitiveKind::Utf8
    } else if pair == 6 {
        PrimitiveKind::Timestamp
    } else {
        PrimitiveKind::Binary
    }
}

/// What the name of a field says of its kind.
pub open spec fn kind_suffix(kind: PrimitiveKind) -> Seq<char> {
    match kind {
        PrimitiveKind::Int32 => "i32"@,
        PrimitiveKind::Int64 => "i64"@,
        PrimitiveKind::Float32 => "f32"@,
        PrimitiveKind::Float64 => "f64"@,
        PrimitiveKind::Boolean => "bool"@,
        PrimitiveKind::Utf8 => "string"@,
        PrimitiveKind::Timestamp => "timestamp"@,
        PrimitiveKind::Binary => "bytes"@,
    }
}

/// The name of a field of the given type: `nullable_` or `non_nullable_`, then the kind.
pub open spec fn name_of(t: TypeDef) -> Seq<char> {
    if t.nullable {
        "nullable_"@ + kind_suffix(t.kind)
    } else {
        "non_nullable_"@ + kind_suffix(t.kind)
    }
}

fn suffix(kind: PrimitiveKind) -> (s: &'static str)
    ensures
        s@ == kind_suffix(kind),
{
    match kind {
        PrimitiveKind::Int32 => "i32",
        PrimitiveKind::Int64 => "i64",
        PrimitiveKind::Float32 => "f32",
        PrimitiveKind::Float64 => "f64",
        PrimitiveKind::Boolean => "bool",
        PrimitiveKind::Utf8 => "string",
        PrimitiveKind::Timestamp => "timestamp",
        PrimitiveKind::Binary => "bytes",
    }
}

fn named_field(kind: PrimitiveKind, nullable: bool) -> (f: StructField)
    ensures
        f@.name == name_of(TypeDef { kind, nullable }),
        f@.alias is None,
        f.data_type == (TypeDef { kind, nullable }),
{
    let prefix = if nullable {
        "nullable_"
    } else {
        "non_nullable_"
    };
    StructField {
        name: prefix.to_owned().concat(suffix(kind)),
        alias: None,
        data_type: TypeDef { kind, nullable },
    }
}

/// The record `TestStruct`: for each kind in turn a field that is never NULL and one that
/// can be, each named after its type.
pub fn test_struct_def() -> (d: StructDef)
    ensures
        d@.name == Some("TestStruct"@),
        d@.fields.len() == 16,
        forall|i: int|
            0 <= i < 16 ==> {
                let t = TypeDef { kind: kind_of_pair(i / 2), nullable: i % 2 == 1 };
                &&& (#[trigger] d@.fields[i]).data_type == t
                &&& d@.fields[i].name == name_of(t)
                &&& d@.fields[i].alias is None
            },
{
    let kinds = [
        PrimitiveKind::Int32,
        PrimitiveKind::Boolean,
        PrimitiveKind::Float32,
        PrimitiveKind::Float64,
        PrimitiveKind::Int64,
        PrimitiveKind::Utf8,
        PrimitiveKind::Timestamp,
        PrimitiveKind::Binary,
    ];
    let mut fields: Vec<StructField> = Vec::new();
    let mut pair: usize = 0;
    while pair < 8
        invariant
            pair <= 8,
            fields@.len() == 2 * pair,
            forall|p: int| 0 <= p < 8 ==> #[trigger] kinds@[p] == kind_of_pair(p),
            forall|i: int|
                0 <= i < 2 * pair ==> {
                    let t = TypeDef { kind: kind_of_pair(i / 2), nullable: i % 2 == 1 };
                    &&& (#[trigger] fields@[i])@.data_type == t
                    &&& fields@[i]@.name == name_of(t)
                    &&& fields@[i]@.alias is None
                },
        decreases 8 - pair,
    {
        fields.push(named_field(kinds[pair], false));
        fields.push(named_field(kinds[pair], true));
        pair += 1;
    }
    let d = StructDef { name: Some("TestStruct".to_owned()), fields };
    assert forall|i: int| 0 <= i < 16 implies {
        let t = TypeDef { kind: kind_of_pair(i / 2), nullable: i % 2 == 1 };
        &&& (#[trigger] d@.fields[i]).data_type == t
        &&& d@.fields[i].name == name_of(t)
        &&& d@.fields[i].alias is None
    } by {
        assert(d@.fields[i] == fields@[i]@);
    }
    d
}

} // verus!
