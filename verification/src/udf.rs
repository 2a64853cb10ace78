//! The registrar of user-defined functions: reads the signatures out of the source of
//! function definitions and puts the functions into the catalog.

use vstd::prelude::*;
use quote::ToTokens;
use crate::catalog::ArroyoSchemaProvider;
use crate::error::{failure, ErrorKind, Failure, SqlError};
use crate::tables::{ScalarFunction, SqlType, UdfDef};
use crate::text::{chars_match, strip_whitespace, without_whitespace};
use crate::types::{opt_view, PrimitiveKind, TypeDef};

verus! {

/// A parsed file of Rust source.
#[verifier::external_type_specification]
#[verifier::external_body]
pub struct ExFile(syn::File);

/// One item of a source file, as far as the registrar reads it: whether it is a function,
/// and for a function its name, the type of each argument as text (none for a `self`
/// receiver), the return type as text where one is declared, and the text of its
/// attributes, of its signature and of its body.
pub struct ItemView {
    pub function: bool,
    pub name: Seq<char>,
    pub args: Seq<Option<Seq<char>>>,
    pub ret: Option<Seq<char>>,
    pub attributes: Seq<Seq<char>>,
    pub signature: Seq<char>,
    pub block: Seq<char>,
}

/// The items that a text holds where it parses as a file of Rust source, in order.
pub uninterp spec fn source_items(body: Seq<char>) -> Option<Seq<ItemView>>;

/// The items of a parsed file, in order.
pub uninterp spec fn file_items(file: syn::File) -> Seq<ItemView>;

/// Calls `syn::parse_file`, which parses the text as a file of Rust source; a text that
/// does not parse gives nothing. The items of the file depend on the text alone.
#[verifier::external_body]
fn parse_source(body: &str) -> (r: Option<syn::File>)
    ensures
        match r {
            Some(file) => source_items(body@) == Some(file_items(file)),
            None => source_items(body@) is None,
        },
{
    syn::parse_file(body).ok()
}

/// The length of `syn::File::items`.
#[verifier::external_body]
fn item_count(file: &syn::File) -> (n: usize)
    ensures
        n == file_items(*file).len(),
{
    file.items.len()
}

/// The identifier of item `i` where that is `syn::Item::Fn`, from `Signature::ident`;
/// nothing for any other item.
#[verifier::external_body]
fn fn_name(file: &syn::File, i: usize) -> (r: Option<String>)
    requires
        i < file_items(*file).len(),
    ensures
        r is Some == file_items(*file)[i as int].function,
        r matches Some(name) ==> name@ == file_items(*file)[i as int].name,
{
    match &file.items[i] {
        syn::Item::Fn(f) => Some(f.sig.ident.to_string()),
        _ => None,
    }
}

/// The length of `Signature::inputs` of the function that is item `i`.
#[verifier::external_body]
fn fn_arg_count(file: &syn::File, i: usize) -> (n: usize)
    requires
        i < file_items(*file).len(),
        file_items(*file)[i as int].function,
    ensures
        n == file_items(*file)[i as int].args.len(),
{
    match &file.items[i] {
        syn::Item::Fn(f) => f.sig.inputs.len(),
        _ => 0,
    }
}

/// The tokens of the type of argument `j` of the function that is item `i`, as text, from
/// `PatType::ty`; nothing where the argument is `FnArg::Receiver`.
#[verifier::external_body]
fn fn_arg_type(file: &syn::File, i: usize, j: usize) -> (r: Option<String>)
    requires
        i < file_items(*file).len(),
        file_items(*file)[i as int].function,
        j < file_items(*file)[i as int].args.len(),
    ensures
        opt_view(r) == file_items(*file)[i as int].args[j as int],
{
    match &file.items[i] {
        syn::Item::Fn(f) => match &f.sig.inputs[j] {
            syn::FnArg::Typed(t) => Some(t.ty.to_token_stream().to_string()),
            syn::FnArg::Receiver(_) => None,
        },
        _ => None,
    }
}

/// The tokens of the return type of the function that is item `i`, as text, from
/// `Signature::output`; nothing where that is `ReturnType::Default`.
#[verifier::external_body]
fn fn_return_type(file: &syn::File, i: usize) -> (r: Option<String>)
    requires
        i < file_items(*file).len(),
        file_items(*file)[i as int].function,
    ensures
        opt_view(r) == file_items(*file)[i as int].ret,
{
    match &file.items[i] {
        syn::Item::Fn(f) => match &f.sig.output {
            syn::ReturnType::Type(_, t) => Some(t.to_token_stream().to_string()),
            syn::ReturnType::Default => None,
        },
        _ => None,
    }
}

/// The length of `ItemFn::attrs` of the function that is item `i`.
#[verifier::external_body]
fn fn_attribute_count(file: &syn::File, i: usize) -> (n: usize)
    requires
        i < file_items(*file).len(),
        file_items(*file)[i as int].function,
    ensures
        n == file_items(*file)[i as int].attributes.len(),
{
    match &file.items[i] {
        syn::Item::Fn(f) => f.attrs.len(),
        _ => 0,
    }
}

/// The tokens of attribute `k` of the function that is item `i`, as text.
#[verifier::external_body]
fn fn_attribute(file: &syn::File, i: usize, k: usize) -> (r: String)
    requires
        i < file_items(*file).len(),
        file_items(*file)[i as int].function,
        k < file_items(*file)[i as int].attributes.len(),
    ensures
        r@ == file_items(*file)[i as int].attributes[k as int],
{
    match &file.items[i] {
        syn::Item::Fn(f) => f.attrs[k].to_token_stream().to_string(),
        _ => String::new(),
    }
}

/// The tokens of `ItemFn::sig` of the function that is item `i`, as text: the signature
/// without the visibility.
#[verifier::external_body]
fn fn_signature(file: &syn::File, i: usize) -> (r: String)
    requires
        i < file_items(*file).len(),
        file_items(*file)[i as int].function,
    ensures
        r@ == file_items(*file)[i as int].signature,
{
    match &file.items[i] {
        syn::Item::Fn(f) => f.sig.to_token_stream().to_string(),
        _ => String::new(),
    }
}

/// The tokens of `ItemFn::block` of the function that is item `i`, as text.
#[verifier::external_body]
fn fn_block(file: &syn::File, i: usize) -> (r: String)
    requires
        i < file_items(*file).len(),
        file_items(*file)[i as int].function,
    ensures
        r@ == file_items(*file)[i as int].block,
{
    match &file.items[i] {
        syn::Item::Fn(f) => f.block.to_token_stream().to_string(),
        _ => String::new(),
    }
}

/// One item of a source file, as plain values.
#[derive(Debug)]
pub struct FnSyntax {
    pub function: bool,
    pub name: String,
    pub args: Vec<Option<String>>,
    pub ret: Option<String>,
    pub attributes: Vec<String>,
    pub signature: String,
    pub block: String,
}

/// The texts, each with a blank after it, one after the other.
pub open spec fn spaced(texts: Seq<Seq<char>>, n: int) -> Seq<char>
    decreases n,
{
    if n <= 0 || n > texts.len() {
        Seq::empty()
    } else {
        spaced(texts, n - 1) + texts[n - 1] + " "@
    }
}

/// The source of a function made public: its attributes, `pub`, its signature and its
/// body, with blanks between them.
pub open spec fn public_source(item: ItemView) -> Seq<char> {
    spaced(item.attributes, item.attributes.len() as int) + "pub "@ + item.signature + " "@
        + item.block
}

impl View for FnSyntax {
    type V = ItemView;

    open spec fn view(&self) -> ItemView {
        ItemView {
            function: self.function,
            name: self.name@,
            args: Seq::new(self.args@.len(), |i: int| opt_view(self.args@[i])),
            ret: opt_view(self.ret),
            attributes: Seq::new(self.attributes@.len(), |i: int| self.attributes@[i]@),
            signature: self.signature@,
            block: self.block@,
        }
    }
}

impl FnSyntax {
    /// The source of the function made public.
    pub fn public_source(&self) -> (r: String)
        ensures
            r@ == public_source(self@),
    {
        let mut r = String::new();
        let mut i: usize = 0;
        assert(r@ =~= spaced(self@.attributes, 0));
        while i < self.attributes.len()
            invariant
                i <= self.attributes.len(),
                r@ == spaced(self@.attributes, i as int),
            decreases self.attributes.len() - i,
        {
            r = r.concat(self.attributes[i].as_str()).concat(" ");
            i += 1;
        }
        r.concat("pub ").concat(self.signature.as_str()).concat(" ").concat(self.block.as_str())
    }
}

/// What the catalog knows of a scalar function, as mathematical values.
pub struct FunctionView {
    pub name: Seq<char>,
    pub args: Seq<SqlType>,
    pub return_type: SqlType,
    pub return_nullable: bool,
    pub built_in: bool,
}

impl View for ScalarFunction {
    type V = FunctionView;

    open spec fn view(&self) -> FunctionView {
        FunctionView {
            name: self.name@,
            args: self.args@,
            return_type: self.return_type,
            return_nullable: self.return_nullable,
            built_in: self.built_in,
        }
    }
}

/// The definition of a user function, as mathematical values.
pub struct UdfView {
    pub args: Seq<TypeDef>,
    pub ret: TypeDef,
    pub def: Seq<char>,
}

impl View for UdfDef {
    type V = UdfView;

    open spec fn view(&self) -> UdfView {
        UdfView { args: self.args@, ret: self.ret, def: self.def@ }
    }
}

/// The functions of a catalog and the definitions of its user functions.
#[verifier::ext_equal]
pub struct RegistryView {
    pub functions: Map<Seq<char>, FunctionView>,
    pub udfs: Map<Seq<char>, UdfView>,
}

/// The kind that a Rust type stands for.
pub open spec fn kind_named(s: Seq<char>) -> Option<PrimitiveKind> {
    if s == "i32"@ {
        Some(PrimitiveKind::Int32)
    } else if s == "i64"@ {
        Some(PrimitiveKind::Int64)
    } else if s == "f32"@ {
        Some(PrimitiveKind::Float32)
    } else if s == "f64"@ {
        Some(PrimitiveKind::Float64)
    } else if s == "bool"@ {
        Some(PrimitiveKind::Boolean)
    } else if s == "String"@ {
        Some(PrimitiveKind::Utf8)
    } else if s == "SystemTime"@ || s == "std::time::SystemTime"@ {
        Some(PrimitiveKind::Timestamp)
    } else if s == "Vec<u8>"@ {
        Some(PrimitiveKind::Binary)
    } else {
        None
    }
}

/// The type that the text of a Rust type stands for, whitespace aside: `Option` of a type
/// is that type, nullable.
pub open spec fn type_named(text: Seq<char>) -> Option<TypeDef> {
    let s = without_whitespace(text);
    if s.len() >= 8 && s.subrange(0, 7) == "Option<"@ && s.last() == '>' {
        match kind_named(s.subrange(7, s.len() - 1)) {
            Some(kind) => Some(TypeDef { kind, nullable: true }),
            None => None,
        }
    } else {
        match kind_named(s) {
            Some(kind) => Some(TypeDef { kind, nullable: false }),
            None => None,
        }
    }
}

fn parse_kind(v: &Vec<char>, from: usize, to: usize) -> (r: Option<PrimitiveKind>)
    requires
        from <= to <= v.len(),
    ensures
        r == kind_named(v@.subrange(from as int, to as int)),
{
    if chars_match(v, from, to, "i32") {
        Some(PrimitiveKind::Int32)
    } else if chars_match(v, from, to, "i64") {
        Some(PrimitiveKind::Int64)
    } else if chars_match(v, from, to, "f32") {
        Some(PrimitiveKind::Float32)
    } else if chars_match(v, from, to, "f64") {
        Some(PrimitiveKind::Float64)
    } else if chars_match(v, from, to, "bool") {
        Some(PrimitiveKind::Boolean)
    } else if chars_match(v, from, to, "String") {
        Some(PrimitiveKind::Utf8)
    } else if chars_match(v, from, to, "SystemTime") || chars_match(
        v,
        from,
        to,
        "std::time::SystemTime",
    ) {
        Some(PrimitiveKind::Timestamp)
    } else if chars_match(v, from, to, "Vec<u8>") {
        Some(PrimitiveKind::Binary)
    } else {
        None
    }
}

/// The type that the text of a Rust type stands for.
pub fn parse_type(text: &str) -> (r: Option<TypeDef>)
    ensures
        r == type_named(text@),
{
    let v = strip_whitespace(text);
    let n = v.len();
    if n >= 8 && chars_match(&v, 0, 7, "Option<") && v[n - 1] == '>' {
        match parse_kind(&v, 7, n - 1) {
            Some(kind) => Some(TypeDef { kind, nullable: true }),
            None => None,
        }
    } else {
        assert(v@.subrange(0, n as int) =~= v@);
        match parse_kind(&v, 0, n) {
            Some(kind) => Some(TypeDef { kind, nullable: false }),
            None => None,
        }
    }
}

} // verus!

verus! {

/// The types of the first `n` arguments of the function `name`. A `self` receiver is no
/// argument of a function that stands alone, and a type without a kind is none the
/// catalog can take.
pub open spec fn arg_types(name: Seq<char>, args: Seq<Option<Seq<char>>>, n: int) -> Result<
    Seq<TypeDef>,
    Failure,
>
    decreases n,
{
    if n <= 0 || n > args.len() {
        Ok(Seq::empty())
    } else {
        match arg_types(name, args, n - 1) {
            Err(e) => Err(e),
            Ok(front) => match args[n - 1] {
                None => Err(failure(ErrorKind::InvalidSelfParameter, name)),
                Some(text) => match type_named(text) {
                    None => Err(failure(ErrorKind::UnsupportedType, text)),
                    Some(t) => Ok(front.push(t)),
                },
            },
        }
    }
}

/// Whether an argument has a type the catalog can take.
pub open spec fn supported(arg: Option<Seq<char>>) -> bool {
    match arg {
        Some(text) => type_named(text) is Some,
        None => false,
    }
}

/// The signature of an item: the types of its arguments and of its result.
pub open spec fn signature_of(item: ItemView) -> Result<(Seq<TypeDef>, TypeDef), Failure> {
    if !item.function {
        Err(failure(ErrorKind::UnsupportedConstruct, "not a function"@))
    } else {
        match arg_types(item.name, item.args, item.args.len() as int) {
            Err(e) => Err(e),
            Ok(args) => match item.ret {
                None => Err(failure(ErrorKind::MissingReturnType, item.name)),
                Some(text) => match type_named(text) {
                    None => Err(failure(ErrorKind::UnsupportedType, text)),
                    Some(ret) => Ok((args, ret)),
                },
            },
        }
    }
}

/// The scalar function that a user function of the given signature is registered as.
pub open spec fn function_of(name: Seq<char>, args: Seq<TypeDef>, ret: TypeDef) -> FunctionView {
    FunctionView {
        name,
        args: Seq::new(args.len(), |i: int| SqlType::Primitive(args[i].kind)),
        return_type: SqlType::Primitive(ret.kind),
        return_nullable: ret.nullable,
        built_in: false,
    }
}

/// The registry after an item was registered, and why it was not where it was not. A name
/// that a function already has is refused, and the function that has it stays.
pub open spec fn register(r: RegistryView, item: ItemView) -> (RegistryView, Option<Failure>) {
    match signature_of(item) {
        Err(e) => (r, Some(e)),
        Ok((args, ret)) => if r.functions.contains_key(item.name) {
            (r, Some(failure(ErrorKind::NameCollision, item.name)))
        } else {
            (
                RegistryView {
                    functions: r.functions.insert(item.name, function_of(item.name, args, ret)),
                    udfs: r.udfs.insert(
                        item.name,
                        UdfView { args, ret, def: public_source(item) },
                    ),
                },
                None,
            )
        },
    }
}

/// The registry after the first `n` items were registered in order, up to the first that
/// was refused, and why that one was.
pub open spec fn register_first(r: RegistryView, items: Seq<ItemView>, n: int) -> (
    RegistryView,
    Option<Failure>,
)
    decreases n,
{
    if n <= 0 || n > items.len() {
        (r, None)
    } else {
        let (before, failure) = register_first(r, items, n - 1);
        if failure is Some {
            (before, failure)
        } else {
            register(before, items[n - 1])
        }
    }
}

/// Once an item among the first `n` was refused, the items after it change nothing.
pub proof fn lemma_register_first_fails(r: RegistryView, items: Seq<ItemView>, n: int, m: int)
    requires
        0 <= n <= m <= items.len(),
        register_first(r, items, n).1 is Some,
    ensures
        register_first(r, items, m) == register_first(r, items, n),
    decreases m - n,
{
    if n < m {
        lemma_register_first_fails(r, items, n, m - 1);
    }
}

/// Once an argument among the first `n` was refused, the arguments after it change nothing.
pub proof fn lemma_arg_types_fails(
    name: Seq<char>,
    args: Seq<Option<Seq<char>>>,
    n: int,
    m: int,
)
    requires
        0 <= n <= m <= args.len(),
        arg_types(name, args, n) is Err,
    ensures
        arg_types(name, args, m) == arg_types(name, args, n),
    decreases m - n,
{
    if n < m {
        lemma_arg_types_fails(name, args, n, m - 1);
    }
}

/// A function under the name of a built-in function is refused as a collision, whatever
/// its signature, so long as that is one the catalog could take.
pub proof fn lemma_built_in_collides(catalog: ArroyoSchemaProvider, item: ItemView)
    requires
        catalog.wf(),
        crate::catalog::built_in(item.name),
        signature_of(item) is Ok,
    ensures
        register(catalog.registry(), item) == (
            catalog.registry(),
            Some(failure(ErrorKind::NameCollision, item.name)),
        ),
{
    assert(catalog.functions@.contains_key(item.name));
}

/// A function with a `self` receiver is refused for it, where the arguments before the
/// receiver have types the catalog can take.
pub proof fn lemma_receiver_refused(r: RegistryView, item: ItemView, at: int)
    requires
        item.function,
        0 <= at < item.args.len(),
        item.args[at] is None,
        forall|j: int| 0 <= j < at ==> supported(#[trigger] item.args[j]),
    ensures
        register(r, item) == (r, Some(failure(ErrorKind::InvalidSelfParameter, item.name))),
{
    lemma_arg_types_ok(item.name, item.args, at);
    lemma_arg_types_fails(item.name, item.args, at + 1, item.args.len() as int);
}

/// Arguments that all have types the catalog can take have their types.
pub proof fn lemma_arg_types_ok(name: Seq<char>, args: Seq<Option<Seq<char>>>, n: int)
    requires
        0 <= n <= args.len(),
        forall|j: int| 0 <= j < n ==> supported(#[trigger] args[j]),
    ensures
        arg_types(name, args, n) is Ok,
    decreases n,
{
    if n > 0 {
        lemma_arg_types_ok(name, args, n - 1);
    }
}

impl ArroyoSchemaProvider {
    /// The functions and the user functions' definitions, as mathematical values.
    pub open spec fn registry(&self) -> RegistryView {
        RegistryView {
            functions: self.functions@.map_values(|f: ScalarFunction| f@),
            udfs: self.udf_defs@.map_values(|u: UdfDef| u@),
        }
    }

    /// Registers one item of a source file: a function whose arguments and result have
    /// types of the catalog, under a name that no function has yet.
    #[verifier::loop_isolation(false)]
    pub fn register_udf(&mut self, item: &FnSyntax) -> (r: Result<(), SqlError>)
        ensures
            old(self).wf() ==> final(self).wf(),
            final(self).tables == old(self).tables,
            final(self).connections == old(self).connections,
            final(self).source_defs == old(self).source_defs,
            final(self).registry() == register(old(self).registry(), item@).0,
            match r {
                Ok(()) => register(old(self).registry(), item@).1 is None,
                Err(e) => register(old(self).registry(), item@).1 == Some(e@),
            },
    {
        if !item.function {
            return Err(SqlError::new(ErrorKind::UnsupportedConstruct, "not a function"));
        }
        let mut args: Vec<TypeDef> = Vec::new();
        let mut params: Vec<SqlType> = Vec::new();
        let mut i: usize = 0;
        while i < item.args.len()
            invariant
                i <= item.args.len(),
                arg_types(item@.name, item@.args, i as int) == Ok::<Seq<TypeDef>, Failure>(args@),
                *self == *old(self),
                item.function,
                args@.len() == i,
                params@.len() == i,
                forall|j: int| 0 <= j < i ==> #[trigger] params@[j] == SqlType::Primitive(args@[j].kind),
            decreases item.args.len() - i,
        {
            let t = match &item.args[i] {
                None => {
                    proof {
                        lemma_arg_types_fails(
                            item@.name,
                            item@.args,
                            i + 1,
                            item@.args.len() as int,
                        );
                    }
                    return Err(SqlError::new(ErrorKind::InvalidSelfParameter, item.name.as_str()));
                },
                Some(text) => match parse_type(text.as_str()) {
                    None => {
                        proof {
                            lemma_arg_types_fails(
                            item@.name,
                            item@.args,
                            i + 1,
                            item@.args.len() as int,
                        );
                        }
                        return Err(SqlError::new(ErrorKind::UnsupportedType, text.as_str()));
                    },
                    Some(t) => t,
                },
            };
            args.push(t);
            params.push(SqlType::Primitive(t.kind));
            i += 1;
        }
        let ret = match &item.ret {
            None => {
                return Err(SqlError::new(ErrorKind::MissingReturnType, item.name.as_str()));
            },
            Some(text) => match parse_type(text.as_str()) {
                None => {
                    return Err(SqlError::new(ErrorKind::UnsupportedType, text.as_str()));
                },
                Some(t) => t,
            },
        };
        if self.functions.contains_key(item.name.as_str()) {
            return Err(SqlError::new(ErrorKind::NameCollision, item.name.as_str()));
        }
        let ghost before = self.registry();
        let function = ScalarFunction {
            name: item.name.clone(),
            args: params,
            return_type: SqlType::Primitive(ret.kind),
            return_nullable: ret.nullable,
            built_in: false,
        };
        let def = UdfDef { args, ret, def: item.public_source() };
        proof {
            assert(function@.args =~= function_of(item@.name, args@, ret).args);
        }
        self.functions.insert(item.name.clone(), function);
        self.udf_defs.insert(item.name.clone(), def);
        proof {
            assert(self.registry().functions =~= before.functions.insert(item@.name, function@));
            assert(self.registry().udfs =~= before.udfs.insert(item@.name, def@));
            if old(self).wf() {
                assert forall|k: Seq<char>| crate::catalog::built_in(k) implies #[trigger]
                    self.functions@.contains_key(k) && crate::catalog::is_built_in(
                    self.functions@[k],
                    k,
                ) by {
                    assert(old(self).functions@.contains_key(k));
                }
            }
        }
        Ok(())
    }

    /// Reads the items of a source file one by one, and registers each function. The first
    /// item that is refused ends it; the functions before it stay registered.
    #[verifier::loop_isolation(false)]
    pub fn add_rust_udf(&mut self, body: &str) -> (r: Result<(), SqlError>)
        ensures
            old(self).wf() ==> final(self).wf(),
            final(self).tables == old(self).tables,
            final(self).connections == old(self).connections,
            final(self).source_defs == old(self).source_defs,
            match source_items(body@) {
                None => final(self).registry() == old(self).registry() && (r matches Err(e)
                    && e@ == failure(ErrorKind::SyntaxError, "source does not parse"@)),
                Some(items) => {
                    let (end, failure) = register_first(
                        old(self).registry(),
                        items,
                        items.len() as int,
                    );
                    &&& final(self).registry() == end
                    &&& match r {
                        Ok(()) => failure is None,
                        Err(e) => failure == Some(e@),
                    }
                },
            },
    {
        let file = match parse_source(body) {
            Some(f) => f,
            None => {
                return Err(SqlError::new(ErrorKind::SyntaxError, "source does not parse"));
            },
        };
        let ghost start = self.registry();
        let ghost items = file_items(file);
        let n = item_count(&file);
        let mut i: usize = 0;
        while i < n
            invariant
                i <= n,
                n == items.len(),
                items == file_items(file),
                old(self).wf() ==> self.wf(),
                self.tables == old(self).tables,
                self.connections == old(self).connections,
                self.source_defs == old(self).source_defs,
                register_first(start, items, i as int) == (self.registry(), None::<Failure>),
            decreases n - i,
        {
            let item = read_item(&file, i);
            assert(register(self.registry(), item@) == register(self.registry(), items[i as int]));
            match self.register_udf(&item) {
                Ok(()) => {},
                Err(e) => {
                    proof {
                        lemma_register_first_fails(start, items, i + 1, n as int);
                    }
                    return Err(e);
                },
            }
            i += 1;
        }
        Ok(())
    }
}

/// Reads item `i` of a parsed file into plain values.
fn read_item(file: &syn::File, i: usize) -> (item: FnSyntax)
    requires
        i < file_items(*file).len(),
    ensures
        file_items(*file)[i as int].function ==> item@ == file_items(*file)[i as int],
        item.function == file_items(*file)[i as int].function,
{
    let name = match fn_name(file, i) {
        Some(name) => name,
        None => {
            return FnSyntax {
                function: false,
                name: String::new(),
                args: Vec::new(),
                ret: None,
                attributes: Vec::new(),
                signature: String::new(),
                block: String::new(),
            };
        },
    };
    let n = fn_arg_count(file, i);
    let mut args: Vec<Option<String>> = Vec::new();
    let mut j: usize = 0;
    while j < n
        invariant
            j <= n,
            i < file_items(*file).len(),
            file_items(*file)[i as int].function,
            n == file_items(*file)[i as int].args.len(),
            args@.len() == j,
            forall|k: int|
                0 <= k < j ==> opt_view(#[trigger] args@[k]) == file_items(*file)[i as int].args[k],
        decreases n - j,
    {
        args.push(fn_arg_type(file, i, j));
        j += 1;
    }
    let m = fn_attribute_count(file, i);
    let mut attributes: Vec<String> = Vec::new();
    let mut k: usize = 0;
    while k < m
        invariant
            k <= m,
            i < file_items(*file).len(),
            file_items(*file)[i as int].function,
            m == file_items(*file)[i as int].attributes.len(),
            attributes@.len() == k,
            forall|j: int|
                0 <= j < k ==> (#[trigger] attributes@[j])@ == file_items(
                    *file,
                )[i as int].attributes[j],
        decreases m - k,
    {
        attributes.push(fn_attribute(file, i, k));
        k += 1;
    }
    let item = FnSyntax {
        function: true,
        name,
        args,
        ret: fn_return_type(file, i),
        attributes,
        signature: fn_signature(file, i),
        block: fn_block(file, i),
    };
    assert(item@.args =~= file_items(*file)[i as int].args);
    assert(item@.attributes =~= file_items(*file)[i as int].attributes);
    item
}

} // verus!
