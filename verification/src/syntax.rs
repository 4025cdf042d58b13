//! The boundary to the `syn` parser and to `proc_macro2`: the parsed
//! declaration as an opaque value, the few reads of it that the library
//! needs, and the rendering of a string literal. No contract of a function
//! in this file is proved; each states what the outside source shows.
//!
//! Both crates are built without their `proc-macro` feature. `proc_macro2`
//! then compiles its own lexer, literals and spans alone and never hands
//! over to a compiler's, so what it returns depends on its arguments only.

use vstd::prelude::*;

verus! {

/// The kind tag of a type declaration.
#[derive(Clone, Copy, Debug, PartialEq, Eq, Structural)]
pub enum DeclKind {
    Struct,
    Enum,
    Union,
}

/// What the library reads of a parsed declaration: its name, its kind tag and
/// the names of its members in declaration order (`None` for a positional
/// member).
pub struct Declaration {
    pub name: Seq<char>,
    pub kind: DeclKind,
    pub members: Seq<Option<Seq<char>>>,
}

/// `syn::DeriveInput`, the syntax tree of one type declaration.
#[verifier::external_type_specification]
#[verifier::external_body]
pub struct ExDeriveInput(syn::DeriveInput);

/// What `syn::parse_str::<syn::DeriveInput>` makes of a text: the declaration
/// it parses to, or `None` where it reports an error.
pub uninterp spec fn parsed_declaration(text: Seq<char>) -> Option<Declaration>;

/// What a syntax tree holds: the text of its `ident`, the variant of its
/// `data`, and the text of each field's or variant's `ident`.
pub uninterp spec fn declaration(tree: syn::DeriveInput) -> Declaration;

/// What `syn::parse_str::<syn::DeriveInput>` reports of a text that it does
/// not accept: the error's message, and line and column of the start of the
/// error's span in the text.
pub uninterp spec fn parse_failure(text: Seq<char>) -> (Seq<char>, nat, nat);

/// Calls `syn::parse_str::<syn::DeriveInput>`. The outcome is a function of
/// the text alone. Of an accepted enum or union every member has a name: a
/// variant's `ident` is not optional, and the parser reads a union's fields
/// with `Field::parse_named`, which always sets `ident`. An error is handed
/// on as its `to_string` and the `start` of its `span`, read here, on the
/// thread that made it.
#[verifier::external_body]
pub(crate) fn parse_declaration(text: &str) -> (r: Result<syn::DeriveInput, (String, usize, usize)>)
    ensures
        r is Ok <==> parsed_declaration(text@) is Some,
        r matches Ok(tree) ==> parsed_declaration(text@) == Some(declaration(tree)),
        r matches Ok(tree) ==> declaration(tree).kind != DeclKind::Struct ==> forall|i: int|
            0 <= i < declaration(tree).members.len() ==> declaration(tree).members[i] is Some,
        r matches Err(e) ==> (e.0@, e.1 as nat, e.2 as nat) == parse_failure(text@),
{
    match syn::parse_str::<syn::DeriveInput>(text) {
        Ok(tree) => Ok(tree),
        Err(error) => {
            let start = error.span().start();
            Err((error.to_string(), start.line, start.column))
        },
    }
}

/// Reads `ident` of the tree and renders it with `Ident`'s `to_string`.
#[verifier::external_body]
pub(crate) fn declared_name(tree: &syn::DeriveInput) -> (r: String)
    ensures
        r@ == declaration(*tree).name,
{
    tree.ident.to_string()
}

/// Tells the three variants of `syn::Data` apart.
#[verifier::external_body]
pub(crate) fn declared_kind(tree: &syn::DeriveInput) -> (r: DeclKind)
    ensures
        r == declaration(*tree).kind,
{
    match &tree.data {
        syn::Data::Struct(_) => DeclKind::Struct,
        syn::Data::Enum(_) => DeclKind::Enum,
        syn::Data::Union(_) => DeclKind::Union,
    }
}

/// Calls `len` on the fields of a struct or union, or on the variants of an
/// enum.
#[verifier::external_body]
pub(crate) fn member_count(tree: &syn::DeriveInput) -> (r: usize)
    ensures
        r == declaration(*tree).members.len(),
{
    match &tree.data {
        syn::Data::Struct(data) => data.fields.len(),
        syn::Data::Enum(data) => data.variants.len(),
        syn::Data::Union(data) => data.fields.named.len(),
    }
}

/// Reads `ident` of the field or variant at `index`, in declaration order,
/// and renders it with `Ident`'s `to_string`. A field's `ident` is optional,
/// a variant's is not.
#[verifier::external_body]
pub(crate) fn member_name(tree: &syn::DeriveInput, index: usize) -> (r: Option<String>)
    requires
        index < declaration(*tree).members.len(),
    ensures
        r is Some <==> declaration(*tree).members[index as int] is Some,
        r matches Some(name) ==> declaration(*tree).members[index as int] == Some(name@),
        declaration(*tree).kind == DeclKind::Enum ==> r is Some,
{
    let ident = match &tree.data {
        syn::Data::Struct(data) => data.fields.iter().nth(index).and_then(|f| f.ident.as_ref()),
        syn::Data::Enum(data) => data.variants.iter().nth(index).map(|v| &v.ident),
        syn::Data::Union(data) => data.fields.named.iter().nth(index).and_then(|f| f.ident.as_ref()),
    };
    ident.map(|name| name.to_string())
}

/// The source text of the string literal that `proc_macro2::Literal::string`
/// makes of a text: the text quoted and escaped.
pub uninterp spec fn string_literal(text: Seq<char>) -> Seq<char>;

/// Calls `proc_macro2::Literal::string` and renders the token with its
/// `to_string`. The literal is a function of the text alone.
#[verifier::external_body]
pub(crate) fn literal_text(text: &str) -> (r: String)
    ensures
        r@ == string_literal(text@),
{
    proc_macro2::Literal::string(text).to_string()
}

} // verus!
