//! A parsed type declaration and the classification of its members.

use crate::accessor::{AccessorView, GeneratedAccessor};
use crate::members::{
    count_named, lemma_accessor_name_selection, lemma_named_members_complete,
    lemma_named_members_len, lemma_named_members_push, named_members, Shape,
};
use crate::syntax::{
    declaration, declared_kind, declared_name, member_count, member_name, parse_declaration,
    parse_failure, parsed_declaration, DeclKind, Declaration,
};
use vstd::prelude::*;

verus! {

impl Declaration {
    /// Classification goes by the kind tag alone: a struct is an aggregate
    /// and keeps its positional members, an enum is a tagged union, a union
    /// is a named union; of the latter two only names are kept.
    pub open spec fn shape(self) -> Shape {
        match self.kind {
            DeclKind::Struct => Shape::Aggregate(self.members),
            DeclKind::Enum => Shape::TaggedUnion(named_members(self.members)),
            DeclKind::Union => Shape::NamedUnion(named_members(self.members)),
        }
    }

    /// The accessor generated for the declaration.
    pub open spec fn accessor(self) -> AccessorView {
        AccessorView::of(self.name, self.shape())
    }

    /// No member lacks a name.
    pub open spec fn every_member_named(self) -> bool {
        forall|i: int| 0 <= i < self.members.len() ==> self.members[i] is Some
    }

    /// Classification drops nothing: a struct always, an enum or union where
    /// every member is named, as it is in every parsed one.
    pub open spec fn keeps_all_members(self) -> bool {
        self.kind == DeclKind::Struct || self.every_member_named()
    }
}

/// A text that is no type declaration: the parser's message and where the
/// offending input starts (lines count from one, columns from zero).
#[derive(Clone, Debug, PartialEq, Eq)]
pub struct SyntaxError {
    pub message: String,
    pub line: usize,
    pub column: usize,
}

/// The members of a declaration, by its shape: the fields of a struct, each
/// optionally named; the variants of an enum; the fields of a union.
#[derive(Clone, Debug, PartialEq, Eq)]
pub enum ReflectiveInputType {
    Fields(Vec<Option<String>>),
    Variants(Vec<String>),
    UnionFields(Vec<String>),
}

impl View for ReflectiveInputType {
    type V = Shape;

    open spec fn view(&self) -> Shape {
        match self {
            ReflectiveInputType::Fields(fields) => Shape::Aggregate(fields.deep_view()),
            ReflectiveInputType::Variants(variants) => Shape::TaggedUnion(variants.deep_view()),
            ReflectiveInputType::UnionFields(fields) => Shape::NamedUnion(fields.deep_view()),
        }
    }
}

/// Copies a list of names.
fn copy_names(names: &Vec<String>) -> (r: Vec<String>)
    ensures
        r.deep_view() == names.deep_view(),
{
    let mut copy: Vec<String> = Vec::new();
    let mut i: usize = 0;
    while i < names.len()
        invariant
            i <= names.len(),
            copy.deep_view() == names.deep_view().take(i as int),
        decreases names.len() - i,
    {
        let ghost before = copy.deep_view();
        copy.push(names[i].clone());
        assert(copy.deep_view() =~= before.push(names[i as int]@));
        assert(names.deep_view().take(i + 1) =~= before.push(names[i as int]@));
        i += 1;
    }
    assert(names.deep_view().take(i as int) =~= names.deep_view());
    copy
}

/// The names of the members that have one, in their order; a member without
/// a name is skipped.
pub fn extract_named(members: &Vec<Option<String>>) -> (r: Vec<String>)
    ensures
        r.deep_view() == named_members(members.deep_view()),
{
    let ghost all = members.deep_view();
    let mut names: Vec<String> = Vec::new();
    let mut i: usize = 0;
    assert(names.deep_view() =~= named_members(all.take(0)));
    while i < members.len()
        invariant
            i <= members.len(),
            all == members.deep_view(),
            names.deep_view() == named_members(all.take(i as int)),
        decreases members.len() - i,
    {
        let ghost before = names.deep_view();
        proof {
            assert(all.take(i + 1) =~= all.take(i as int).push(all[i as int]));
            lemma_named_members_push(all.take(i as int), all[i as int]);
        }
        match &members[i] {
            Some(name) => {
                names.push(name.clone());
                assert(names.deep_view() =~= before.push(name@));
            },
            None => {},
        }
        i += 1;
    }
    assert(all.take(i as int) =~= all);
    names
}

impl ReflectiveInputType {
    /// The name of the accessor for members of this shape.
    pub fn accessor_name(&self) -> (r: &'static str)
        ensures
            r@ == self@.accessor_name(),
    {
        match self {
            ReflectiveInputType::Variants(_) => "get_variants",
            _ => "get_fields",
        }
    }

    /// The member names that the accessor lists, in declaration order.
    pub fn member_names(&self) -> (r: Vec<String>)
        ensures
            r.deep_view() == self@.names(),
    {
        match self {
            ReflectiveInputType::Fields(fields) => extract_named(fields),
            ReflectiveInputType::Variants(variants) => copy_names(variants),
            ReflectiveInputType::UnionFields(fields) => copy_names(fields),
        }
    }
}

/// Extraction is a function of the members alone: any two lists that it may
/// return for the same members agree in length and, entry by entry, in
/// every character.
pub proof fn lemma_extraction_deterministic(
    items: ReflectiveInputType,
    first: Vec<String>,
    second: Vec<String>,
)
    requires
        first.deep_view() == items@.names(),
        second.deep_view() == items@.names(),
    ensures
        first@.len() == second@.len(),
        forall|i: int| 0 <= i < first@.len() ==> first@[i]@ == second@[i]@,
{
    assert(first.deep_view().len() == first@.len());
    assert(second.deep_view().len() == second@.len());
    assert forall|i: int| 0 <= i < first@.len() implies first@[i]@ == second@[i]@ by {
        assert(first.deep_view()[i] == first@[i]@);
        assert(second.deep_view()[i] == second@[i]@);
    }
}

/// A parsed type declaration.
pub struct ReflectiveInput(pub syn::DeriveInput);

impl View for ReflectiveInput {
    type V = Declaration;

    open spec fn view(&self) -> Declaration {
        declaration(self.0)
    }
}

impl ReflectiveInput {
    /// Parses the text of one `struct`, `enum` or `union`. Any other text is
    /// a syntax error, with the parser's message and the place in the text
    /// where the parser reports it.
    pub fn parse(text: &str) -> (r: Result<ReflectiveInput, SyntaxError>)
        ensures
            r is Ok <==> parsed_declaration(text@) is Some,
            r matches Ok(input) ==> parsed_declaration(text@) == Some(input@)
                && input@.keeps_all_members(),
            r matches Err(e) ==> e.message@ == parse_failure(text@).0 && e.line == parse_failure(
                text@,
            ).1 && e.column == parse_failure(text@).2,
    {
        match parse_declaration(text) {
            Ok(tree) => Ok(ReflectiveInput(tree)),
            Err(failure) => {
                let (message, line, column) = failure;
                Err(SyntaxError { message, line, column })
            },
        }
    }

    /// The declared type's name.
    pub fn name(&self) -> (r: String)
        ensures
            r@ == self@.name,
    {
        declared_name(&self.0)
    }

    /// The kind tag of the declaration.
    pub fn kind(&self) -> (r: DeclKind)
        ensures
            r == self@.kind,
    {
        declared_kind(&self.0)
    }

    /// The names of all members in declaration order, `None` for a
    /// positional one.
    pub fn members(&self) -> (r: Vec<Option<String>>)
        ensures
            r.deep_view() == self@.members,
            self@.kind == DeclKind::Enum ==> forall|i: int|
                0 <= i < self@.members.len() ==> self@.members[i] is Some,
    {
        let count = member_count(&self.0);
        let mut members: Vec<Option<String>> = Vec::new();
        let mut i: usize = 0;
        assert(members.deep_view() =~= self@.members.take(0));
        while i < count
            invariant
                i <= count == self@.members.len(),
                members.deep_view() == self@.members.take(i as int),
                self@.kind == DeclKind::Enum ==> forall|j: int|
                    0 <= j < i ==> self@.members[j] is Some,
            decreases count - i,
        {
            let ghost before = members.deep_view();
            let member = member_name(&self.0, i);
            members.push(member);
            assert(members.deep_view() =~= before.push(self@.members[i as int]));
            assert(self@.members.take(i + 1) =~= before.push(self@.members[i as int]));
            i += 1;
        }
        assert(self@.members.take(i as int) =~= self@.members);
        members
    }

    /// Gets the item's fields or variants, classified by the declaration's
    /// kind tag. A struct keeps every member in place, named or not, and so
    /// does an enum; a union keeps its named members, which are all of them
    /// unless the tree was built by hand with a nameless field.
    pub fn get_input_items(&self) -> (r: ReflectiveInputType)
        ensures
            r@ == self@.shape(),
            self@.kind == DeclKind::Enum ==> self@.every_member_named(),
            self@.keeps_all_members() ==> r@.members() == self@.members,
    {
        let members = self.members();
        proof {
            if self@.keeps_all_members() {
                lemma_classification_keeps_members(self@);
            }
        }
        match self.kind() {
            DeclKind::Struct => ReflectiveInputType::Fields(members),
            DeclKind::Enum => ReflectiveInputType::Variants(extract_named(&members)),
            DeclKind::Union => ReflectiveInputType::UnionFields(extract_named(&members)),
        }
    }

    /// The accessor generated for the declaration.
    pub fn accessor(&self) -> (r: GeneratedAccessor)
        ensures
            r@ == self@.accessor(),
    {
        let name = self.name();
        let items = self.get_input_items();
        GeneratedAccessor::new(name.as_str(), &items)
    }

    /// Appends the text of the generated accessor to `tokens`.
    pub fn to_tokens(&self, tokens: &mut String)
        ensures
            final(tokens)@ == old(tokens)@ + self@.accessor().text(),
    {
        let text = self.accessor().to_text();
        tokens.append(text.as_str());
    }
}

/// Whatever the kind of a declaration, its accessor lists the names of its
/// named members in declaration order, attached to the declared type, and
/// an enum alone gets the case-list accessor.
pub proof fn lemma_accessor_of_declaration(decl: Declaration)
    ensures
        decl.accessor().owner_name == decl.name,
        decl.accessor().values == named_members(decl.members),
        decl.accessor().values.len() == count_named(decl.members),
        decl.kind == DeclKind::Enum <==> decl.accessor().accessor_name == "get_variants"@,
        decl.kind != DeclKind::Enum <==> decl.accessor().accessor_name == "get_fields"@,
{
    lemma_named_members_len(decl.members);
    lemma_accessor_name_selection(decl.shape());
}

/// Classification keeps declaration order and drops nothing: for a
/// declaration with members `m_1 .. m_n` that is a struct, or whose members
/// are all named, the classified shape carries `n` members and the one at
/// each position is the declared one.
pub proof fn lemma_classification_keeps_members(decl: Declaration)
    requires
        decl.keeps_all_members(),
    ensures
        decl.shape().members() == decl.members,
        decl.shape().members().len() == decl.members.len(),
{
    if decl.kind != DeclKind::Struct {
        lemma_named_members_complete(decl.members);
    }
}

} // verus!
