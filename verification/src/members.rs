//! The mathematical model of a declaration's members and the laws of
//! extracting their names.

use vstd::prelude::*;

verus! {

/// The names of the members that have one, in the order of `members`.
/// A member without a name contributes nothing.
pub open spec fn named_members(members: Seq<Option<Seq<char>>>) -> Seq<Seq<char>>
    decreases members.len(),
{
    if members.len() == 0 {
        Seq::empty()
    } else {
        let earlier = named_members(members.drop_last());
        match members.last() {
            Some(name) => earlier.push(name),
            None => earlier,
        }
    }
}

/// How many of `members` have a name.
pub open spec fn count_named(members: Seq<Option<Seq<char>>>) -> nat
    decreases members.len(),
{
    if members.len() == 0 {
        0
    } else if members.last() is Some {
        count_named(members.drop_last()) + 1
    } else {
        count_named(members.drop_last())
    }
}

/// Every member given its name: the members of a shape in which names are
/// mandatory, seen as optionally named ones.
pub open spec fn all_named(names: Seq<Seq<char>>) -> Seq<Option<Seq<char>>> {
    Seq::new(names.len(), |i: int| Some(names[i]))
}

/// Extraction yields exactly as many names as there are named members:
/// unnamed members add no entry, neither an empty string nor a placeholder.
pub proof fn lemma_named_members_len(members: Seq<Option<Seq<char>>>)
    ensures
        named_members(members).len() == count_named(members),
        named_members(members).len() <= members.len(),
    decreases members.len(),
{
    if members.len() > 0 {
        lemma_named_members_len(members.drop_last());
    }
}

/// Extraction is a filter followed by a map: it keeps the members that have
/// a name, in their order, and reads the name of each.
pub proof fn lemma_named_members_filter(members: Seq<Option<Seq<char>>>)
    ensures
        named_members(members) == members.filter(|m: Option<Seq<char>>| m is Some).map_values(
            |m: Option<Seq<char>>| m->Some_0,
        ),
    decreases members.len(),
{
    reveal(Seq::filter);
    let keep = |m: Option<Seq<char>>| m is Some;
    let name = |m: Option<Seq<char>>| m->Some_0;
    if members.len() > 0 {
        lemma_named_members_filter(members.drop_last());
    }
    assert(named_members(members) =~= members.filter(keep).map_values(name));
}

/// Counting named members is monotone in the prefix taken, and strictly so
/// across a named member.
pub proof fn lemma_count_named_prefix(members: Seq<Option<Seq<char>>>, p: int, q: int)
    requires
        0 <= p <= q <= members.len(),
    ensures
        count_named(members.take(p)) <= count_named(members.take(q)),
        p < q && members[p] is Some ==> count_named(members.take(p)) < count_named(
            members.take(q),
        ),
    decreases q - p,
{
    if p < q {
        assert(members.take(q).drop_last() =~= members.take(q - 1));
        assert(members.take(q).last() == members[q - 1]);
        lemma_count_named_prefix(members, p, q - 1);
    }
}

/// Order preservation, member by member: the name of the member at position
/// `p` stands in the extracted list at the index that equals the number of
/// named members before `p`.
pub proof fn lemma_named_member_index(members: Seq<Option<Seq<char>>>, p: int)
    requires
        0 <= p < members.len(),
        members[p] is Some,
    ensures
        count_named(members.take(p)) < named_members(members).len(),
        named_members(members)[count_named(members.take(p)) as int] == members[p]->Some_0,
    decreases members.len(),
{
    let earlier = members.drop_last();
    lemma_named_members_len(earlier);
    lemma_named_members_len(members);
    if p == members.len() - 1 {
        assert(members.take(p) =~= earlier);
    } else {
        assert(earlier.take(p) =~= members.take(p));
        lemma_named_member_index(earlier, p);
    }
}

/// Order preservation, pairwise: of two named members the one declared first
/// comes first in the extracted list.
pub proof fn lemma_named_members_order(members: Seq<Option<Seq<char>>>, p: int, q: int)
    requires
        0 <= p < q < members.len(),
        members[p] is Some,
        members[q] is Some,
    ensures
        count_named(members.take(p)) < count_named(members.take(q)) < named_members(
            members,
        ).len(),
{
    lemma_count_named_prefix(members, p, q);
    lemma_named_member_index(members, q);
}

/// Every extracted name is the name of a member: nothing is invented.
pub proof fn lemma_named_members_source(members: Seq<Option<Seq<char>>>, k: int)
    requires
        0 <= k < named_members(members).len(),
    ensures
        exists|p: int|
            0 <= p < members.len() && members[p] == Some(named_members(members)[k])
                && count_named(members.take(p)) == k,
    decreases members.len(),
{
    let earlier = members.drop_last();
    lemma_named_members_len(earlier);
    if members.last() is Some && k == named_members(earlier).len() {
        let p = members.len() - 1;
        assert(members.take(p) =~= earlier);
        assert(members[p] == Some(named_members(members)[k]));
    } else {
        lemma_named_members_source(earlier, k);
        let p = choose|p: int|
            0 <= p < earlier.len() && earlier[p] == Some(named_members(earlier)[k])
                && count_named(earlier.take(p)) == k;
        assert(earlier.take(p) =~= members.take(p));
        assert(members[p] == Some(named_members(members)[k]));
    }
}

/// A purely positional list of members yields no name at all.
pub proof fn lemma_unnamed_members_yield_nothing(members: Seq<Option<Seq<char>>>)
    requires
        forall|i: int| 0 <= i < members.len() ==> members[i] is None,
    ensures
        named_members(members) == Seq::<Seq<char>>::empty(),
    decreases members.len(),
{
    if members.len() > 0 {
        lemma_unnamed_members_yield_nothing(members.drop_last());
    }
}

/// Where every member is named, extraction is the identity on the names.
pub proof fn lemma_all_named_members(names: Seq<Seq<char>>)
    ensures
        named_members(all_named(names)) == names,
    decreases names.len(),
{
    if names.len() > 0 {
        assert(all_named(names).drop_last() =~= all_named(names.drop_last()));
        lemma_all_named_members(names.drop_last());
        assert(named_members(all_named(names)) =~= names);
    } else {
        assert(named_members(all_named(names)) =~= names);
    }
}

/// Where no member lacks a name, extraction loses nothing: the list has one
/// entry for each member, and the entry at each position is that member's
/// name.
pub proof fn lemma_named_members_complete(members: Seq<Option<Seq<char>>>)
    requires
        forall|i: int| 0 <= i < members.len() ==> members[i] is Some,
    ensures
        named_members(members).len() == members.len(),
        all_named(named_members(members)) == members,
    decreases members.len(),
{
    if members.len() > 0 {
        let earlier = members.drop_last();
        lemma_named_members_complete(earlier);
        assert forall|i: int| 0 <= i < members.len() implies all_named(
            named_members(members),
        )[i] == members[i] by {
            if i < earlier.len() {
                assert(all_named(named_members(earlier))[i] == earlier[i]);
            }
        }
    }
    assert(all_named(named_members(members)) =~= members);
}

/// Extraction goes member by member: a named member appends its name to what
/// the earlier members gave, an unnamed one appends nothing.
pub proof fn lemma_named_members_push(members: Seq<Option<Seq<char>>>, member: Option<Seq<char>>)
    ensures
        named_members(members.push(member)) == match member {
            Some(name) => named_members(members).push(name),
            None => named_members(members),
        },
{
    assert(members.push(member).drop_last() =~= members);
}

/// The classified form of a declaration's members.
pub enum Shape {
    /// A record: members in declaration order, each optionally named.
    Aggregate(Seq<Option<Seq<char>>>),
    /// A tagged union: the names of its cases in declaration order.
    TaggedUnion(Seq<Seq<char>>),
    /// A union: the names of its fields in declaration order.
    NamedUnion(Seq<Seq<char>>),
}

impl Shape {
    /// The member names that the accessor lists: the named members of an
    /// aggregate, every case of a tagged union, every field of a union.
    pub open spec fn names(self) -> Seq<Seq<char>> {
        match self {
            Shape::Aggregate(members) => named_members(members),
            Shape::TaggedUnion(cases) => cases,
            Shape::NamedUnion(fields) => fields,
        }
    }

    /// The members as optionally named ones, whatever the shape: where names
    /// are mandatory, every member has its name.
    pub open spec fn members(self) -> Seq<Option<Seq<char>>> {
        match self {
            Shape::Aggregate(members) => members,
            Shape::TaggedUnion(cases) => all_named(cases),
            Shape::NamedUnion(fields) => all_named(fields),
        }
    }

    /// The accessor's name: one for the cases of a tagged union, another for
    /// the fields of an aggregate or a union.
    pub open spec fn accessor_name(self) -> Seq<char> {
        match self {
            Shape::TaggedUnion(_) => "get_variants"@,
            _ => "get_fields"@,
        }
    }
}

/// Order preservation for every shape: the listed names are the names of the
/// named members, in declaration order. With the laws of `named_members`
/// this places each name and fixes the length of the list.
pub proof fn lemma_names_are_named_members(shape: Shape)
    ensures
        shape.names() == named_members(shape.members()),
        shape.names().len() == count_named(shape.members()),
        !(shape is Aggregate) ==> shape.names().len() == shape.members().len(),
{
    match shape {
        Shape::Aggregate(members) => {},
        Shape::TaggedUnion(cases) => lemma_all_named_members(cases),
        Shape::NamedUnion(fields) => lemma_all_named_members(fields),
    }
    lemma_named_members_len(shape.members());
}

/// The two accessor names are distinct, and the shape family alone selects
/// between them: a tagged union gets the case-list name, the other two shapes
/// get the field-list name, however many members there are.
pub proof fn lemma_accessor_name_selection(shape: Shape)
    ensures
        "get_variants"@ != "get_fields"@,
        shape is TaggedUnion <==> shape.accessor_name() == "get_variants"@,
        shape is Aggregate || shape is NamedUnion <==> shape.accessor_name() == "get_fields"@,
{
    reveal_strlit("get_variants");
    reveal_strlit("get_fields");
    assert("get_variants"@.len() != "get_fields"@.len());
}

} // verus!
