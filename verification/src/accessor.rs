//! The emitter: from an owner's name and its member names to the text of an
//! `impl` block with one constant accessor.

use crate::members::Shape;
use crate::reflective::ReflectiveInputType;
use crate::syntax::{literal_text, string_literal};
use vstd::prelude::*;

verus! {

/// The model of a generated accessor.
pub struct AccessorView {
    pub owner_name: Seq<char>,
    pub accessor_name: Seq<char>,
    pub values: Seq<Seq<char>>,
}

/// The string literals of `values`, in order, separated by `", "`.
pub open spec fn literal_list(values: Seq<Seq<char>>) -> Seq<char>
    decreases values.len(),
{
    if values.len() == 0 {
        Seq::empty()
    } else if values.len() == 1 {
        string_literal(values[0])
    } else {
        literal_list(values.drop_last()) + ", "@ + string_literal(values.last())
    }
}

impl AccessorView {
    /// The accessor attached to `owner_name` for members of the given shape.
    pub open spec fn of(owner_name: Seq<char>, shape: Shape) -> AccessorView {
        AccessorView {
            owner_name,
            accessor_name: shape.accessor_name(),
            values: shape.names(),
        }
    }

    /// The declaration text: an `impl` block for the owner that holds one
    /// public constant function without parameters, which returns a
    /// reference to the static list of the values.
    pub open spec fn text(self) -> Seq<char> {
        "impl "@ + self.owner_name + " { pub const fn "@ + self.accessor_name
            + "() -> &'static [&'static str] { &["@ + literal_list(self.values) + "] } }"@
    }
}

/// An accessor to emit: the type it is attached to, its name, and the strings
/// it returns, in order.
#[derive(Clone, Debug, PartialEq, Eq)]
pub struct GeneratedAccessor {
    pub owner_name: String,
    pub accessor_name: String,
    pub values: Vec<String>,
}

impl View for GeneratedAccessor {
    type V = AccessorView;

    open spec fn view(&self) -> AccessorView {
        AccessorView {
            owner_name: self.owner_name@,
            accessor_name: self.accessor_name@,
            values: self.values.deep_view(),
        }
    }
}

impl GeneratedAccessor {
    /// The accessor for a type named `owner_name` with the given members.
    pub fn new(owner_name: &str, items: &ReflectiveInputType) -> (r: GeneratedAccessor)
        ensures
            r@ == AccessorView::of(owner_name@, items@),
    {
        GeneratedAccessor {
            owner_name: String::from_str(owner_name),
            accessor_name: String::from_str(items.accessor_name()),
            values: items.member_names(),
        }
    }

    /// Renders the accessor as declaration text.
    pub fn to_text(&self) -> (r: String)
        ensures
            r@ == self@.text(),
    {
        let mut text = String::from_str("impl ");
        text.append(self.owner_name.as_str());
        text.append(" { pub const fn ");
        text.append(self.accessor_name.as_str());
        text.append("() -> &'static [&'static str] { &[");
        let ghost head = text@;
        let ghost values = self.values.deep_view();
        let mut i: usize = 0;
        while i < self.values.len()
            invariant
                i <= self.values.len(),
                values == self.values.deep_view(),
                text@ == head + literal_list(values.take(i as int)),
            decreases self.values.len() - i,
        {
            if i > 0 {
                text.append(", ");
            }
            let literal = literal_text(self.values[i].as_str());
            text.append(literal.as_str());
            proof {
                let done = values.take(i as int);
                let next = values.take(i + 1);
                assert(next.drop_last() =~= done);
                assert(next.last() == self.values[i as int]@);
                assert(text@ =~= head + literal_list(next));
            }
            i += 1;
        }
        proof {
            assert(values.take(i as int) =~= values);
        }
        text.append("] } }");
        text
    }
}

} // verus!
