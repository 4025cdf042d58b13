//! Reflection over type declarations: from the text of a `struct`, `enum` or
//! `union` to the text of an accessor that lists its member names in
//! declaration order.

pub mod accessor;
pub mod members;
pub mod reflective;
pub mod syntax;

use crate::reflective::{ReflectiveInput, SyntaxError};
use crate::syntax::{parse_failure, parsed_declaration};
use vstd::prelude::*;

verus! {

/// Derives the accessor of the type declared in `input`: an `impl` block for
/// the type with a constant function `get_fields` (for a struct or union) or
/// `get_variants` (for an enum) that returns the member names in declaration
/// order. Fails exactly where `input` is no type declaration, with the
/// parser's message and the place in `input` where the parser reports it.
pub fn derive_reflective(input: &str) -> (r: Result<String, SyntaxError>)
    ensures
        r is Ok <==> parsed_declaration(input@) is Some,
        r matches Ok(text) ==> text@ == parsed_declaration(input@)->Some_0.accessor().text(),
        r matches Err(e) ==> e.message@ == parse_failure(input@).0 && e.line == parse_failure(
            input@,
        ).1 && e.column == parse_failure(input@).2,
{
    match ReflectiveInput::parse(input) {
        Ok(data) => {
            let mut text = String::new();
            data.to_tokens(&mut text);
            assert(text@ =~= data@.accessor().text());
            Ok(text)
        },
        Err(error) => Err(error),
    }
}

} // verus!
