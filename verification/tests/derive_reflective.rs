use reflective::accessor::GeneratedAccessor;
use reflective::derive_reflective;
use reflective::reflective::{extract_named, ReflectiveInput, ReflectiveInputType, SyntaxError};
use reflective::syntax::DeclKind;

const REFLECTIVE_ENUM: &str = "enum ReflectiveEnum {
    VariantOne,
    VariantTwo,
}";

const REFLECTIVE_STRUCT: &str = "struct ReflectiveStruct {
    data: ReflectiveEnum,
    field_1: u32,
    field_2: i32,
}";

const REFLECTIVE_UNION: &str = "union ReflectiveUnion {
    field_1: u32,
    field_2: i32,
}";

fn parsed(declaration: &str) -> ReflectiveInput {
    match ReflectiveInput::parse(declaration) {
        Ok(input) => input,
        Err(error) => panic!("{}:{}: {}", error.line, error.column, error.message),
    }
}

/// What the accessor named `accessor_name` returns for the declared type.
fn call(declaration: &str, accessor_name: &str) -> Vec<String> {
    let accessor = parsed(declaration).accessor();
    assert_eq!(accessor.accessor_name, accessor_name);
    accessor.values
}

fn get_variants(declaration: &str) -> Vec<String> {
    call(declaration, "get_variants")
}

fn get_fields(declaration: &str) -> Vec<String> {
    call(declaration, "get_fields")
}

fn names(values: &[&str]) -> Vec<String> {
    values.iter().map(|value| value.to_string()).collect()
}

fn optional(values: &[Option<&str>]) -> Vec<Option<String>> {
    values.iter().map(|value| value.map(|name| name.to_string())).collect()
}

fn failure(input: &str) -> SyntaxError {
    match derive_reflective(input) {
        Ok(text) => panic!("accepted: {}", text),
        Err(error) => error,
    }
}

/// The accessor lists the members in the order of their declaration.
#[test]
fn test_derive_reflective() {
    assert_eq!(get_variants(REFLECTIVE_ENUM), &["VariantOne", "VariantTwo"]);
    assert_eq!(get_fields(REFLECTIVE_STRUCT), &["data", "field_1", "field_2"]);
    assert_eq!(get_fields(REFLECTIVE_UNION), &["field_1", "field_2"]);

    assert_ne!(get_variants(REFLECTIVE_ENUM), &["VariantTwo", "VariantOne"]);
    assert_ne!(get_fields(REFLECTIVE_STRUCT), &["field_2", "field_1", "data"]);
    assert_ne!(get_fields(REFLECTIVE_UNION), &["field_2", "field_1"]);
}

#[test]
fn enum_text_lists_variants() {
    assert_eq!(
        derive_reflective(REFLECTIVE_ENUM).unwrap(),
        "impl ReflectiveEnum { pub const fn get_variants() -> &'static [&'static str] \
         { &[\"VariantOne\", \"VariantTwo\"] } }"
    );
}

#[test]
fn struct_text_lists_fields() {
    assert_eq!(
        derive_reflective(REFLECTIVE_STRUCT).unwrap(),
        "impl ReflectiveStruct { pub const fn get_fields() -> &'static [&'static str] \
         { &[\"data\", \"field_1\", \"field_2\"] } }"
    );
}

#[test]
fn union_text_lists_fields() {
    assert_eq!(
        derive_reflective(REFLECTIVE_UNION).unwrap(),
        "impl ReflectiveUnion { pub const fn get_fields() -> &'static [&'static str] \
         { &[\"field_1\", \"field_2\"] } }"
    );
}

#[test]
fn positional_struct_has_no_fields() {
    let input = parsed("struct Pair(u32, u32);");
    assert_eq!(input.members(), vec![None, None]);
    assert_eq!(input.get_input_items(), ReflectiveInputType::Fields(vec![None, None]));
    assert_eq!(get_fields("struct Pair(u32, u32);"), Vec::<String>::new());
    assert_eq!(
        derive_reflective("struct Pair(u32, u32);").unwrap(),
        "impl Pair { pub const fn get_fields() -> &'static [&'static str] { &[] } }"
    );
}

#[test]
fn single_member_has_no_separator() {
    assert_eq!(
        derive_reflective("struct One { only: u8 }").unwrap(),
        "impl One { pub const fn get_fields() -> &'static [&'static str] { &[\"only\"] } }"
    );
}

#[test]
fn unnamed_members_are_skipped_in_place() {
    let members = optional(&[None, Some("a"), None, None, Some("b"), Some("c"), None]);
    assert_eq!(extract_named(&members), names(&["a", "b", "c"]));
    let items = ReflectiveInputType::Fields(members);
    assert_eq!(items.member_names(), names(&["a", "b", "c"]));
    assert_eq!(items.member_names().len(), 3);
    assert_eq!(extract_named(&Vec::new()), Vec::<String>::new());
}

#[test]
fn mandatory_names_are_kept_as_they_are() {
    let variants = ReflectiveInputType::Variants(names(&["B", "A", "B"]));
    assert_eq!(variants.member_names(), names(&["B", "A", "B"]));
    let fields = ReflectiveInputType::UnionFields(names(&["z", "y"]));
    assert_eq!(fields.member_names(), names(&["z", "y"]));
}

#[test]
fn accessor_name_goes_by_shape_family() {
    assert_eq!(ReflectiveInputType::Fields(Vec::new()).accessor_name(), "get_fields");
    assert_eq!(ReflectiveInputType::Variants(Vec::new()).accessor_name(), "get_variants");
    assert_eq!(ReflectiveInputType::UnionFields(Vec::new()).accessor_name(), "get_fields");
    assert_eq!(ReflectiveInputType::Fields(optional(&[Some("a")])).accessor_name(), "get_fields");
    assert_eq!(ReflectiveInputType::Variants(names(&["A"])).accessor_name(), "get_variants");
    assert_eq!(ReflectiveInputType::UnionFields(names(&["a"])).accessor_name(), "get_fields");
}

#[test]
fn empty_declarations_keep_their_accessor() {
    assert_eq!(get_variants("enum Never {}"), Vec::<String>::new());
    assert_eq!(get_fields("struct Unit;"), Vec::<String>::new());
    assert_eq!(get_fields("struct Empty {}"), Vec::<String>::new());
    assert_eq!(
        derive_reflective("enum Never {}").unwrap(),
        "impl Never { pub const fn get_variants() -> &'static [&'static str] { &[] } }"
    );
}

#[test]
fn classification_goes_by_kind_tag() {
    let input = parsed(REFLECTIVE_STRUCT);
    assert_eq!(input.kind(), DeclKind::Struct);
    assert_eq!(input.name(), "ReflectiveStruct");
    assert_eq!(
        input.get_input_items(),
        ReflectiveInputType::Fields(optional(&[Some("data"), Some("field_1"), Some("field_2")]))
    );
    let input = parsed(REFLECTIVE_ENUM);
    assert_eq!(input.kind(), DeclKind::Enum);
    assert_eq!(
        input.get_input_items(),
        ReflectiveInputType::Variants(names(&["VariantOne", "VariantTwo"]))
    );
    let input = parsed(REFLECTIVE_UNION);
    assert_eq!(input.kind(), DeclKind::Union);
    assert_eq!(
        input.get_input_items(),
        ReflectiveInputType::UnionFields(names(&["field_1", "field_2"]))
    );
}

#[test]
fn variant_payloads_are_ignored() {
    let text = "pub enum Message { Quit, Move { x: i32, y: i32 }, Write(String) }";
    assert_eq!(get_variants(text), &["Quit", "Move", "Write"]);
}

#[test]
fn attributes_and_visibility_are_ignored() {
    let text = "#[derive(Debug)] pub(crate) struct Data { #[allow(unused)] pub input: String, \
                numbers: [u32; 5] }";
    assert_eq!(get_fields(text), &["input", "numbers"]);
}

#[test]
fn extraction_is_repeatable() {
    let input = parsed(REFLECTIVE_STRUCT);
    let first = input.get_input_items();
    let second = input.get_input_items();
    assert_eq!(first, second);
    assert_eq!(first.member_names(), first.member_names());
    assert_eq!(first.member_names(), second.member_names());
    assert_eq!(derive_reflective(REFLECTIVE_STRUCT), derive_reflective(REFLECTIVE_STRUCT));
}

#[test]
fn function_is_a_syntax_error() {
    let error = failure("fn main() {}");
    assert_eq!(error.message, "expected one of: `struct`, `enum`, `union`");
    assert_eq!((error.line, error.column), (1, 0));
    assert_eq!(ReflectiveInput::parse("fn main() {}").err(), Some(error));
}

#[test]
fn syntax_error_is_located() {
    let error = failure("\n  trait Shape {}");
    assert_eq!(error.message, "expected one of: `struct`, `enum`, `union`");
    assert_eq!((error.line, error.column), (2, 2));
    let error = failure("struct Late {\n    first: u8,\n    second u8,\n}");
    assert_eq!((error.line, error.column), (3, 11));
    let error = failure("struct Broken { field: }");
    assert_eq!(error.line, 1);
    assert!(error.column > 0);
}

#[test]
fn other_items_are_syntax_errors() {
    assert!(derive_reflective("").is_err());
    assert!(derive_reflective("const LIMIT: u32 = 5;").is_err());
    assert!(derive_reflective("mod inner {}").is_err());
    assert!(derive_reflective("struct One; struct Two;").is_err());
    assert!(derive_reflective("union Positional(u32, i32);").is_err());
}

#[test]
fn accessor_is_built_from_name_and_items() {
    let items = ReflectiveInputType::Fields(optional(&[Some("x"), None, Some("y")]));
    let accessor = GeneratedAccessor::new("Point", &items);
    assert_eq!(
        accessor,
        GeneratedAccessor {
            owner_name: "Point".to_string(),
            accessor_name: "get_fields".to_string(),
            values: names(&["x", "y"]),
        }
    );
    assert_eq!(
        accessor.to_text(),
        "impl Point { pub const fn get_fields() -> &'static [&'static str] { &[\"x\", \"y\"] } }"
    );
}

#[test]
fn values_are_quoted_and_escaped() {
    let accessor = GeneratedAccessor {
        owner_name: "Odd".to_string(),
        accessor_name: "get_fields".to_string(),
        values: names(&["say \"hi\"", "back\\slash"]),
    };
    assert_eq!(
        accessor.to_text(),
        "impl Odd { pub const fn get_fields() -> &'static [&'static str] \
         { &[\"say \\\"hi\\\"\", \"back\\\\slash\"] } }"
    );
}

#[test]
fn to_tokens_appends() {
    let input = parsed("struct A { b: u8 }");
    let mut text = String::from("struct A { b: u8 } ");
    input.to_tokens(&mut text);
    assert_eq!(
        text,
        "struct A { b: u8 } impl A { pub const fn get_fields() -> &'static [&'static str] \
         { &[\"b\"] } }"
    );
}

#[test]
fn emitted_text_is_one_impl_block() {
    let text = derive_reflective(REFLECTIVE_STRUCT).unwrap();
    let stream: proc_macro2::TokenStream = text.parse().unwrap();
    let tokens: Vec<proc_macro2::TokenTree> = stream.into_iter().collect();
    assert_eq!(tokens.len(), 3);
    assert_eq!(tokens[0].to_string(), "impl");
    assert_eq!(tokens[1].to_string(), "ReflectiveStruct");
    let body = match &tokens[2] {
        proc_macro2::TokenTree::Group(group) => group,
        _ => panic!("not a block"),
    };
    assert_eq!(body.delimiter(), proc_macro2::Delimiter::Brace);
    let inner: Vec<String> = body.stream().into_iter().map(|token| token.to_string()).collect();
    assert_eq!(&inner[..4], &["pub", "const", "fn", "get_fields"]);
    assert_eq!(inner.iter().filter(|token| token.as_str() == "fn").count(), 1);
}

#[test]
fn emitted_literals_read_back_as_the_names() {
    let accessor = GeneratedAccessor {
        owner_name: "Odd".to_string(),
        accessor_name: "get_fields".to_string(),
        values: names(&["say \"hi\"", "back\\slash", "tab\there"]),
    };
    let block: syn::DeriveInput =
        syn::parse_str(&accessor.to_text().replacen("impl", "struct", 1).replace(
            " { pub const fn get_fields() -> &'static [&'static str] { &[",
            "(#[doc(",
        ).replace("] } }", ")] u8);")).unwrap();
    let attr = match &block.data {
        syn::Data::Struct(data) => data.fields.iter().next().unwrap().attrs[0].clone(),
        _ => panic!("not a struct"),
    };
    let read = attr
        .parse_args_with(
            syn::punctuated::Punctuated::<syn::LitStr, syn::token::Comma>::parse_terminated,
        )
        .unwrap();
    let read: Vec<String> = read.iter().map(|literal| literal.value()).collect();
    assert_eq!(read, accessor.values);
}

#[test]
fn parsed_members_are_kept_in_place() {
    let input = parsed("union Bits { word: u32, bytes: [u8; 4], half: u16 }");
    assert_eq!(input.members(), optional(&[Some("word"), Some("bytes"), Some("half")]));
    assert_eq!(
        input.get_input_items(),
        ReflectiveInputType::UnionFields(names(&["word", "bytes", "half"]))
    );
    let input = parsed("struct Mixed(u8, u16, u32);");
    assert_eq!(input.get_input_items(), ReflectiveInputType::Fields(vec![None, None, None]));
    let input = parsed("enum Order { Zulu, Alpha, Mike, Alpha2 }");
    assert_eq!(
        input.get_input_items(),
        ReflectiveInputType::Variants(names(&["Zulu", "Alpha", "Mike", "Alpha2"]))
    );
}

#[test]
fn input_can_be_built_from_a_tree() {
    let tree: syn::DeriveInput = syn::parse_str("enum Side { Left, Right }").unwrap();
    let input = ReflectiveInput(tree);
    assert_eq!(input.name(), "Side");
    assert_eq!(input.members(), optional(&[Some("Left"), Some("Right")]));
    assert_eq!(input.accessor().values, names(&["Left", "Right"]));
}
