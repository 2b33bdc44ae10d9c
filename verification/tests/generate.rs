use enum_conversions::generate::{
    conversion_where_clause, generate, impl_conversions, impl_from, impl_get_variant,
    impl_try_from, render_all, splice, GenerateError,
};
use enum_conversions::parse_enum::{create_marker_enums, fetch_fields_from_enum};
use enum_conversions::schema::{SchemaError, VariantMap};
use quote::ToTokens;
use enum_conversions::templates::{
    insert_value, TemplateKind, FROM_TEMPLATE, GET_VARIANT_TEMPLATE, TRY_FROM_TEMPLATE,
};

fn two_variants() -> VariantMap {
    let mut map = VariantMap::new();
    map.insert("A".to_string(), "i64".to_string());
    map.insert("B".to_string(), "bool".to_string());
    map
}

fn count(text: &str, part: &str) -> usize {
    text.matches(part).count()
}

#[test]
fn templates_of_the_kinds() {
    assert_eq!(TemplateKind::GetVariant.template(), GET_VARIANT_TEMPLATE);
    assert_eq!(TemplateKind::TryFrom.template(), TRY_FROM_TEMPLATE);
    assert_eq!(TemplateKind::From.template(), FROM_TEMPLATE);
}

#[test]
fn where_clause_of_a_conversion_without_a_declared_clause() {
    assert_eq!(
        conversion_where_clause("", "Enum", "i64", "enum___conversion___Enum::A"),
        "where\n Enum: GetVariant<i64, enum___conversion___Enum::A>"
    );
}

#[test]
fn where_clause_of_a_conversion_with_a_declared_clause() {
    assert_eq!(
        conversion_where_clause("where T : Copy", "Enum<T>", "T", "enum___conversion___Enum::A"),
        "where T : Copy,\n Enum<T>: GetVariant<T, enum___conversion___Enum::A>"
    );
}

#[test]
fn where_clause_of_a_conversion_keeps_a_declared_trailing_comma() {
    assert_eq!(
        conversion_where_clause("where T : Copy ,", "Enum<T>", "T", "enum___conversion___Enum::A"),
        "where T : Copy ,\n Enum<T>: GetVariant<T, enum___conversion___Enum::A>"
    );
    assert_eq!(
        conversion_where_clause(",", "E", "u8", "enum___conversion___E::A"),
        ",\n E: GetVariant<u8, enum___conversion___E::A>"
    );
}

#[test]
fn fallible_conversion_under_a_declared_clause_is_rendered_exactly() {
    let mut map = VariantMap::new();
    map.insert("F1".to_string(), "T".to_string());
    let text =
        impl_try_from("Enum", "Enum<T,U>", "where U : Into < T >", "< T : Debug , U >", &map)
            .unwrap();
    assert_eq!(
        text,
        "\nimpl< T : Debug , U > TryFrom<Enum<T,U>> for T\nwhere U : Into < T >,\n Enum<T,U>: GetVariant<T, enum___conversion___Enum::F1>\n{\n    type Error = Box<dyn Error + 'static>;\n\n    fn try_from(value: Enum<T,U>) -> std::result::Result<Self, Self::Error> {\n        value.get_variant().map_err(|e| e.to_string().into())\n    }\n}"
    );
    let item: syn::ItemImpl = syn::parse_str(&text).unwrap();
    assert_eq!(item.generics.where_clause.unwrap().predicates.len(), 2);
}

#[test]
fn conversions_of_one_payload_type_differ_by_their_markers() {
    let first = conversion_where_clause("", "Enum<T>", "T", "enum___conversion___Enum::A");
    let second = conversion_where_clause("", "Enum<T>", "T", "enum___conversion___Enum::B");
    assert_ne!(first, second);
}

#[test]
fn splice_appends_or_fails() {
    let unit = splice("ab".to_string(), Some("cd".to_string()), TemplateKind::From);
    assert_eq!(unit, Ok("abcd".to_string()));
    let unit = splice("ab".to_string(), None, TemplateKind::TryFrom);
    assert_eq!(unit, Err(GenerateError::Render(TemplateKind::TryFrom)));
}

#[test]
fn construction_of_one_variant_is_rendered_exactly() {
    let mut map = VariantMap::new();
    map.insert("A".to_string(), "i64".to_string());
    let text = impl_from("Enum", "", "", &map).unwrap();
    assert_eq!(
        text,
        "\nimpl From<i64> for Enum\n\n{\n\n    fn from(value: i64) -> Self {\n        Self::A(value)\n    }\n}\n"
    );
}

#[test]
fn fallible_conversion_of_one_variant_is_rendered_exactly() {
    let mut map = VariantMap::new();
    map.insert("A".to_string(), "i64".to_string());
    let text = impl_try_from("Enum", "Enum", "", "", &map).unwrap();
    assert_eq!(
        text,
        "\nimpl TryFrom<Enum> for i64\nwhere\n Enum: GetVariant<i64, enum___conversion___Enum::A>\n{\n    type Error = Box<dyn Error + 'static>;\n\n    fn try_from(value: Enum) -> std::result::Result<Self, Self::Error> {\n        value.get_variant().map_err(|e| e.to_string().into())\n    }\n}"
    );
}

#[test]
fn accessors_name_type_marker_and_container() {
    let text = impl_get_variant("Enum", "Enum<T>", "where T : Copy", "< T >", &two_variants())
        .unwrap();
    assert!(text.contains(
        "impl< T > variant_access_traits::GetVariant<i64, enum___conversion___Enum::A > for Enum<T>\nwhere T : Copy {"
    ));
    assert!(text.contains(
        "impl< T > variant_access_traits::GetVariant<bool, enum___conversion___Enum::B > for Enum<T>\nwhere T : Copy {"
    ));
    assert_eq!(count(&text, "Enum::A(inner) => Ok(inner),"), 3);
    assert_eq!(count(&text, "Enum::B(inner) => Ok(inner),"), 3);
    assert_eq!(count(&text, "wrong_active_field(\"Enum<T>\", \"i64\")"), 3);
    assert_eq!(count(&text, "wrong_active_field(\"Enum<T>\", \"bool\")"), 3);
    assert!(!text.contains("{{"));
    let first = text.find("enum___conversion___Enum::A").unwrap();
    let second = text.find("enum___conversion___Enum::B").unwrap();
    assert!(first < second);
}

#[test]
fn families_of_no_variants_are_empty() {
    let map = VariantMap::new();
    assert_eq!(impl_get_variant("E", "E", "", "", &map), Ok(String::new()));
    assert_eq!(impl_try_from("E", "E", "", "", &map), Ok(String::new()));
    assert_eq!(impl_from("E", "", "", &map), Ok(String::new()));
}

#[test]
fn render_all_concatenates_in_order() {
    let mut first: Vec<(String, String)> = Vec::new();
    insert_value(&mut first, "generics", "");
    insert_value(&mut first, "Type", "u8");
    insert_value(&mut first, "fullname", "E");
    insert_value(&mut first, "field", "X");
    insert_value(&mut first, "Where", "");
    assert_eq!(first[1], ("Type".to_string(), "u8".to_string()));
    let mut second: Vec<(String, String)> = Vec::new();
    insert_value(&mut second, "generics", "");
    insert_value(&mut second, "Type", "u16");
    insert_value(&mut second, "fullname", "E");
    insert_value(&mut second, "field", "Y");
    insert_value(&mut second, "Where", "");
    let text = render_all(TemplateKind::From, &vec![first, second]).unwrap();
    let x = text.find("impl From<u8> for E").unwrap();
    let y = text.find("impl From<u16> for E").unwrap();
    assert!(x < y);
    assert_eq!(count(&text, "impl From<"), 2);
}

#[test]
fn a_missing_variable_fails_the_rendering() {
    let mut context: Vec<(String, String)> = Vec::new();
    insert_value(&mut context, "generics", "");
    let unit = render_all(TemplateKind::From, &vec![context]);
    assert_eq!(unit, Err(GenerateError::Render(TemplateKind::From)));
    let unit = render_all(TemplateKind::GetVariant, &vec![Vec::new()]);
    assert_eq!(unit, Err(GenerateError::Render(TemplateKind::GetVariant)));
    let unit = render_all(TemplateKind::TryFrom, &vec![Vec::new()]);
    assert_eq!(unit, Err(GenerateError::Render(TemplateKind::TryFrom)));
}

#[test]
fn unit_of_two_variants() {
    let ast: syn::DeriveInput = syn::parse_str("enum Enum { A(i64), B(bool) }").unwrap();
    let unit = impl_conversions(&ast).unwrap();
    assert!(unit.starts_with(
        "#[allow(non_snake_case)]\n mod enum___conversion___Enum{ pub(crate) enum A{}pub(crate) enum B{}}"
    ));
    assert!(unit.contains(
        "variant_access_traits::GetVariant<i64, enum___conversion___Enum::A > for Enum"
    ));
    assert!(unit.contains(
        "variant_access_traits::GetVariant<bool, enum___conversion___Enum::B > for Enum"
    ));
    assert!(unit.contains("impl TryFrom<Enum> for i64"));
    assert!(unit.contains("impl TryFrom<Enum> for bool"));
    assert!(unit.contains("impl From<i64> for Enum"));
    assert!(unit.contains("impl From<bool> for Enum"));
    assert_eq!(count(&unit, "variant_access_traits::GetVariant<"), 2);
    assert_eq!(count(&unit, "impl TryFrom<"), 2);
    assert_eq!(count(&unit, "impl From<"), 2);
    assert_eq!(count(&unit, "mod enum___conversion___Enum"), 1);
}

#[test]
fn unit_is_the_module_and_the_three_families() {
    let ast: syn::DeriveInput =
        syn::parse_str("enum Pair<T: Clone, U> where U: Into<T> { L(T), R(U) }").unwrap();
    let fields = fetch_fields_from_enum(&ast).unwrap();
    let generics = "< T : Clone , U >";
    let clause = "where U : Into < T >";
    let mut expected = create_marker_enums("Pair", &fields);
    expected.push_str(&impl_get_variant("Pair", "Pair<T,U>", clause, generics, &fields).unwrap());
    expected.push_str(&impl_try_from("Pair", "Pair<T,U>", clause, generics, &fields).unwrap());
    expected.push_str(&impl_from("Pair<T,U>", clause, generics, &fields).unwrap());
    assert_eq!(impl_conversions(&ast), Ok(expected.clone()));
    assert_eq!(generate("Pair", "Pair<T,U>", clause, generics, &fields), Ok(expected));
}

fn printed<T: ToTokens>(node: &T) -> String {
    node.to_token_stream().to_string()
}

fn impls_of(unit: &str) -> Vec<syn::ItemImpl> {
    let file: syn::File = syn::parse_str(unit).unwrap();
    let mut impls = Vec::new();
    for item in file.items {
        if let syn::Item::Impl(item) = item {
            impls.push(item);
        }
    }
    impls
}

fn trait_of(item: &syn::ItemImpl) -> String {
    match &item.trait_ {
        Some((_, path, _)) => printed(path),
        None => String::new(),
    }
}

fn where_predicates(item: &syn::ItemImpl) -> Vec<String> {
    match &item.generics.where_clause {
        Some(clause) => clause.predicates.iter().map(|p| printed(p)).collect(),
        None => Vec::new(),
    }
}

fn first_argument_type(item: &syn::ItemImpl) -> String {
    for member in item.items.iter() {
        if let syn::ImplItem::Method(method) = member {
            if let Some(syn::FnArg::Typed(argument)) = method.sig.inputs.first() {
                return printed(&argument.ty);
            }
        }
    }
    String::new()
}

#[test]
fn unit_is_a_balanced_token_stream() {
    let ast: syn::DeriveInput =
        syn::parse_str("enum Pair<'a, T: Clone> where T: 'a { L(&'a T), R(bool) }").unwrap();
    let unit = impl_conversions(&ast).unwrap();
    let tokens: Result<proc_macro2::TokenStream, proc_macro2::LexError> = unit.parse();
    assert!(tokens.is_ok());
}

#[test]
fn unit_parses_as_a_module_and_three_impls_per_variant() {
    let ast: syn::DeriveInput =
        syn::parse_str("enum Pair<'a, T: Clone> where T: 'a { L(&'a T), R(bool) }").unwrap();
    let unit = impl_conversions(&ast).unwrap();
    let file: syn::File = syn::parse_str(&unit).unwrap();
    assert_eq!(file.items.len(), 7);
    assert!(matches!(file.items[0], syn::Item::Mod(_)));
    assert_eq!(impls_of(&unit).len(), 6);
}

#[test]
fn conversion_of_a_generic_enum_takes_the_applied_name() {
    let ast: syn::DeriveInput = syn::parse_str("enum Wrap<T> { V(Vec<T>) }").unwrap();
    let unit = impl_conversions(&ast).unwrap();
    assert_eq!(count(&unit, "TryFrom<"), 1);
    assert!(unit.contains(
        "impl< T > TryFrom<Wrap<T>> for Vec < T >\nwhere\n Wrap<T>: GetVariant<Vec < T >, enum___conversion___Wrap::V>\n{"
    ));
    assert!(unit.contains(
        "fn try_from(value: Wrap<T>) -> std::result::Result<Self, Self::Error> {"
    ));
    assert!(!unit.contains("value: Wrap)"));

    let impls = impls_of(&unit);
    assert_eq!(impls.len(), 3);
    let conversion = &impls[1];
    assert_eq!(trait_of(conversion), "TryFrom < Wrap < T > >");
    assert_eq!(printed(&conversion.self_ty), "Vec < T >");
    assert_eq!(first_argument_type(conversion), "Wrap < T >");
    assert_eq!(
        where_predicates(conversion),
        vec!["Wrap < T > : GetVariant < Vec < T > , enum___conversion___Wrap :: V >".to_string()]
    );
}

#[test]
fn impls_of_a_bounded_enum_with_a_declared_clause() {
    let ast: syn::DeriveInput =
        syn::parse_str("enum W<T: Clone> where T: Default { V(Vec<T>) }").unwrap();
    let unit = impl_conversions(&ast).unwrap();
    let impls = impls_of(&unit);
    assert_eq!(impls.len(), 3);
    for item in impls.iter() {
        assert_eq!(printed(&item.generics), "< T : Clone >");
    }
    let accessor = &impls[0];
    assert_eq!(
        trait_of(accessor),
        "variant_access_traits :: GetVariant < Vec < T > , enum___conversion___W :: V >"
    );
    assert_eq!(printed(&accessor.self_ty), "W < T >");
    assert_eq!(where_predicates(accessor), vec!["T : Default".to_string()]);

    let conversion = &impls[1];
    assert_eq!(trait_of(conversion), "TryFrom < W < T > >");
    assert_eq!(printed(&conversion.self_ty), "Vec < T >");
    assert_eq!(first_argument_type(conversion), "W < T >");
    assert_eq!(
        where_predicates(conversion),
        vec![
            "T : Default".to_string(),
            "W < T > : GetVariant < Vec < T > , enum___conversion___W :: V >".to_string(),
        ]
    );

    let construction = &impls[2];
    assert_eq!(trait_of(construction), "From < Vec < T > >");
    assert_eq!(printed(&construction.self_ty), "W < T >");
    assert_eq!(where_predicates(construction), vec!["T : Default".to_string()]);
    assert!(unit.contains(
        "where T : Default,\n W<T>: GetVariant<Vec < T >, enum___conversion___W::V>"
    ));
}

#[test]
fn a_declared_trailing_comma_is_not_doubled() {
    let ast: syn::DeriveInput =
        syn::parse_str("enum W<T> where T: Default, { V(T) }").unwrap();
    let unit = impl_conversions(&ast).unwrap();
    assert!(unit.contains(
        "where T : Default ,\n W<T>: GetVariant<T, enum___conversion___W::V>"
    ));
    let impls = impls_of(&unit);
    assert_eq!(impls.len(), 3);
    assert_eq!(where_predicates(&impls[1]).len(), 2);
}

#[test]
fn a_where_keyword_without_predicates_counts_as_no_clause() {
    let ast: syn::DeriveInput = syn::parse_str("enum W<T> where { V(T) }").unwrap();
    let unit = impl_conversions(&ast).unwrap();
    let impls = impls_of(&unit);
    assert_eq!(impls.len(), 3);
    assert_eq!(where_predicates(&impls[0]).len(), 0);
    assert_eq!(
        where_predicates(&impls[1]),
        vec!["W < T > : GetVariant < T , enum___conversion___W :: V >".to_string()]
    );
}

#[test]
fn no_unit_for_an_unsupported_declaration() {
    let ast: syn::DeriveInput = syn::parse_str("struct Record { a: i64 }").unwrap();
    assert_eq!(impl_conversions(&ast), Err(GenerateError::Schema(SchemaError::NotAnEnum)));
    let ast: syn::DeriveInput = syn::parse_str("enum Enum { A(i64), B }").unwrap();
    assert_eq!(impl_conversions(&ast), Err(GenerateError::Schema(SchemaError::UnitVariant)));
    let ast: syn::DeriveInput = syn::parse_str("enum Enum { A(i64, u8) }").unwrap();
    assert_eq!(impl_conversions(&ast), Err(GenerateError::Schema(SchemaError::MultipleFields)));
    let ast: syn::DeriveInput = syn::parse_str("enum Enum { A { x: u8 } }").unwrap();
    assert_eq!(impl_conversions(&ast), Err(GenerateError::Schema(SchemaError::NamedFields)));
}

#[test]
fn messages_of_the_failures() {
    assert_eq!(
        GenerateError::Schema(SchemaError::NotAnEnum).message(),
        "Can only derive for enums."
    );
    assert_eq!(
        GenerateError::Render(TemplateKind::GetVariant).message(),
        "Failed to render the GetVariant template"
    );
    assert_eq!(
        GenerateError::Render(TemplateKind::TryFrom).message(),
        "Failed to render the TryFrom template"
    );
    assert_eq!(
        GenerateError::Render(TemplateKind::From).message(),
        "Failed to render the From template"
    );
}
