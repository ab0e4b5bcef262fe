//! The name and the documentation of the generated function.

use negate::error::Error;
use negate::generator::{
    build_docstring, build_identifier, get_adjective, negate_identifier, returns_bool,
};
use negate::item::{ItemFn, ReturnType, Signature, Type};

fn named(ident: &str) -> ItemFn {
    ItemFn {
        attrs: String::new(),
        vis: String::new(),
        sig: Signature {
            qualifiers: String::new(),
            ident: ident.to_string(),
            generics: String::new(),
            inputs: Vec::new(),
            variadic: None,
            output: ReturnType::Type(Type::Path("bool".to_string())),
            where_clause: String::new(),
        },
        block: "{ true }".to_string(),
    }
}

#[test]
fn the_adjective_follows_the_prefix() {
    assert_eq!(get_adjective("is_even"), Some("even"));
    assert_eq!(get_adjective("is_uppercase"), Some("uppercase"));
    assert_eq!(get_adjective("is_a_b_c"), Some("a_b_c"));
}

#[test]
fn the_adjective_may_be_empty() {
    assert_eq!(get_adjective("is_"), Some(""));
    assert_eq!(negate_identifier("is_"), Ok("is_not_".to_string()));
}

#[test]
fn the_adjective_may_repeat_the_prefix() {
    assert_eq!(get_adjective("is_is_"), Some("is_"));
    assert_eq!(negate_identifier("is_not_even"), Ok("is_not_not_even".to_string()));
}

#[test]
fn the_adjective_is_not_narrowed_to_ascii() {
    assert_eq!(get_adjective("is_größer"), Some("größer"));
    assert_eq!(negate_identifier("is_größer"), Ok("is_not_größer".to_string()));
}

#[test]
fn no_adjective_without_the_prefix() {
    assert_eq!(get_adjective("even"), None);
    assert_eq!(get_adjective(""), None);
    assert_eq!(get_adjective("i"), None);
    assert_eq!(get_adjective("is"), None);
    assert_eq!(get_adjective("isEven"), None);
    assert_eq!(get_adjective("has_even"), None);
    assert_eq!(get_adjective("_is_even"), None);
    assert_eq!(get_adjective("ïs_even"), None);
}

#[test]
fn the_prefix_is_case_sensitive() {
    assert_eq!(get_adjective("Is_even"), None);
    assert_eq!(get_adjective("IS_EVEN"), None);
    assert_eq!(negate_identifier("Is_even"), Err(Error::InvalidIdentifier));
}

#[test]
fn derived_names() {
    assert_eq!(negate_identifier("is_even"), Ok("is_not_even".to_string()));
    assert_eq!(negate_identifier("is_zero"), Ok("is_not_zero".to_string()));
    assert_eq!(negate_identifier("ready"), Err(Error::InvalidIdentifier));
}

#[test]
fn a_name_asked_for_is_taken_as_it_is() {
    assert_eq!(
        build_identifier(Some("is_finished".to_string()), &named("is_ready")),
        Ok("is_finished".to_string())
    );
    assert_eq!(
        build_identifier(Some("done".to_string()), &named("ready")),
        Ok("done".to_string())
    );
    assert_eq!(
        build_identifier(Some("not an identifier".to_string()), &named("is_ready")),
        Ok("not an identifier".to_string())
    );
    assert_eq!(build_identifier(Some(String::new()), &named("is_ready")), Ok(String::new()));
}

#[test]
fn without_a_name_the_original_decides() {
    assert_eq!(build_identifier(None, &named("is_ready")), Ok("is_not_ready".to_string()));
    assert_eq!(build_identifier(None, &named("ready")), Err(Error::InvalidIdentifier));
}

#[test]
fn documentation_asked_for_is_taken_as_it_is() {
    assert_eq!(
        build_docstring(Some("returns true if the given number is odd".to_string()), &named("is_even")),
        "returns true if the given number is odd"
    );
    assert_eq!(build_docstring(Some(String::new()), &named("is_even")), "");
}

#[test]
fn documentation_by_default_points_to_the_original() {
    assert_eq!(
        build_docstring(None, &named("is_even")),
        "This is an automatically generated function that denies [`is_even`]. Consult the original function for more information."
    );
    assert_eq!(
        build_docstring(None, &named("ready")),
        "This is an automatically generated function that denies [`ready`]. Consult the original function for more information."
    );
}

#[test]
fn only_the_written_bool_is_bool() {
    assert!(returns_bool(&ReturnType::Type(Type::Path("bool".to_string()))));
    assert!(!returns_bool(&ReturnType::Default));
    assert!(!returns_bool(&ReturnType::Type(Type::Path("i32".to_string()))));
    assert!(!returns_bool(&ReturnType::Type(Type::Path("Bool".to_string()))));
    assert!(!returns_bool(&ReturnType::Type(Type::Path("core :: primitive :: bool".to_string()))));
    assert!(!returns_bool(&ReturnType::Type(Type::Path("Truth".to_string()))));
    assert!(!returns_bool(&ReturnType::Type(Type::Other("bool".to_string()))));
    assert!(!returns_bool(&ReturnType::Type(Type::Other("& bool".to_string()))));
    assert!(!returns_bool(&ReturnType::Type(Type::Path(" bool".to_string()))));
    assert!(!returns_bool(&ReturnType::Type(Type::Path(String::new()))));
}
