//! Through a parser and back: functions are read from source, described to
//! the library, and what it emits is read as source again.

use negate::error::Error;
use negate::item::{FnArg, Item, ItemFn, ReturnType, Signature, Type};
use negate::meta::{Lit, Meta, MetaNameValue, NestedMeta, Path};
use negate::negate;
use quote::ToTokens;

fn tokens<T: ToTokens>(node: &T) -> String {
    node.to_token_stream().to_string()
}

fn all_tokens<T: ToTokens>(nodes: &[T]) -> String {
    nodes.iter().map(tokens).collect::<Vec<_>>().join(" ")
}

fn describe_path(path: &syn::Path) -> Path {
    Path {
        leading_colon: path.leading_colon.is_some(),
        segments: path.segments.iter().map(tokens).collect(),
    }
}

fn describe_lit(lit: &syn::Lit) -> Lit {
    match lit {
        syn::Lit::Str(text) => Lit::Str(text.value()),
        syn::Lit::ByteStr(_) => Lit::ByteStr,
        syn::Lit::Byte(_) => Lit::Byte,
        syn::Lit::Char(_) => Lit::Char,
        syn::Lit::Int(_) => Lit::Int,
        syn::Lit::Float(_) => Lit::Float,
        syn::Lit::Bool(_) => Lit::Bool,
        syn::Lit::Verbatim(_) => Lit::Verbatim,
    }
}

fn describe_argument(argument: &syn::NestedMeta) -> NestedMeta {
    match argument {
        syn::NestedMeta::Lit(lit) => NestedMeta::Lit(describe_lit(lit)),
        syn::NestedMeta::Meta(syn::Meta::Path(path)) => {
            NestedMeta::Meta(Meta::Path(describe_path(path)))
        }
        syn::NestedMeta::Meta(syn::Meta::List(list)) => {
            NestedMeta::Meta(Meta::List(describe_path(&list.path)))
        }
        syn::NestedMeta::Meta(syn::Meta::NameValue(pair)) => {
            NestedMeta::Meta(Meta::NameValue(MetaNameValue {
                path: describe_path(&pair.path),
                lit: describe_lit(&pair.lit),
            }))
        }
    }
}

/// The arguments of the only attribute of the function `source`.
fn arguments_of(source: &str) -> Vec<NestedMeta> {
    let function: syn::ItemFn = syn::parse_str(source).unwrap();
    match function.attrs[0].parse_meta().unwrap() {
        syn::Meta::List(list) => list.nested.iter().map(describe_argument).collect(),
        _ => Vec::new(),
    }
}

fn describe_arg(arg: &syn::FnArg) -> FnArg {
    match arg {
        syn::FnArg::Receiver(receiver) => FnArg::Receiver(tokens(receiver)),
        syn::FnArg::Typed(typed) => FnArg::Typed {
            attrs: all_tokens(&typed.attrs),
            pat: tokens(&typed.pat),
            ty: tokens(&typed.ty),
        },
    }
}

fn describe_fn(function: &syn::ItemFn) -> ItemFn {
    let sig = &function.sig;
    let qualifiers = [
        sig.constness.as_ref().map(tokens),
        sig.asyncness.as_ref().map(tokens),
        sig.unsafety.as_ref().map(tokens),
        sig.abi.as_ref().map(tokens),
    ];
    ItemFn {
        attrs: all_tokens(&function.attrs),
        vis: tokens(&function.vis),
        sig: Signature {
            qualifiers: qualifiers.into_iter().flatten().collect::<Vec<_>>().join(" "),
            ident: sig.ident.to_string(),
            generics: tokens(&sig.generics),
            inputs: sig.inputs.iter().map(describe_arg).collect(),
            variadic: sig.variadic.as_ref().map(tokens),
            output: match &sig.output {
                syn::ReturnType::Default => ReturnType::Default,
                syn::ReturnType::Type(_, ty) => ReturnType::Type(match ty.as_ref() {
                    syn::Type::Path(path) => Type::Path(tokens(path)),
                    other => Type::Other(tokens(other)),
                }),
            },
            where_clause: sig.generics.where_clause.as_ref().map(tokens).unwrap_or_default(),
        },
        block: tokens(&function.block),
    }
}

fn describe(source: &str) -> Item {
    match syn::parse_str::<syn::Item>(source).unwrap() {
        syn::Item::Fn(function) => Item::Fn(describe_fn(&function)),
        _ => Item::Other,
    }
}

/// The two functions that `source` defines.
fn functions_in(source: &str) -> (syn::ItemFn, syn::ItemFn) {
    let file = syn::parse_file(source).unwrap();
    assert_eq!(file.items.len(), 2);
    let mut functions = file.items.into_iter().map(|item| match item {
        syn::Item::Fn(function) => function,
        other => panic!("not a function: {}", tokens(&other)),
    });
    (functions.next().unwrap(), functions.next().unwrap())
}

/// What the `doc` attribute of `function` says.
fn docs_of(function: &syn::ItemFn) -> String {
    assert_eq!(function.attrs.len(), 1);
    match function.attrs[0].parse_meta().unwrap() {
        syn::Meta::NameValue(pair) => {
            assert!(pair.path.is_ident("doc"));
            match pair.lit {
                syn::Lit::Str(text) => text.value(),
                other => panic!("not a string: {}", tokens(&other)),
            }
        }
        other => panic!("not a pair: {}", tokens(&other)),
    }
}

#[test]
fn a_free_function_from_source() {
    let source = "fn is_even(x: i32) -> bool { x % 2 == 0 }";
    let emission = negate(Vec::new(), describe(source), ()).unwrap();
    let (original, generated) = functions_in(&emission.to_source());

    assert_eq!(tokens(&original), tokens(&syn::parse_str::<syn::ItemFn>(source).unwrap()));
    assert_eq!(
        docs_of(&generated),
        "This is an automatically generated function that denies [`is_even`]. Consult the original function for more information."
    );
    let expected: syn::ItemFn =
        syn::parse_str("fn is_not_even(x: i32) -> bool { !is_even(x) }").unwrap();
    assert_eq!(tokens(&generated.vis), tokens(&expected.vis));
    assert_eq!(tokens(&generated.sig), tokens(&expected.sig));
    assert_eq!(tokens(&generated.block), tokens(&expected.block));
}

#[test]
fn a_method_from_source() {
    let source = "pub fn is_zero(&self) -> bool { let n: u64 = self.into(); n == 0 }";
    let emission = negate(Vec::new(), describe(source), ()).unwrap();
    let (original, generated) = functions_in(&emission.to_source());

    assert_eq!(tokens(&original), tokens(&syn::parse_str::<syn::ItemFn>(source).unwrap()));
    let expected: syn::ItemFn =
        syn::parse_str("pub fn is_not_zero(&self) -> bool { !self.is_zero() }").unwrap();
    assert_eq!(tokens(&generated.vis), tokens(&expected.vis));
    assert_eq!(tokens(&generated.sig), tokens(&expected.sig));
    assert_eq!(tokens(&generated.block), tokens(&expected.block));
}

#[test]
fn a_generic_function_from_source() {
    let source = "fn is_equal<T>(x: T, y: T) -> bool where T: Eq { x == y }";
    let emission = negate(Vec::new(), describe(source), ()).unwrap();
    let (original, generated) = functions_in(&emission.to_source());

    assert_eq!(tokens(&original), tokens(&syn::parse_str::<syn::ItemFn>(source).unwrap()));
    let expected: syn::ItemFn = syn::parse_str(
        "fn is_not_equal<T>(x: T, y: T) -> bool where T: Eq { !is_equal(x, y) }",
    )
    .unwrap();
    assert_eq!(tokens(&generated.sig), tokens(&expected.sig));
    assert_eq!(tokens(&generated.block), tokens(&expected.block));
}

#[test]
fn a_method_with_parameters_and_a_name() {
    let source = "#[negate(name = \"is_finished\")]
        pub fn is_ready(&mut self, id: usize, (low, high): (u8, u8)) -> bool { true }";
    let function = match describe(source) {
        Item::Fn(function) => ItemFn { attrs: String::new(), ..function },
        Item::Other => panic!("not a function"),
    };
    let emission = negate(arguments_of(source), Item::Fn(function), ()).unwrap();
    let (_, generated) = functions_in(&emission.to_source());

    let expected: syn::ItemFn = syn::parse_str(
        "pub fn is_finished(&mut self, id: usize, (low, high): (u8, u8)) -> bool {
            !self.is_ready(id, (low, high))
        }",
    )
    .unwrap();
    assert_eq!(tokens(&generated.vis), tokens(&expected.vis));
    assert_eq!(tokens(&generated.sig), tokens(&expected.sig));
    assert_eq!(tokens(&generated.block), tokens(&expected.block));
}

#[test]
fn qualifiers_and_attributes_from_source() {
    let source = "#[inline] pub(crate) const unsafe fn is_aligned<'a, T: Copy>(#[allow(unused)] at: &'a T) -> bool { true }";
    let emission = negate(Vec::new(), describe(source), ()).unwrap();
    let (original, generated) = functions_in(&emission.to_source());

    assert_eq!(tokens(&original), tokens(&syn::parse_str::<syn::ItemFn>(source).unwrap()));
    let expected: syn::ItemFn = syn::parse_str(
        "pub(crate) const unsafe fn is_not_aligned<'a, T: Copy>(#[allow(unused)] at: &'a T) -> bool { !is_aligned(at) }",
    )
    .unwrap();
    assert_eq!(tokens(&generated.vis), tokens(&expected.vis));
    assert_eq!(tokens(&generated.sig), tokens(&expected.sig));
    assert_eq!(tokens(&generated.block), tokens(&expected.block));
}

#[test]
fn options_from_source() {
    let source = "#[negate(name = \"is_odd\", docs = \"returns true if the given number is odd\")]
        fn is_even(x: i32) -> bool { x % 2 == 0 }";
    let function = match describe(source) {
        Item::Fn(function) => ItemFn { attrs: String::new(), ..function },
        Item::Other => panic!("not a function"),
    };
    let emission = negate(arguments_of(source), Item::Fn(function), ()).unwrap();
    let (_, generated) = functions_in(&emission.to_source());

    assert_eq!(generated.sig.ident, "is_odd");
    assert_eq!(docs_of(&generated), "returns true if the given number is odd");
}

#[test]
fn documentation_survives_the_literal() {
    let docs = "says \"no\"\tto 'even' \\ numbers:\n\u{0}7 \u{7f} é \u{301} \u{1F600}";
    let arguments = vec![NestedMeta::Meta(Meta::NameValue(MetaNameValue {
        path: Path { leading_colon: false, segments: vec!["docs".to_string()] },
        lit: Lit::Str(docs.to_string()),
    }))];
    let source = "fn is_even(x: i32) -> bool { x % 2 == 0 }";
    let emission = negate(arguments, describe(source), ()).unwrap();
    let (_, generated) = functions_in(&emission.to_source());

    assert_eq!(docs_of(&generated), docs);
}

#[test]
fn refused_arguments_from_source() {
    let message = |source: &str| {
        negate(arguments_of(source), describe(source), ()).unwrap_err().message
    };
    assert_eq!(
        message("#[negate(name = \"a\", docs = \"b\", name = \"c\")] fn is_even(x: i32) -> bool { true }"),
        Error::TooManyArgsSupplied.message()
    );
    assert_eq!(
        message("#[negate(name = \"a\", name = \"b\")] fn is_even(x: i32) -> bool { true }"),
        Error::ConflictingArgs.message()
    );
    assert_eq!(
        message("#[negate(color = \"blue\")] fn is_even(x: i32) -> bool { true }"),
        Error::UnexpectedName.message()
    );
    assert_eq!(
        message("#[negate(name = 7)] fn is_even(x: i32) -> bool { true }"),
        Error::StringLiteralExpected.message()
    );
    assert_eq!(
        message("#[negate(\"is_odd\")] fn is_even(x: i32) -> bool { true }"),
        Error::NestedMetaExpected.message()
    );
    assert_eq!(
        message("#[negate(name)] fn is_even(x: i32) -> bool { true }"),
        Error::NameValueExpected.message()
    );
    assert_eq!(
        message("#[negate(name(is_odd))] fn is_even(x: i32) -> bool { true }"),
        Error::NameValueExpected.message()
    );
    assert_eq!(
        message("#[negate(negate::name = \"is_odd\")] fn is_even(x: i32) -> bool { true }"),
        Error::UnexpectedName.message()
    );
}

#[test]
fn refused_items_from_source() {
    let message = |source: &str| negate(Vec::new(), describe(source), ()).unwrap_err().message;
    assert_eq!(message("struct Even(i32);"), Error::NotAppliedToAFunction.message());
    assert_eq!(message("type Truth = bool;"), Error::NotAppliedToAFunction.message());
    assert_eq!(
        message("fn is_even(x: i32) -> i32 { x % 2 }"),
        Error::DoesNotReturnBool.message()
    );
    assert_eq!(message("fn is_even(x: i32) { }"), Error::DoesNotReturnBool.message());
    assert_eq!(
        message("fn is_even(x: i32) -> Truth { x % 2 == 0 }"),
        Error::DoesNotReturnBool.message()
    );
    assert_eq!(
        message("fn is_even(x: i32) -> std::primitive::bool { x % 2 == 0 }"),
        Error::DoesNotReturnBool.message()
    );
    assert_eq!(
        message("fn is_even(x: i32) -> (bool) { x % 2 == 0 }"),
        Error::DoesNotReturnBool.message()
    );
    assert_eq!(
        message("fn even(x: i32) -> bool { x % 2 == 0 }"),
        Error::InvalidIdentifier.message()
    );
}
