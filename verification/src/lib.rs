//! Generation of the negated twin of a predicate function.
//!
//! Given the description of a function that returns `bool`, the library
//! derives the name and documentation of a second function and emits both as
//! source: the function as it came, followed by one with the same signature
//! under the new name whose body is the negation of a call to the first.
//!
//! The library reads no source itself. Its caller parses the attribute's
//! arguments and the annotated item, and hands them over as the plain
//! values of [`meta`] and [`item`].

pub mod args;
pub mod error;
pub mod generator;
pub mod item;
pub mod laws;
pub mod meta;
pub mod text;

use vstd::prelude::*;
use crate::args::{parse_args, parsed};
use crate::error::{build_compile_error, Diagnostic, Error};
use crate::generator::{gen_negated_function, negation, Emission, EmissionView};
use crate::item::{Item, ItemView};
use crate::meta::{meta_views, NestedMeta, NestedMetaView};

verus! {

/// What one invocation comes to: the pair of definitions to emit, or the
/// error it fails with.
///
/// The arguments are judged before the item is: with arguments that are
/// refused, nothing is said of the item.
pub open spec fn expansion(attrib_args: Seq<NestedMetaView>, item: ItemView) -> Result<
    EmissionView,
    Error,
> {
    match parsed(attrib_args) {
        Err(error) => Err(error),
        Ok(args) => match item {
            ItemView::Fn(function) => negation(function, args),
            ItemView::Other => Err(Error::NotAppliedToAFunction),
        },
    }
}

/// Expands one invocation of the attribute, written with the arguments
/// `attrib_args` on `item`, which stands at `span`.
///
/// Either both definitions are emitted or, with a diagnostic at `span`,
/// none.
pub fn negate<S>(attrib_args: Vec<NestedMeta>, item: Item, span: S) -> (outcome: Result<
    Emission,
    Diagnostic<S>,
>)
    ensures
        match outcome {
            Ok(emission) => expansion(meta_views(attrib_args@), item@) == Ok::<
                EmissionView,
                Error,
            >(emission@),
            Err(diagnostic) => {
                &&& diagnostic.span == span
                &&& expansion(meta_views(attrib_args@), item@) matches Err(error)
                &&& diagnostic.message@ == error.message_text()
            },
        },
{
    let args = match parse_args(attrib_args) {
        Ok(parsed_args) => parsed_args,
        Err(error) => {
            return Err(build_compile_error(span, error));
        },
    };
    match item {
        Item::Fn(function) => match gen_negated_function(function, args) {
            Ok(emission) => Ok(emission),
            Err(error) => Err(build_compile_error(span, error)),
        },
        Item::Other => Err(build_compile_error(span, Error::NotAppliedToAFunction)),
    }
}

} // verus!
