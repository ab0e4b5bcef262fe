//! What holds of every expansion.

use vstd::prelude::*;
use crate::args::{
    docs, lemma_refusal_stays, names, parsed, setting, settings, ArgKindView, ArgsView,
};
use crate::error::Error;
use crate::expansion;
use crate::generator::{
    forwarded, has_receiver, identifier_for, is_bool, negated_name, negation, pattern_of,
    CallKind, EmissionView, NegatedCallView,
};
use crate::item::{FnArgView, ItemFnView, ItemView};
use crate::meta::{MetaView, NestedMetaView};

verus! {

/// With no name asked for, the predicate `is_X` is negated by `is_not_X`,
/// whatever `X` is.
pub proof fn law_derived_name(adjective: Seq<char>)
    ensures
        negated_name("is_"@ + adjective) == Some("is_not_"@ + adjective),
        identifier_for(None, "is_"@ + adjective) == Ok::<Seq<char>, Error>("is_not_"@ + adjective),
{
    let identifier = "is_"@ + adjective;
    assert(identifier.skip("is_"@.len() as int) =~= adjective);
}

/// A name that does not begin with `is_` has no negation of its own.
pub proof fn law_underivable_name(identifier: Seq<char>)
    requires
        !"is_"@.is_prefix_of(identifier),
    ensures
        identifier_for(None, identifier) == Err::<Seq<char>, Error>(Error::InvalidIdentifier),
{
}

/// A function that returns `bool` and is given a name is negated under
/// exactly that name, whatever its own name is.
pub proof fn law_override_name(func: ItemFnView, args: ArgsView, name: Seq<char>)
    requires
        is_bool(func.sig.output),
        args.name == Some(name),
    ensures
        negation(func, args) is Ok,
        negation(func, args)->Ok_0.generated.sig.ident == name,
{
}

/// The generated function differs from the original in its signature by
/// the name alone; it has the visibility of the original, and the original
/// is emitted as it came.
pub proof fn law_signature_kept(func: ItemFnView, args: ArgsView)
    requires
        negation(func, args) is Ok,
    ensures
        ({
            let emitted = negation(func, args)->Ok_0;
            &&& emitted.original == func
            &&& emitted.generated.vis == func.vis
            &&& emitted.generated.sig == func.sig.renamed(emitted.generated.sig.ident)
            &&& emitted.generated.sig.inputs == func.sig.inputs
            &&& emitted.generated.sig.output == func.sig.output
        }),
{
}

/// The negation of a function without receiver calls the original by its
/// name and hands it the pattern of every parameter, in order.
pub proof fn law_free_function_forwards(func: ItemFnView, args: ArgsView)
    requires
        negation(func, args) is Ok,
        !has_receiver(func.sig.inputs),
    ensures
        ({
            let body = negation(func, args)->Ok_0.generated.body;
            &&& body.kind == CallKind::Free
            &&& body.callee == func.sig.ident
            &&& body.args.len() == func.sig.inputs.len()
            &&& forall|i: int|
                0 <= i < func.sig.inputs.len() ==> pattern_of(#[trigger] func.sig.inputs[i])
                    == Some(body.args[i])
        }),
{
    lemma_forwarded_all(func.sig.inputs);
}

/// The negation of a method calls the original on `self`. Where the
/// receiver comes first and is the only one, it hands on the pattern of
/// every parameter behind it, in order.
pub proof fn law_method_forwards(func: ItemFnView, args: ArgsView)
    requires
        negation(func, args) is Ok,
        func.sig.inputs.len() > 0,
        func.sig.inputs[0] is Receiver,
        !has_receiver(func.sig.inputs.skip(1)),
    ensures
        ({
            let body = negation(func, args)->Ok_0.generated.body;
            &&& body.kind == CallKind::Associated
            &&& body.callee == func.sig.ident
            &&& body.args.len() == func.sig.inputs.len() - 1
            &&& forall|i: int|
                1 <= i < func.sig.inputs.len() ==> pattern_of(#[trigger] func.sig.inputs[i])
                    == Some(body.args[i - 1])
        }),
{
    let inputs = func.sig.inputs;
    let rest = inputs.skip(1);
    lemma_forwarded_all(rest);
    lemma_forwarded_behind_receiver(inputs);
    assert forall|i: int| 1 <= i < inputs.len() implies pattern_of(#[trigger] inputs[i]) == Some(
        forwarded(inputs)[i - 1],
    ) by {
        assert(inputs[i] == rest[i - 1]);
    }
}

/// Without a receiver among them, all `inputs` are handed on.
pub proof fn lemma_forwarded_all(inputs: Seq<FnArgView>)
    requires
        !has_receiver(inputs),
    ensures
        forwarded(inputs).len() == inputs.len(),
        forall|i: int|
            0 <= i < inputs.len() ==> pattern_of(#[trigger] inputs[i]) == Some(
                forwarded(inputs)[i],
            ),
    decreases inputs.len(),
{
    if inputs.len() > 0 {
        let front = inputs.drop_last();
        assert forall|i: int| 0 <= i < front.len() implies !(#[trigger] front[i] is Receiver) by {}
        lemma_forwarded_all(front);
        assert forall|i: int| 0 <= i < inputs.len() implies pattern_of(#[trigger] inputs[i])
            == Some(forwarded(inputs)[i]) by {
            if i < front.len() {
                assert(inputs[i] == front[i]);
            }
        }
    }
}

/// A receiver in front adds nothing to what is handed on.
pub proof fn lemma_forwarded_behind_receiver(inputs: Seq<FnArgView>)
    requires
        inputs.len() > 0,
        inputs[0] is Receiver,
    ensures
        forwarded(inputs) == forwarded(inputs.skip(1)),
    decreases inputs.len(),
{
    if inputs.len() == 1 {
        assert(inputs.drop_last() =~= Seq::empty());
        assert(inputs.skip(1) =~= Seq::empty());
    } else {
        lemma_forwarded_behind_receiver(inputs.drop_last());
        assert(inputs.drop_last().skip(1) =~= inputs.skip(1).drop_last());
    }
}

/// What `name` stands for in the body of a function that binds `patterns`
/// and was called with `arguments`, one for each pattern.
pub open spec fn bound<A>(patterns: Seq<Seq<char>>, arguments: Seq<A>, name: Seq<char>) -> A {
    arguments[patterns.index_of(name)]
}

/// What a function with the body `body` returns when it binds `patterns`
/// and is called with `arguments`, where `original` says what the function
/// that the body calls returns for the arguments it is given.
pub open spec fn result_of<A>(
    body: NegatedCallView,
    patterns: Seq<Seq<char>>,
    arguments: Seq<A>,
    original: spec_fn(Seq<A>) -> bool,
) -> bool {
    !original(body.args.map_values(|name: Seq<char>| bound(patterns, arguments, name)))
}

/// The function that a body makes of the function it calls.
pub open spec fn negated<A>(
    body: NegatedCallView,
    patterns: Seq<Seq<char>>,
    original: spec_fn(Seq<A>) -> bool,
) -> spec_fn(Seq<A>) -> bool {
    |arguments: Seq<A>| result_of(body, patterns, arguments, original)
}

/// Called with `arguments`, the generated function returns the negation of
/// what the original returns for them, on the same receiver where there is
/// one: every argument reaches the original, in its place.
///
/// This is so where no two parameters are bound by the same pattern.
pub proof fn law_negates<A>(
    func: ItemFnView,
    args: ArgsView,
    arguments: Seq<A>,
    original: spec_fn(Seq<A>) -> bool,
)
    requires
        negation(func, args) is Ok,
        forwarded(func.sig.inputs).no_duplicates(),
        arguments.len() == forwarded(func.sig.inputs).len(),
    ensures
        ({
            let generated = negation(func, args)->Ok_0.generated;
            result_of(generated.body, forwarded(generated.sig.inputs), arguments, original)
                == !original(arguments)
        }),
{
    let patterns = forwarded(func.sig.inputs);
    let handed = patterns.map_values(|name: Seq<char>| bound(patterns, arguments, name));
    assert forall|i: int| 0 <= i < patterns.len() implies handed[i] == arguments[i] by {}
    assert(handed =~= arguments);
}

/// The negation of the negation returns what the original returns.
///
/// `twin` is the generated function, taken as an item of its own.
pub proof fn law_double_negation<A>(
    func: ItemFnView,
    args: ArgsView,
    twin: ItemFnView,
    twin_args: ArgsView,
    arguments: Seq<A>,
    original: spec_fn(Seq<A>) -> bool,
)
    requires
        negation(func, args) is Ok,
        twin.sig == negation(func, args)->Ok_0.generated.sig,
        negation(twin, twin_args) is Ok,
        forwarded(func.sig.inputs).no_duplicates(),
        arguments.len() == forwarded(func.sig.inputs).len(),
    ensures
        ({
            let patterns = forwarded(func.sig.inputs);
            let first = negation(func, args)->Ok_0.generated.body;
            let second = negation(twin, twin_args)->Ok_0.generated.body;
            result_of(second, patterns, arguments, negated(first, patterns, original))
                == original(arguments)
        }),
{
    let patterns = forwarded(func.sig.inputs);
    let first = negation(func, args)->Ok_0.generated.body;
    law_negates(func, args, arguments, original);
    law_negates(twin, twin_args, arguments, negated(first, patterns, original));
}

/// A function whose return type is not written `bool` is refused for that,
/// whatever its name and whatever the options.
pub proof fn law_needs_bool(func: ItemFnView, args: ArgsView)
    requires
        !is_bool(func.sig.output),
    ensures
        negation(func, args) == Err::<EmissionView, Error>(Error::DoesNotReturnBool),
{
}

/// Whatever configuration the arguments make, a function whose return type
/// is not written `bool` is refused for that.
pub proof fn law_expansion_needs_bool(attrib_args: Seq<NestedMetaView>, func: ItemFnView)
    requires
        parsed(attrib_args) is Ok,
        !is_bool(func.sig.output),
    ensures
        expansion(attrib_args, ItemView::Fn(func)) == Err::<EmissionView, Error>(
            Error::DoesNotReturnBool,
        ),
{
}

/// What is emitted begins with the original, character for character; the
/// generated function follows behind an empty line.
pub proof fn law_original_first(emitted: EmissionView, doc_literal: Seq<char>)
    ensures
        emitted.original.source().is_prefix_of(emitted.source(doc_literal)),
        emitted.source(doc_literal).skip(emitted.original.source().len() as int) == "\n\n"@
            + emitted.generated.source(doc_literal),
{
    let original = emitted.original.source();
    let rest = "\n\n"@ + emitted.generated.source(doc_literal);
    assert(emitted.source(doc_literal) =~= original + rest);
    assert((original + rest).subrange(0, original.len() as int) =~= original);
    assert((original + rest).skip(original.len() as int) =~= rest);
}

/// Arguments that make a configuration, on an item that is no function,
/// fail for the item.
pub proof fn law_needs_function(attrib_args: Seq<NestedMetaView>)
    requires
        parsed(attrib_args) is Ok,
    ensures
        expansion(attrib_args, ItemView::Other) == Err::<EmissionView, Error>(
            Error::NotAppliedToAFunction,
        ),
{
}

/// A message tells which error it reports: no two errors share one.
pub proof fn law_message_tells_error(first: Error, second: Error)
    requires
        first.message_text() == second.message_text(),
    ensures
        first == second,
{
    reveal_strlit("`negate` can only be applied to functions");
    reveal_strlit("A string literal was expected but not found.");
    reveal_strlit("Too many arguments were supplied.");
    reveal_strlit("A nested structured meta item was expected but not found.");
    reveal_strlit("A name-value pair was expected but not found");
    reveal_strlit(
        "Expected names (in name-value pairs) are either \"docs\" or \"name\", but a different name was found.",
    );
    reveal_strlit(
        "Conflicting arguments were found. E.g. `name = generated_fn, name = my_name`",
    );
    reveal_strlit("This identifier is invalid!");
    reveal_strlit("the function does not seem to return a boolean value.");
    assert(Error::NotAppliedToAFunction.message_text().len() == 41);
    assert(Error::StringLiteralExpected.message_text().len() == 44);
    assert(Error::TooManyArgsSupplied.message_text().len() == 33);
    assert(Error::NestedMetaExpected.message_text().len() == 57);
    assert(Error::NameValueExpected.message_text().len() == 44);
    assert(Error::UnexpectedName.message_text().len() == 97);
    assert(Error::ConflictingArgs.message_text().len() == 76);
    assert(Error::InvalidIdentifier.message_text().len() == 27);
    assert(Error::DoesNotReturnBool.message_text().len() == 53);
    assert(Error::StringLiteralExpected.message_text()[2] == 's');
    assert(Error::NameValueExpected.message_text()[2] == 'n');
}

/// Arguments that are refused fail the invocation, whatever the item.
pub proof fn law_arguments_first(attrib_args: Seq<NestedMetaView>, item: ItemView)
    requires
        parsed(attrib_args) is Err,
    ensures
        expansion(attrib_args, item) == Err::<EmissionView, Error>(parsed(attrib_args)->Err_0),
{
}

/// The options that `metas` stand for are as many as `metas`, one for each.
pub proof fn lemma_settings_each(metas: Seq<NestedMetaView>)
    requires
        settings(metas) is Ok,
    ensures
        settings(metas)->Ok_0.len() == metas.len(),
        forall|i: int|
            0 <= i < metas.len() ==> setting(#[trigger] metas[i]) == Ok::<ArgKindView, Error>(
                settings(metas)->Ok_0[i],
            ),
    decreases metas.len(),
{
    if metas.len() > 0 {
        lemma_settings_each(metas.drop_last());
        assert forall|i: int| 0 <= i < metas.len() implies setting(#[trigger] metas[i]) == Ok::<
            ArgKindView,
            Error,
        >(settings(metas)->Ok_0[i]) by {
            if i < metas.len() - 1 {
                assert(metas[i] == metas.drop_last()[i]);
            }
        }
    }
}

/// Arguments that each stand for an option make those options.
pub proof fn lemma_settings_all(metas: Seq<NestedMetaView>)
    requires
        forall|i: int| 0 <= i < metas.len() ==> setting(#[trigger] metas[i]) is Ok,
    ensures
        settings(metas) is Ok,
    decreases metas.len(),
{
    if metas.len() > 0 {
        let front = metas.drop_last();
        assert forall|i: int| 0 <= i < front.len() implies setting(#[trigger] front[i]) is Ok by {}
        lemma_settings_all(front);
    }
}

/// The first argument that stands for no option decides: the arguments
/// are refused with what is wrong with it.
pub proof fn law_first_refusal(metas: Seq<NestedMetaView>, i: int)
    requires
        0 <= i < metas.len(),
        setting(metas[i]) is Err,
        forall|j: int| 0 <= j < i ==> setting(#[trigger] metas[j]) is Ok,
    ensures
        parsed(metas) == Err::<ArgsView, Error>(setting(metas[i])->Err_0),
{
    let upto = metas.take(i + 1);
    assert(upto.drop_last() =~= metas.take(i));
    assert forall|j: int| 0 <= j < i implies setting(#[trigger] metas.take(i)[j]) is Ok by {}
    lemma_settings_all(metas.take(i));
    lemma_refusal_stays(metas, i + 1);
}

/// More than two options are too many, whichever they are.
pub proof fn law_too_many(metas: Seq<NestedMetaView>)
    requires
        metas.len() > 2,
        forall|i: int| 0 <= i < metas.len() ==> setting(#[trigger] metas[i]) is Ok,
    ensures
        parsed(metas) == Err::<ArgsView, Error>(Error::TooManyArgsSupplied),
{
    lemma_settings_all(metas);
    lemma_settings_each(metas);
}

/// An argument with a key other than `name` and `docs`, behind none that is
/// refused, has the arguments refused for its key.
pub proof fn law_unexpected_name(metas: Seq<NestedMetaView>, i: int)
    requires
        0 <= i < metas.len(),
        metas[i] matches NestedMetaView::Meta(MetaView::NameValue(pair)) && !pair.path.names(
            "name"@,
        ) && !pair.path.names("docs"@),
        forall|j: int| 0 <= j < i ==> setting(#[trigger] metas[j]) is Ok,
    ensures
        parsed(metas) == Err::<ArgsView, Error>(Error::UnexpectedName),
{
    law_first_refusal(metas, i);
}

/// Two options for the same key are in conflict, whatever they are set to.
pub proof fn law_conflict(first: NestedMetaView, second: NestedMetaView)
    requires
        setting(first) is Ok,
        setting(second) is Ok,
        setting(first)->Ok_0 is Name <==> setting(second)->Ok_0 is Name,
    ensures
        parsed(seq![first, second]) == Err::<ArgsView, Error>(Error::ConflictingArgs),
{
    let metas = seq![first, second];
    lemma_settings_all(metas);
    lemma_settings_each(metas);
    let kinds = settings(metas)->Ok_0;
    let one = kinds.drop_last();
    let none = one.drop_last();
    if kinds[0] is Name {
        assert(names(none).len() == 0);
        assert(names(one).len() == 1);
    } else {
        assert(docs(none).len() == 0);
        assert(docs(one).len() == 1);
    }
}

} // verus!
