//! From a predicate function to the pair of definitions that replaces it.

use vstd::prelude::*;
use crate::args::{Args, ArgsView};
use crate::error::Error;
use crate::item::{
    FnArg, FnArgView, ItemFn, ItemFnView, ReturnType, ReturnTypeView, Signature, SignatureView,
    Type, TypeView,
};
use crate::text::{
    followed, joined, lemma_texts_push, push_followed, push_joined, string_literal, text_of,
    texts,
};

verus! {

/// What is left of `identifier` behind a leading `is_`, where it has one.
pub open spec fn adjective_of(identifier: Seq<char>) -> Option<Seq<char>> {
    if "is_"@.is_prefix_of(identifier) {
        Some(identifier.skip("is_"@.len() as int))
    } else {
        None
    }
}

/// The name derived from `identifier`: `is_not_` in place of its leading
/// `is_`.
pub open spec fn negated_name(identifier: Seq<char>) -> Option<Seq<char>> {
    match adjective_of(identifier) {
        Some(adjective) => Some("is_not_"@ + adjective),
        None => None,
    }
}

/// The name of the generated function: the one asked for, else the one
/// derived from the name of the original.
pub open spec fn identifier_for(name: Option<Seq<char>>, original: Seq<char>) -> Result<
    Seq<char>,
    Error,
> {
    match name {
        Some(name) => Ok(name),
        None => match negated_name(original) {
            Some(name) => Ok(name),
            None => Err(Error::InvalidIdentifier),
        },
    }
}

/// The documentation of the generated function: the one asked for, else a
/// sentence that points to the original.
pub open spec fn docstring_for(docs: Option<Seq<char>>, original: Seq<char>) -> Seq<char> {
    match docs {
        Some(docs) => docs,
        None => "This is an automatically generated function that denies [`"@ + original
            + "`]. Consult the original function for more information."@,
    }
}

/// Whether `output` is the type written `bool`.
pub open spec fn is_bool(output: ReturnTypeView) -> bool {
    output == ReturnTypeView::Type(TypeView::Path("bool"@))
}

/// The pattern that `arg` binds, unless `arg` is the receiver.
pub open spec fn pattern_of(arg: FnArgView) -> Option<Seq<char>> {
    match arg {
        FnArgView::Receiver(_) => None,
        FnArgView::Typed { pat, .. } => Some(pat),
    }
}

/// Whether one of `inputs` is a receiver.
pub open spec fn has_receiver(inputs: Seq<FnArgView>) -> bool {
    exists|i: int| 0 <= i < inputs.len() && #[trigger] inputs[i] is Receiver
}

/// What the generated function hands on to the original: the pattern of
/// every parameter but the receiver, in order.
pub open spec fn forwarded(inputs: Seq<FnArgView>) -> Seq<Seq<char>> {
    inputs.filter_map(|arg: FnArgView| pattern_of(arg))
}

/// The adjective of a predicate's name: `even` for `is_even`.
pub fn get_adjective(identifier: &str) -> (adjective: Option<&str>)
    ensures
        match adjective {
            Some(adjective) => adjective_of(identifier@) == Some(adjective@),
            None => adjective_of(identifier@) is None,
        },
{
    proof {
        reveal_strlit("is_");
    }
    let length: usize = identifier.unicode_len();
    if length < 3 {
        return None;
    }
    let first = identifier.get_char(0);
    let second = identifier.get_char(1);
    let third = identifier.get_char(2);
    if first != 'i' || second != 's' || third != '_' {
        proof {
            let head = identifier@.subrange(0, 3);
            assert(head[0] == first && head[1] == second && head[2] == third);
        }
        return None;
    }
    let adjective = identifier.substring_char(3, length);
    Some(adjective)
}

/// `is_not_even` for `is_even`.
pub fn negate_identifier(ident: &str) -> (name: Result<String, Error>)
    ensures
        match name {
            Ok(name) => negated_name(ident@) == Some(name@),
            Err(error) => error == Error::InvalidIdentifier && negated_name(ident@) is None,
        },
{
    match get_adjective(ident) {
        Some(adjective) => Ok(String::from_str("is_not_").concat(adjective)),
        None => Err(Error::InvalidIdentifier),
    }
}

/// The name of the function generated for `original_function`.
pub fn build_identifier(maybe_name: Option<String>, original_function: &ItemFn) -> (name: Result<
    String,
    Error,
>)
    ensures
        match name {
            Ok(name) => identifier_for(text_of(maybe_name), original_function@.sig.ident)
                == Ok::<Seq<char>, Error>(name@),
            Err(error) => identifier_for(
                text_of(maybe_name),
                original_function@.sig.ident,
            ) == Err::<Seq<char>, Error>(error),
        },
{
    match maybe_name {
        Some(name) => Ok(name),
        None => negate_identifier(original_function.sig.ident.as_str()),
    }
}

/// The documentation of the function generated for `original_function`.
pub fn build_docstring(maybe_docs: Option<String>, original_function: &ItemFn) -> (docs: String)
    ensures
        docs@ == docstring_for(text_of(maybe_docs), original_function@.sig.ident),
{
    match maybe_docs {
        Some(docs) => docs,
        None => {
            let mut docs = String::from_str(
                "This is an automatically generated function that denies [`",
            );
            docs.append(original_function.sig.ident.as_str());
            docs.append("`]. Consult the original function for more information.");
            docs
        },
    }
}

/// Whether `return_type` is written `bool`. Nothing is resolved: an alias
/// of `bool` is not `bool`.
pub fn returns_bool(return_type: &ReturnType) -> (yes: bool)
    ensures
        yes == is_bool(return_type@),
{
    match return_type {
        ReturnType::Default => false,
        ReturnType::Type(Type::Path(tokens)) => *tokens == String::from_str("bool"),
        ReturnType::Type(Type::Other(_)) => false,
    }
}

/// The pattern of `arg`, unless `arg` is the receiver.
pub fn pattern_from_arg(arg: &FnArg) -> (pattern: Option<&str>)
    ensures
        match pattern {
            Some(pattern) => pattern_of(arg@) == Some(pattern@),
            None => pattern_of(arg@) is None,
        },
{
    match arg {
        FnArg::Receiver(_) => None,
        FnArg::Typed { pat, .. } => Some(pat.as_str()),
    }
}

/// Whether `signature` is that of a method: one of its parameters is a
/// receiver.
pub fn is_associated_function(signature: &Signature) -> (yes: bool)
    ensures
        yes == has_receiver(signature@.inputs),
{
    let mut i: usize = 0;
    while i < signature.inputs.len()
        invariant
            i <= signature.inputs.len(),
            forall|k: int| 0 <= k < i ==> !(#[trigger] signature@.inputs[k] is Receiver),
        decreases signature.inputs.len() - i,
    {
        match &signature.inputs[i] {
            FnArg::Receiver(_) => {
                return true;
            },
            FnArg::Typed { .. } => {
                assert(signature@.inputs[i as int] is Typed);
            },
        }
        i = i + 1;
    }
    false
}

/// What the generated function hands on to the original.
pub fn forwarded_patterns(signature: &Signature) -> (patterns: Vec<String>)
    ensures
        texts(patterns@) == forwarded(signature@.inputs),
{
    let ghost inputs = signature@.inputs;
    let mut patterns: Vec<String> = Vec::new();
    let mut i: usize = 0;
    while i < signature.inputs.len()
        invariant
            i <= signature.inputs.len(),
            inputs == signature@.inputs,
            texts(patterns@) == forwarded(inputs.take(i as int)),
        decreases signature.inputs.len() - i,
    {
        proof {
            assert(inputs.take(i + 1).drop_last() =~= inputs.take(i as int));
        }
        match pattern_from_arg(&signature.inputs[i]) {
            Some(pattern) => {
                let pattern = String::from_str(pattern);
                proof {
                    lemma_texts_push(patterns@, pattern);
                }
                patterns.push(pattern);
            },
            None => {},
        }
        i = i + 1;
    }
    assert(inputs.take(signature.inputs.len() as int) =~= inputs);
    patterns
}

/// How the generated function reaches the original.
#[derive(Debug, Clone, Copy, PartialEq, Eq, Structural)]
pub enum CallKind {
    /// Through `self`: the original is a method.
    Associated,
    /// By its name alone: the original is a free function.
    Free,
}

/// The body of a generated function: the negation of one call.
#[derive(Debug, PartialEq, Eq)]
pub struct NegatedCall {
    pub kind: CallKind,
    /// The name of the function that is called.
    pub callee: String,
    /// The arguments, in order.
    pub args: Vec<String>,
}

/// The view of [`NegatedCall`]: its texts are sequences of characters.
pub struct NegatedCallView {
    pub kind: CallKind,
    pub callee: Seq<char>,
    pub args: Seq<Seq<char>>,
}

impl View for NegatedCall {
    type V = NegatedCallView;

    open spec fn view(&self) -> NegatedCallView {
        NegatedCallView { kind: self.kind, callee: self.callee@, args: texts(self.args@) }
    }
}

impl NegatedCallView {
    /// The expression as source text.
    pub open spec fn source(self) -> Seq<char> {
        "!"@ + (match self.kind {
            CallKind::Associated => "self."@,
            CallKind::Free => Seq::empty(),
        }) + self.callee + "("@ + joined(self.args, ", "@) + ")"@
    }
}

impl NegatedCall {
    /// Appends the expression to `out` as source text.
    pub fn write_source(&self, out: &mut String)
        ensures
            final(out)@ == old(out)@ + self@.source(),
    {
        out.append("!");
        match self.kind {
            CallKind::Associated => {
                out.append("self.");
            },
            CallKind::Free => {},
        }
        out.append(self.callee.as_str());
        out.append("(");
        push_joined(out, &self.args, ", ");
        out.append(")");
    }
}

/// The function that is generated.
#[derive(Debug, PartialEq, Eq)]
pub struct NegatedFn {
    /// Its documentation.
    pub docs: String,
    /// Its visibility.
    pub vis: String,
    pub sig: Signature,
    pub body: NegatedCall,
}

/// The view of [`NegatedFn`]: its texts are sequences of characters.
pub struct NegatedFnView {
    pub docs: Seq<char>,
    pub vis: Seq<char>,
    pub sig: SignatureView,
    pub body: NegatedCallView,
}

impl View for NegatedFn {
    type V = NegatedFnView;

    open spec fn view(&self) -> NegatedFnView {
        NegatedFnView { docs: self.docs@, vis: self.vis@, sig: self.sig@, body: self.body@ }
    }
}

impl NegatedFnView {
    /// The definition without its documentation, as source text.
    pub open spec fn definition(self) -> Seq<char> {
        followed(self.vis) + self.sig.source() + " { "@ + self.body.source() + " }"@
    }

    /// The documented definition as source text, where `doc_literal` is the
    /// documentation written as a string literal.
    pub open spec fn source(self, doc_literal: Seq<char>) -> Seq<char> {
        "#[doc = "@ + doc_literal + "]\n"@ + self.definition()
    }
}

impl NegatedFn {
    /// Appends the definition, without its documentation, to `out`.
    pub fn write_definition(&self, out: &mut String)
        ensures
            final(out)@ == old(out)@ + self@.definition(),
    {
        push_followed(out, self.vis.as_str());
        self.sig.write_source(out);
        out.append(" { ");
        self.body.write_source(out);
        out.append(" }");
    }

    /// Appends the documented definition to `out`, with `doc_literal` for
    /// the documentation.
    pub fn write_source_with(&self, doc_literal: &str, out: &mut String)
        ensures
            final(out)@ == old(out)@ + self@.source(doc_literal@),
    {
        out.append("#[doc = ");
        out.append(doc_literal);
        out.append("]\n");
        self.write_definition(out);
    }

    /// The definition without its documentation, as source text.
    pub fn definition(&self) -> (out: String)
        ensures
            out@ == self@.definition(),
    {
        let mut out = String::new();
        self.write_definition(&mut out);
        out
    }

    /// The documented definition as source text, with `doc_literal` for the
    /// documentation.
    pub fn to_source_with(&self, doc_literal: &str) -> (out: String)
        ensures
            out@ == self@.source(doc_literal@),
    {
        let mut out = String::new();
        self.write_source_with(doc_literal, &mut out);
        out
    }

    /// The documented definition as source text. The documentation stands
    /// in a `doc` attribute, as the string literal that `proc_macro2` makes
    /// of it.
    pub fn to_source(&self) -> (out: String)
        ensures
            exists|doc_literal: Seq<char>| out@ == #[trigger] self@.source(doc_literal),
    {
        let doc_literal = string_literal(self.docs.as_str());
        self.to_source_with(doc_literal.as_str())
    }
}

/// What takes the place of the annotated function.
#[derive(Debug, PartialEq, Eq)]
pub struct Emission {
    /// The annotated function, as it came.
    pub original: ItemFn,
    /// Its negation.
    pub generated: NegatedFn,
}

/// The view of [`Emission`]: its texts are sequences of characters.
pub struct EmissionView {
    pub original: ItemFnView,
    pub generated: NegatedFnView,
}

impl View for Emission {
    type V = EmissionView;

    open spec fn view(&self) -> EmissionView {
        EmissionView { original: self.original@, generated: self.generated@ }
    }
}

impl EmissionView {
    /// Both definitions as source text, the original first.
    pub open spec fn source(self, doc_literal: Seq<char>) -> Seq<char> {
        self.original.source() + "\n\n"@ + self.generated.source(doc_literal)
    }
}

impl Emission {
    /// Both definitions as source text, with `doc_literal` for the
    /// documentation of the second.
    pub fn to_source_with(&self, doc_literal: &str) -> (out: String)
        ensures
            out@ == self@.source(doc_literal@),
    {
        let mut out = String::new();
        self.original.write_source(&mut out);
        out.append("\n\n");
        self.generated.write_source_with(doc_literal, &mut out);
        out
    }

    /// Both definitions as source text, the original first.
    pub fn to_source(&self) -> (out: String)
        ensures
            exists|doc_literal: Seq<char>| out@ == #[trigger] self@.source(doc_literal),
    {
        let doc_literal = string_literal(self.generated.docs.as_str());
        self.to_source_with(doc_literal.as_str())
    }
}

/// The pair of definitions in which `signature` and `docs` belong to the
/// second, and its body calls `original` in the way `kind` says.
pub open spec fn emission(
    original: ItemFnView,
    signature: SignatureView,
    docs: Seq<char>,
    kind: CallKind,
) -> EmissionView {
    EmissionView {
        original,
        generated: NegatedFnView {
            docs,
            vis: original.vis,
            sig: signature,
            body: NegatedCallView {
                kind,
                callee: original.sig.ident,
                args: forwarded(signature.inputs),
            },
        },
    }
}

fn generate(
    original_function: ItemFn,
    new_signature: Signature,
    doc_string: String,
    kind: CallKind,
) -> (generated: Emission)
    ensures
        generated@ == emission(original_function@, new_signature@, doc_string@, kind),
{
    let body = NegatedCall {
        kind,
        callee: original_function.sig.ident.clone(),
        args: forwarded_patterns(&new_signature),
    };
    let generated = NegatedFn {
        docs: doc_string,
        vis: original_function.vis.clone(),
        sig: new_signature,
        body,
    };
    Emission { original: original_function, generated }
}

/// The negation of a method: its body calls the original on `self`, with
/// every parameter but the receiver.
pub fn generate_associated_fn(
    original_function: ItemFn,
    new_signature: Signature,
    doc_string: String,
) -> (generated: Emission)
    ensures
        generated@ == emission(
            original_function@,
            new_signature@,
            doc_string@,
            CallKind::Associated,
        ),
{
    generate(original_function, new_signature, doc_string, CallKind::Associated)
}

/// The negation of a free function: its body calls the original by name,
/// with every parameter.
pub fn generate_non_associated_fn(
    original_function: ItemFn,
    new_signature: Signature,
    doc_string: String,
) -> (generated: Emission)
    ensures
        generated@ == emission(original_function@, new_signature@, doc_string@, CallKind::Free),
{
    generate(original_function, new_signature, doc_string, CallKind::Free)
}

/// How a function with these `inputs` is called.
pub open spec fn call_kind(inputs: Seq<FnArgView>) -> CallKind {
    if has_receiver(inputs) {
        CallKind::Associated
    } else {
        CallKind::Free
    }
}

/// What is emitted for `func` under the options `args`, or why nothing is.
///
/// The return type is looked at first: a function that does not return
/// `bool` is refused for that, whatever its name.
pub open spec fn negation(func: ItemFnView, args: ArgsView) -> Result<EmissionView, Error> {
    if !is_bool(func.sig.output) {
        Err(Error::DoesNotReturnBool)
    } else {
        match identifier_for(args.name, func.sig.ident) {
            Err(error) => Err(error),
            Ok(ident) => Ok(
                emission(
                    func,
                    func.sig.renamed(ident),
                    docstring_for(args.docs, func.sig.ident),
                    call_kind(func.sig.inputs),
                ),
            ),
        }
    }
}

/// Generates the negation of `func`.
pub fn gen_negated_function(func: ItemFn, args: Args) -> (outcome: Result<Emission, Error>)
    ensures
        match outcome {
            Ok(generated) => negation(func@, args@) == Ok::<EmissionView, Error>(generated@),
            Err(error) => negation(func@, args@) == Err::<EmissionView, Error>(error),
        },
{
    let maybe_name = args.name;
    let maybe_docs = args.docs;

    if !returns_bool(&func.sig.output) {
        return Err(Error::DoesNotReturnBool);
    }
    let negated_identifier = match build_identifier(maybe_name, &func) {
        Ok(ident) => ident,
        Err(error) => {
            return Err(error);
        },
    };

    let original_function = func;
    let new_signature = original_function.sig.renamed(negated_identifier);
    let doc_string = build_docstring(maybe_docs, &original_function);

    if is_associated_function(&new_signature) {
        Ok(generate_associated_fn(original_function, new_signature, doc_string))
    } else {
        Ok(generate_non_associated_fn(original_function, new_signature, doc_string))
    }
}

} // verus!
