//! The options of one invocation.

use vstd::prelude::*;
use crate::error::Error;
use crate::text::text_of;
use crate::meta::{meta_views, Lit, LitView, Meta, MetaView, NestedMeta, NestedMetaView};

verus! {

/// The options as supplied: each is set at most once.
#[derive(Debug, PartialEq, Eq)]
pub struct Args {
    /// The name of the generated function.
    pub name: Option<String>,
    /// The documentation of the generated function.
    pub docs: Option<String>,
}

/// The view of [`Args`]: its texts are sequences of characters.
pub struct ArgsView {
    pub name: Option<Seq<char>>,
    pub docs: Option<Seq<char>>,
}

impl View for Args {
    type V = ArgsView;

    open spec fn view(&self) -> ArgsView {
        ArgsView { name: text_of(self.name), docs: text_of(self.docs) }
    }
}

impl ArgsView {
    /// No option is set.
    pub open spec fn unset() -> ArgsView {
        ArgsView { name: None, docs: None }
    }
}

impl Default for Args {
    fn default() -> (args: Self)
        ensures
            args@ == ArgsView::unset(),
    {
        Args { name: None, docs: None }
    }
}

impl Args {
    /// Sets the name, unless one is set already.
    pub fn set_name(&mut self, name: String) -> (outcome: Result<(), Error>)
        ensures
            old(self).name is Some ==> outcome == Err::<(), Error>(Error::ConflictingArgs)
                && *final(self) == *old(self),
            old(self).name is None ==> outcome is Ok && final(self).name == Some(name)
                && final(self).docs == old(self).docs,
    {
        if self.name.is_some() {
            Err(Error::ConflictingArgs)
        } else {
            self.name = Some(name);
            Ok(())
        }
    }

    /// Sets the documentation, unless one is set already.
    pub fn set_docs(&mut self, docs: String) -> (outcome: Result<(), Error>)
        ensures
            old(self).docs is Some ==> outcome == Err::<(), Error>(Error::ConflictingArgs)
                && *final(self) == *old(self),
            old(self).docs is None ==> outcome is Ok && final(self).docs == Some(docs)
                && final(self).name == old(self).name,
    {
        if self.docs.is_some() {
            Err(Error::ConflictingArgs)
        } else {
            self.docs = Some(docs);
            Ok(())
        }
    }
}

/// One option, recognised.
#[derive(Debug, PartialEq, Eq)]
pub enum ArgKind {
    Docs(String),
    Name(String),
}

/// The view of [`ArgKind`]: its texts are sequences of characters.
pub enum ArgKindView {
    Docs(Seq<char>),
    Name(Seq<char>),
}

impl View for ArgKind {
    type V = ArgKindView;

    open spec fn view(&self) -> ArgKindView {
        match self {
            ArgKind::Docs(docs) => ArgKindView::Docs(docs@),
            ArgKind::Name(name) => ArgKindView::Name(name@),
        }
    }
}

/// The text that `literal` denotes, if it is a string literal.
pub open spec fn string_of(literal: LitView) -> Result<Seq<char>, Error> {
    match literal {
        LitView::Str(text) => Ok(text),
        _ => Err(Error::StringLiteralExpected),
    }
}

/// The option that `nested_meta` stands for, or why it stands for none.
///
/// The argument has to be a pair of a key and a literal. Its key is looked
/// at before its literal: an unknown key is reported whatever it is set to.
pub open spec fn setting(nested_meta: NestedMetaView) -> Result<ArgKindView, Error> {
    match nested_meta {
        NestedMetaView::Lit(_) => Err(Error::NestedMetaExpected),
        NestedMetaView::Meta(MetaView::NameValue(pair)) => {
            if pair.path.names("docs"@) {
                match string_of(pair.lit) {
                    Ok(docs) => Ok(ArgKindView::Docs(docs)),
                    Err(error) => Err(error),
                }
            } else if pair.path.names("name"@) {
                match string_of(pair.lit) {
                    Ok(name) => Ok(ArgKindView::Name(name)),
                    Err(error) => Err(error),
                }
            } else {
                Err(Error::UnexpectedName)
            }
        },
        NestedMetaView::Meta(_) => Err(Error::NameValueExpected),
    }
}

/// The options that `metas` stand for, in order; or, where one of them
/// stands for none, what is wrong with the first such.
pub open spec fn settings(metas: Seq<NestedMetaView>) -> Result<Seq<ArgKindView>, Error>
    decreases metas.len(),
{
    if metas.len() == 0 {
        Ok(Seq::empty())
    } else {
        match settings(metas.drop_last()) {
            Err(error) => Err(error),
            Ok(kinds) => match setting(metas.last()) {
                Err(error) => Err(error),
                Ok(kind) => Ok(kinds.push(kind)),
            },
        }
    }
}

/// The names that `kinds` set, in order.
pub open spec fn names(kinds: Seq<ArgKindView>) -> Seq<Seq<char>> {
    kinds.filter_map(
        |kind: ArgKindView|
            match kind {
                ArgKindView::Name(name) => Some(name),
                ArgKindView::Docs(_) => None,
            },
    )
}

/// The documentations that `kinds` set, in order.
pub open spec fn docs(kinds: Seq<ArgKindView>) -> Seq<Seq<char>> {
    kinds.filter_map(
        |kind: ArgKindView|
            match kind {
                ArgKindView::Docs(docs) => Some(docs),
                ArgKindView::Name(_) => None,
            },
    )
}

/// The only element of `values`, if it has exactly one.
pub open spec fn only(values: Seq<Seq<char>>) -> Option<Seq<char>> {
    if values.len() == 1 {
        Some(values[0])
    } else {
        None
    }
}

/// The configuration that `kinds` make: at most two options, none of them
/// set twice.
pub open spec fn configuration(kinds: Seq<ArgKindView>) -> Result<ArgsView, Error> {
    if kinds.len() > 2 {
        Err(Error::TooManyArgsSupplied)
    } else if names(kinds).len() > 1 || docs(kinds).len() > 1 {
        Err(Error::ConflictingArgs)
    } else {
        Ok(ArgsView { name: only(names(kinds)), docs: only(docs(kinds)) })
    }
}

/// The configuration that the arguments `metas` make, or the error they
/// are refused with. An argument that stands for no option is reported
/// before their number or a conflict among them is.
pub open spec fn parsed(metas: Seq<NestedMetaView>) -> Result<ArgsView, Error> {
    match settings(metas) {
        Err(error) => Err(error),
        Ok(kinds) => configuration(kinds),
    }
}

/// The views of `kinds`, in order.
pub open spec fn kind_views(kinds: Seq<ArgKind>) -> Seq<ArgKindView> {
    kinds.map_values(|kind: ArgKind| kind@)
}

/// Once the first `n` of `metas` are refused, so are all of them, for the
/// same reason.
pub proof fn lemma_refusal_stays(metas: Seq<NestedMetaView>, n: int)
    requires
        0 <= n <= metas.len(),
        settings(metas.take(n)) is Err,
    ensures
        settings(metas) == settings(metas.take(n)),
    decreases metas.len(),
{
    if n == metas.len() {
        assert(metas.take(n) =~= metas);
    } else {
        assert(metas.drop_last().take(n) =~= metas.take(n));
        lemma_refusal_stays(metas.drop_last(), n);
    }
}

/// The text of a string literal.
pub fn literal_into_string_literal(literal: Lit) -> (text: Result<String, Error>)
    ensures
        match text {
            Ok(text) => string_of(literal@) == Ok::<Seq<char>, Error>(text@),
            Err(error) => string_of(literal@) == Err::<Seq<char>, Error>(error),
        },
{
    match literal {
        Lit::Str(text) => Ok(text),
        _ => Err(Error::StringLiteralExpected),
    }
}

/// The option that one argument stands for.
pub fn parse_meta_into_string_literal(nested_meta: NestedMeta) -> (kind: Result<ArgKind, Error>)
    ensures
        match kind {
            Ok(kind) => setting(nested_meta@) == Ok::<ArgKindView, Error>(kind@),
            Err(error) => setting(nested_meta@) == Err::<ArgKindView, Error>(error),
        },
{
    let meta = match nested_meta {
        NestedMeta::Meta(meta) => meta,
        NestedMeta::Lit(_) => {
            return Err(Error::NestedMetaExpected);
        },
    };
    let pair = match meta {
        Meta::NameValue(pair) => pair,
        _ => {
            return Err(Error::NameValueExpected);
        },
    };
    if pair.path.is_ident("docs") {
        match literal_into_string_literal(pair.lit) {
            Ok(docs) => Ok(ArgKind::Docs(docs)),
            Err(error) => Err(error),
        }
    } else if pair.path.is_ident("name") {
        match literal_into_string_literal(pair.lit) {
            Ok(name) => Ok(ArgKind::Name(name)),
            Err(error) => Err(error),
        }
    } else {
        Err(Error::UnexpectedName)
    }
}

/// The configuration that the arguments of an invocation make.
pub fn parse_args(attrib_args: Vec<NestedMeta>) -> (outcome: Result<Args, Error>)
    ensures
        match outcome {
            Ok(args) => parsed(meta_views(attrib_args@)) == Ok::<ArgsView, Error>(args@),
            Err(error) => parsed(meta_views(attrib_args@)) == Err::<ArgsView, Error>(error),
        },
{
    let mut args = Args::default();

    if attrib_args.len() == 0 {
        return Ok(args);
    }
    let ghost metas = meta_views(attrib_args@);
    let mut literals: Vec<ArgKind> = Vec::new();
    proof {
        assert(kind_views(literals@) =~= Seq::empty());
    }
    for nested_meta in iter: attrib_args
        invariant
            metas == meta_views(iter.seq()),
            settings(metas.take(iter.index())) == Ok::<Seq<ArgKindView>, Error>(
                kind_views(literals@),
            ),
    {
        proof {
            assert(metas.take(iter.index() + 1).drop_last() =~= metas.take(iter.index()));
        }
        match parse_meta_into_string_literal(nested_meta) {
            Ok(kind) => {
                proof {
                    assert(kind_views(literals@.push(kind)) =~= kind_views(literals@).push(kind@));
                }
                literals.push(kind);
            },
            Err(error) => {
                proof {
                    lemma_refusal_stays(metas, iter.index() + 1);
                }
                return Err(error);
            },
        }
    }
    assert(metas.take(metas.len() as int) =~= metas);

    if literals.len() > 2 {
        return Err(Error::TooManyArgsSupplied);
    }
    let ghost kinds = kind_views(literals@);
    for literal in iter: literals
        invariant
            metas == meta_views(attrib_args@),
            settings(metas) == Ok::<Seq<ArgKindView>, Error>(kinds),
            kinds.len() <= 2,
            kinds == kind_views(iter.seq()),
            names(kinds.take(iter.index())).len() <= 1,
            docs(kinds.take(iter.index())).len() <= 1,
            args@ == (ArgsView {
                name: only(names(kinds.take(iter.index()))),
                docs: only(docs(kinds.take(iter.index()))),
            }),
    {
        proof {
            assert(kinds.take(iter.index() + 1).drop_last() =~= kinds.take(iter.index()));
        }
        match literal {
            ArgKind::Docs(docs) => match args.set_docs(docs) {
                Ok(()) => {},
                Err(error) => {
                    return Err(error);
                },
            },
            ArgKind::Name(name) => match args.set_name(name) {
                Ok(()) => {},
                Err(error) => {
                    return Err(error);
                },
            },
        }
    }
    assert(kinds.take(kinds.len() as int) =~= kinds);
    Ok(args)
}

} // verus!
