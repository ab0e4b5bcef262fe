//! The arguments of the attribute as the library reads them.

use vstd::prelude::*;
use crate::text::texts;

verus! {

/// A literal. Only a string literal carries its value: of the others the
/// library needs to know no more than that they are no strings.
#[derive(Debug, PartialEq, Eq)]
pub enum Lit {
    /// A string literal, with the text it denotes.
    Str(String),
    ByteStr,
    Byte,
    Char,
    Int,
    Float,
    Bool,
    Verbatim,
}

/// The view of [`Lit`]: its texts are sequences of characters.
pub enum LitView {
    Str(Seq<char>),
    ByteStr,
    Byte,
    Char,
    Int,
    Float,
    Bool,
    Verbatim,
}

impl View for Lit {
    type V = LitView;

    open spec fn view(&self) -> LitView {
        match self {
            Lit::Str(text) => LitView::Str(text@),
            Lit::ByteStr => LitView::ByteStr,
            Lit::Byte => LitView::Byte,
            Lit::Char => LitView::Char,
            Lit::Int => LitView::Int,
            Lit::Float => LitView::Float,
            Lit::Bool => LitView::Bool,
            Lit::Verbatim => LitView::Verbatim,
        }
    }
}

/// The path that names an argument: `name`, or `a::b`.
#[derive(Debug, PartialEq, Eq)]
pub struct Path {
    /// Whether the path begins with `::`.
    pub leading_colon: bool,
    /// The identifiers between the colons, in order.
    pub segments: Vec<String>,
}

/// The view of [`Path`]: its texts are sequences of characters.
pub struct PathView {
    pub leading_colon: bool,
    pub segments: Seq<Seq<char>>,
}

impl View for Path {
    type V = PathView;

    open spec fn view(&self) -> PathView {
        PathView { leading_colon: self.leading_colon, segments: texts(self.segments@) }
    }
}

impl PathView {
    /// Whether the path is the single identifier `ident`.
    pub open spec fn names(self, ident: Seq<char>) -> bool {
        &&& !self.leading_colon
        &&& self.segments.len() == 1
        &&& self.segments[0] == ident
    }
}

impl Path {
    /// Whether the path is the single identifier `ident`.
    pub fn is_ident(&self, ident: &str) -> (yes: bool)
        ensures
            yes == self@.names(ident@),
    {
        !self.leading_colon && self.segments.len() == 1 && self.segments[0] == String::from_str(
            ident,
        )
    }
}

/// An argument of the form `path = literal`.
#[derive(Debug, PartialEq, Eq)]
pub struct MetaNameValue {
    pub path: Path,
    pub lit: Lit,
}

/// The view of [`MetaNameValue`]: its texts are sequences of characters.
pub struct MetaNameValueView {
    pub path: PathView,
    pub lit: LitView,
}

impl View for MetaNameValue {
    type V = MetaNameValueView;

    open spec fn view(&self) -> MetaNameValueView {
        MetaNameValueView { path: self.path@, lit: self.lit@ }
    }
}

/// An argument that begins with a path.
#[derive(Debug, PartialEq, Eq)]
pub enum Meta {
    /// The path alone.
    Path(Path),
    /// The path and a list in parentheses.
    List(Path),
    /// The path, `=` and a literal.
    NameValue(MetaNameValue),
}

/// The view of [`Meta`]: its texts are sequences of characters.
pub enum MetaView {
    Path(PathView),
    List(PathView),
    NameValue(MetaNameValueView),
}

impl View for Meta {
    type V = MetaView;

    open spec fn view(&self) -> MetaView {
        match self {
            Meta::Path(path) => MetaView::Path(path@),
            Meta::List(path) => MetaView::List(path@),
            Meta::NameValue(pair) => MetaView::NameValue(pair@),
        }
    }
}

/// One argument of the attribute.
#[derive(Debug, PartialEq, Eq)]
pub enum NestedMeta {
    Meta(Meta),
    /// A bare literal.
    Lit(Lit),
}

/// The view of [`NestedMeta`]: its texts are sequences of characters.
pub enum NestedMetaView {
    Meta(MetaView),
    Lit(LitView),
}

impl View for NestedMeta {
    type V = NestedMetaView;

    open spec fn view(&self) -> NestedMetaView {
        match self {
            NestedMeta::Meta(meta) => NestedMetaView::Meta(meta@),
            NestedMeta::Lit(lit) => NestedMetaView::Lit(lit@),
        }
    }
}

/// The views of `metas`, in order.
pub open spec fn meta_views(metas: Seq<NestedMeta>) -> Seq<NestedMetaView> {
    metas.map_values(|meta: NestedMeta| meta@)
}

} // verus!
