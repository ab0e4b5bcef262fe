//! The annotated item as the library reads it.
//!
//! A function is held as the pieces of its definition. Each piece is the
//! text of its tokens; the library looks inside none of them but the name,
//! the parameter list and the return type.

use vstd::prelude::*;
use crate::text::{
    clone_text, followed, joined, lemma_texts_push, preceded, push_followed, push_joined,
    push_preceded, text_of, texts,
};

verus! {

/// A type, told apart only as far as the return-type check needs.
#[derive(Debug, PartialEq, Eq)]
pub enum Type {
    /// A path such as `bool` or `std::string::String`, with its tokens.
    Path(String),
    /// Any other type (a reference, a tuple, ...), with its tokens.
    Other(String),
}

/// The view of [`Type`]: its texts are sequences of characters.
pub enum TypeView {
    Path(Seq<char>),
    Other(Seq<char>),
}

impl View for Type {
    type V = TypeView;

    open spec fn view(&self) -> TypeView {
        match self {
            Type::Path(tokens) => TypeView::Path(tokens@),
            Type::Other(tokens) => TypeView::Other(tokens@),
        }
    }
}

impl TypeView {
    /// The tokens of the type.
    pub open spec fn tokens(self) -> Seq<char> {
        match self {
            TypeView::Path(tokens) => tokens,
            TypeView::Other(tokens) => tokens,
        }
    }
}

impl Clone for Type {
    fn clone(&self) -> (copy: Self)
        ensures
            copy@ == self@,
    {
        match self {
            Type::Path(tokens) => Type::Path(tokens.clone()),
            Type::Other(tokens) => Type::Other(tokens.clone()),
        }
    }
}

impl Type {
    /// The tokens of the type.
    pub fn tokens(&self) -> (tokens: &str)
        ensures
            tokens@ == self@.tokens(),
    {
        match self {
            Type::Path(tokens) => tokens.as_str(),
            Type::Other(tokens) => tokens.as_str(),
        }
    }
}

/// What a function says it returns.
#[derive(Debug, PartialEq, Eq)]
pub enum ReturnType {
    /// Nothing is written after the parameters.
    Default,
    /// An arrow and a type.
    Type(Type),
}

/// The view of [`ReturnType`]: its texts are sequences of characters.
pub enum ReturnTypeView {
    Default,
    Type(TypeView),
}

impl View for ReturnType {
    type V = ReturnTypeView;

    open spec fn view(&self) -> ReturnTypeView {
        match self {
            ReturnType::Default => ReturnTypeView::Default,
            ReturnType::Type(ty) => ReturnTypeView::Type(ty@),
        }
    }
}

impl ReturnTypeView {
    /// The return type as it stands in a signature, after the parameters.
    pub open spec fn source(self) -> Seq<char> {
        match self {
            ReturnTypeView::Default => Seq::empty(),
            ReturnTypeView::Type(ty) => " -> "@ + ty.tokens(),
        }
    }
}

impl Clone for ReturnType {
    fn clone(&self) -> (copy: Self)
        ensures
            copy@ == self@,
    {
        match self {
            ReturnType::Default => ReturnType::Default,
            ReturnType::Type(ty) => ReturnType::Type(ty.clone()),
        }
    }
}

impl ReturnType {
    /// Appends the return type to `out` as it stands in a signature.
    pub fn write_source(&self, out: &mut String)
        ensures
            final(out)@ == old(out)@ + self@.source(),
    {
        match self {
            ReturnType::Default => {},
            ReturnType::Type(ty) => {
                out.append(" -> ");
                out.append(ty.tokens());
            },
        }
    }
}

/// One parameter of a function.
#[derive(Debug, PartialEq, Eq)]
pub enum FnArg {
    /// `self`, `&self` or `&mut self`, with its tokens.
    Receiver(String),
    /// A pattern and the type of what it binds, each with its tokens, and
    /// the attributes written before them.
    Typed { attrs: String, pat: String, ty: String },
}

/// The view of [`FnArg`]: its texts are sequences of characters.
pub enum FnArgView {
    Receiver(Seq<char>),
    Typed { attrs: Seq<char>, pat: Seq<char>, ty: Seq<char> },
}

impl View for FnArg {
    type V = FnArgView;

    open spec fn view(&self) -> FnArgView {
        match self {
            FnArg::Receiver(tokens) => FnArgView::Receiver(tokens@),
            FnArg::Typed { attrs, pat, ty } => FnArgView::Typed {
                attrs: attrs@,
                pat: pat@,
                ty: ty@,
            },
        }
    }
}

impl FnArgView {
    /// The parameter as it stands between the parentheses of a signature.
    pub open spec fn source(self) -> Seq<char> {
        match self {
            FnArgView::Receiver(tokens) => tokens,
            FnArgView::Typed { attrs, pat, ty } => followed(attrs) + pat + ": "@ + ty,
        }
    }
}

impl Clone for FnArg {
    fn clone(&self) -> (copy: Self)
        ensures
            copy@ == self@,
    {
        match self {
            FnArg::Receiver(tokens) => FnArg::Receiver(tokens.clone()),
            FnArg::Typed { attrs, pat, ty } => FnArg::Typed {
                attrs: attrs.clone(),
                pat: pat.clone(),
                ty: ty.clone(),
            },
        }
    }
}

impl FnArg {
    /// The parameter as it stands between the parentheses of a signature.
    pub fn to_source(&self) -> (out: String)
        ensures
            out@ == self@.source(),
    {
        match self {
            FnArg::Receiver(tokens) => tokens.clone(),
            FnArg::Typed { attrs, pat, ty } => {
                let mut out = String::new();
                push_followed(&mut out, attrs.as_str());
                out.append(pat.as_str());
                out.append(": ");
                out.append(ty.as_str());
                out
            },
        }
    }
}

/// The views of `args`, in order.
pub open spec fn arg_views(args: Seq<FnArg>) -> Seq<FnArgView> {
    args.map_values(|arg: FnArg| arg@)
}

/// A copy of `args`.
pub(crate) fn clone_args(args: &Vec<FnArg>) -> (copy: Vec<FnArg>)
    ensures
        arg_views(copy@) == arg_views(args@),
{
    let mut copy: Vec<FnArg> = Vec::new();
    let mut i: usize = 0;
    while i < args.len()
        invariant
            i <= args.len(),
            copy@.len() == i,
            forall|k: int| 0 <= k < i ==> (#[trigger] copy@[k])@ == args@[k]@,
        decreases args.len() - i,
    {
        copy.push(args[i].clone());
        i = i + 1;
    }
    copy
}

/// The signature of a function: all that stands between its visibility and
/// its body.
#[derive(Debug, PartialEq, Eq)]
pub struct Signature {
    /// What stands before `fn`: `const`, `async`, `unsafe`, an ABI.
    pub qualifiers: String,
    /// The function's name.
    pub ident: String,
    /// The generic parameters with their angle brackets, or nothing.
    pub generics: String,
    /// The parameters, in order.
    pub inputs: Vec<FnArg>,
    /// The `...` that may close the parameter list.
    pub variadic: Option<String>,
    /// The return type.
    pub output: ReturnType,
    /// The `where` clause, or nothing.
    pub where_clause: String,
}

/// The view of [`Signature`]: its texts are sequences of characters.
pub struct SignatureView {
    pub qualifiers: Seq<char>,
    pub ident: Seq<char>,
    pub generics: Seq<char>,
    pub inputs: Seq<FnArgView>,
    pub variadic: Option<Seq<char>>,
    pub output: ReturnTypeView,
    pub where_clause: Seq<char>,
}

impl View for Signature {
    type V = SignatureView;

    open spec fn view(&self) -> SignatureView {
        SignatureView {
            qualifiers: self.qualifiers@,
            ident: self.ident@,
            generics: self.generics@,
            inputs: arg_views(self.inputs@),
            variadic: text_of(self.variadic),
            output: self.output@,
            where_clause: self.where_clause@,
        }
    }
}

impl SignatureView {
    /// What stands between the parentheses, one text for each parameter.
    pub open spec fn parameters(self) -> Seq<Seq<char>> {
        let inputs = self.inputs.map_values(|arg: FnArgView| arg.source());
        match self.variadic {
            Some(dots) => inputs.push(dots),
            None => inputs,
        }
    }

    /// The signature as source text.
    pub open spec fn source(self) -> Seq<char> {
        followed(self.qualifiers) + "fn "@ + self.ident + self.generics + "("@ + joined(
            self.parameters(),
            ", "@,
        ) + ")"@ + self.output.source() + preceded(self.where_clause)
    }

    /// This signature under another name.
    pub open spec fn renamed(self, ident: Seq<char>) -> SignatureView {
        SignatureView { ident, ..self }
    }
}

impl Clone for Signature {
    fn clone(&self) -> (copy: Self)
        ensures
            copy@ == self@,
    {
        Signature {
            qualifiers: self.qualifiers.clone(),
            ident: self.ident.clone(),
            generics: self.generics.clone(),
            inputs: clone_args(&self.inputs),
            variadic: clone_text(&self.variadic),
            output: self.output.clone(),
            where_clause: self.where_clause.clone(),
        }
    }
}

impl Signature {
    /// A copy of this signature in which only the name differs: it is
    /// `ident`.
    pub fn renamed(&self, ident: String) -> (signature: Signature)
        ensures
            signature@ == self@.renamed(ident@),
    {
        Signature {
            qualifiers: self.qualifiers.clone(),
            ident,
            generics: self.generics.clone(),
            inputs: clone_args(&self.inputs),
            variadic: clone_text(&self.variadic),
            output: self.output.clone(),
            where_clause: self.where_clause.clone(),
        }
    }

    /// The text of each parameter, in order.
    pub fn parameters(&self) -> (parameters: Vec<String>)
        ensures
            texts(parameters@) == self@.parameters(),
    {
        let ghost sources = self@.inputs.map_values(|arg: FnArgView| arg.source());
        let mut parameters: Vec<String> = Vec::new();
        let mut i: usize = 0;
        while i < self.inputs.len()
            invariant
                i <= self.inputs.len(),
                sources == self@.inputs.map_values(|arg: FnArgView| arg.source()),
                parameters@.len() == i,
                texts(parameters@) == sources.take(i as int),
            decreases self.inputs.len() - i,
        {
            let parameter = self.inputs[i].to_source();
            proof {
                lemma_texts_push(parameters@, parameter);
            }
            parameters.push(parameter);
            i = i + 1;
        }
        match &self.variadic {
            Some(dots) => {
                let dots = dots.clone();
                proof {
                    lemma_texts_push(parameters@, dots);
                }
                parameters.push(dots);
            },
            None => {},
        }
        parameters
    }

    /// Appends the signature to `out` as source text.
    pub fn write_source(&self, out: &mut String)
        ensures
            final(out)@ == old(out)@ + self@.source(),
    {
        let parameters = self.parameters();
        push_followed(out, self.qualifiers.as_str());
        out.append("fn ");
        out.append(self.ident.as_str());
        out.append(self.generics.as_str());
        out.append("(");
        push_joined(out, &parameters, ", ");
        out.append(")");
        self.output.write_source(out);
        push_preceded(out, self.where_clause.as_str());
    }
}

/// A function definition.
#[derive(Debug, PartialEq, Eq)]
pub struct ItemFn {
    /// The attributes written above the function.
    pub attrs: String,
    /// The visibility, or nothing.
    pub vis: String,
    pub sig: Signature,
    /// The body with its braces.
    pub block: String,
}

/// The view of [`ItemFn`]: its texts are sequences of characters.
pub struct ItemFnView {
    pub attrs: Seq<char>,
    pub vis: Seq<char>,
    pub sig: SignatureView,
    pub block: Seq<char>,
}

impl View for ItemFn {
    type V = ItemFnView;

    open spec fn view(&self) -> ItemFnView {
        ItemFnView { attrs: self.attrs@, vis: self.vis@, sig: self.sig@, block: self.block@ }
    }
}

impl ItemFnView {
    /// The definition as source text.
    pub open spec fn source(self) -> Seq<char> {
        followed(self.attrs) + followed(self.vis) + self.sig.source() + " "@ + self.block
    }
}

impl Clone for ItemFn {
    fn clone(&self) -> (copy: Self)
        ensures
            copy@ == self@,
    {
        ItemFn {
            attrs: self.attrs.clone(),
            vis: self.vis.clone(),
            sig: self.sig.clone(),
            block: self.block.clone(),
        }
    }
}

impl ItemFn {
    /// Appends the definition to `out` as source text.
    pub fn write_source(&self, out: &mut String)
        ensures
            final(out)@ == old(out)@ + self@.source(),
    {
        push_followed(out, self.attrs.as_str());
        push_followed(out, self.vis.as_str());
        self.sig.write_source(out);
        out.append(" ");
        out.append(self.block.as_str());
    }

    /// The definition as source text.
    pub fn to_source(&self) -> (out: String)
        ensures
            out@ == self@.source(),
    {
        let mut out = String::new();
        self.write_source(&mut out);
        out
    }
}

/// What the attribute was written on.
#[derive(Debug, PartialEq, Eq)]
pub enum Item {
    Fn(ItemFn),
    /// Anything that is not a function: a type, a constant, a module, ...
    Other,
}

/// The view of [`Item`]: its texts are sequences of characters.
pub enum ItemView {
    Fn(ItemFnView),
    Other,
}

impl View for Item {
    type V = ItemView;

    open spec fn view(&self) -> ItemView {
        match self {
            Item::Fn(function) => ItemView::Fn(function@),
            Item::Other => ItemView::Other,
        }
    }
}

} // verus!
