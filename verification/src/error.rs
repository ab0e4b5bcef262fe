//! The ways an expansion can fail, and the diagnostic each is reported with.

use vstd::prelude::*;

verus! {

/// Every way in which an expansion is refused.
#[derive(Debug, Clone, Copy, PartialEq, Eq, Structural)]
pub enum Error {
    /// The function's return type is not written as `bool`.
    DoesNotReturnBool,
    /// No name was supplied and the function's own does not begin with `is_`.
    InvalidIdentifier,
    /// The value of an option is not a string literal.
    StringLiteralExpected,
    /// More than two options were supplied.
    TooManyArgsSupplied,
    /// A bare literal stands where an option was expected.
    NestedMetaExpected,
    /// An option is not of the form `key = value`.
    NameValueExpected,
    /// The key of an option is neither `name` nor `docs`.
    UnexpectedName,
    /// The same option was supplied more than once.
    ConflictingArgs,
    /// The annotated item is not a function.
    NotAppliedToAFunction,
}

impl Error {
    /// The text a user is shown for this error.
    pub open spec fn message_text(self) -> Seq<char> {
        match self {
            Error::NotAppliedToAFunction => "`negate` can only be applied to functions"@,
            Error::StringLiteralExpected => "A string literal was expected but not found."@,
            Error::TooManyArgsSupplied => "Too many arguments were supplied."@,
            Error::NestedMetaExpected => "A nested structured meta item was expected but not found."@,
            Error::NameValueExpected => "A name-value pair was expected but not found"@,
            Error::UnexpectedName => "Expected names (in name-value pairs) are either \"docs\" or \"name\", but a different name was found."@,
            Error::ConflictingArgs => "Conflicting arguments were found. E.g. `name = generated_fn, name = my_name`"@,
            Error::InvalidIdentifier => "This identifier is invalid!"@,
            Error::DoesNotReturnBool => "the function does not seem to return a boolean value."@,
        }
    }

    /// The text a user is shown for this error.
    pub fn message(&self) -> (text: String)
        ensures
            text@ == self.message_text(),
    {
        match self {
            Error::NotAppliedToAFunction => String::from_str("`negate` can only be applied to functions"),
            Error::StringLiteralExpected => String::from_str("A string literal was expected but not found."),
            Error::TooManyArgsSupplied => String::from_str("Too many arguments were supplied."),
            Error::NestedMetaExpected => String::from_str("A nested structured meta item was expected but not found."),
            Error::NameValueExpected => String::from_str("A name-value pair was expected but not found"),
            Error::UnexpectedName => String::from_str("Expected names (in name-value pairs) are either \"docs\" or \"name\", but a different name was found."),
            Error::ConflictingArgs => String::from_str("Conflicting arguments were found. E.g. `name = generated_fn, name = my_name`"),
            Error::InvalidIdentifier => String::from_str("This identifier is invalid!"),
            Error::DoesNotReturnBool => String::from_str("the function does not seem to return a boolean value."),
        }
    }
}

/// A fatal message tied to a place in the user's source.
///
/// `S` is whatever the caller uses to name a place; the library only carries
/// it from the annotated item to the diagnostic.
#[derive(Debug, PartialEq, Eq)]
pub struct Diagnostic<S> {
    pub span: S,
    pub message: String,
}

/// Reports `err` at `span`.
pub fn build_compile_error<S>(span: S, err: Error) -> (diagnostic: Diagnostic<S>)
    ensures
        diagnostic.span == span,
        diagnostic.message@ == err.message_text(),
{
    Diagnostic { span, message: err.message() }
}

} // verus!
