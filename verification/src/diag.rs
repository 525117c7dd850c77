//! Diagnostics: every rejected input yields one, attached to the smallest
//! part of the input that is responsible.

use vstd::prelude::*;

verus! {

/// The part of the input a diagnostic points at.
#[derive(Clone, Copy, Debug, PartialEq, Eq, Structural)]
pub enum Span {
    /// The attribute's use as a whole.
    CallSite,
    /// The variadic argument.
    Variadic,
    /// The return type.
    Output,
    /// The parameter at this index.
    Input(usize),
    /// The pattern of the parameter at this index.
    InputPat(usize),
    /// The type of the parameter at this index.
    InputType(usize),
    /// Within that parameter's tuple-struct pattern, the item at the second index.
    PatItem(usize, usize),
    /// Within that item, a tuple, the element at the third index.
    PatElem(usize, usize, usize),
    /// Within that parameter's type, the generic argument at the second index.
    TypeArg(usize, usize),
    /// The attribute argument at this index.
    Arg(usize),
    /// The value of the attribute argument at this index.
    ArgValue(usize),
    /// The expression at hand.
    Expr,
}

/// A diagnostic.
#[derive(Clone, Debug)]
pub struct Error {
    pub span: Span,
    pub message: String,
}

/// The mathematical value of a diagnostic.
pub struct ErrorView {
    pub span: Span,
    pub message: Seq<char>,
}

impl DeepView for Error {
    type V = ErrorView;

    open spec fn deep_view(&self) -> ErrorView {
        ErrorView { span: self.span, message: self.message@ }
    }
}

impl Error {
    /// A diagnostic at `span` with the fixed text `message`.
    pub fn new(span: Span, message: &str) -> (r: Error)
        ensures
            r.deep_view() == (ErrorView { span, message: message@ }),
    {
        Error { span, message: String::from_str(message) }
    }

    /// A diagnostic at `span` whose text is `prefix`, then `subject` between backticks.
    pub fn quoting(span: Span, prefix: &str, subject: &String) -> (r: Error)
        ensures
            r.deep_view() == (ErrorView { span, message: quoted(prefix@, subject@) }),
    {
        let mut message = String::from_str(prefix);
        message.append("`");
        message.append(subject.as_str());
        message.append("`");
        Error { span, message }
    }

    /// The same diagnostic, attached to `span` instead.
    pub fn at(self, span: Span) -> (r: Error)
        ensures
            r.deep_view() == (ErrorView { span, message: self.message@ }),
    {
        Error { span, message: self.message }
    }
}

/// `prefix`, then `subject` between backticks.
pub open spec fn quoted(prefix: Seq<char>, subject: Seq<char>) -> Seq<char> {
    prefix + "`"@ + subject + "`"@
}

} // verus!
