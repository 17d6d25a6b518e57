//! What a parser of the language rejects in a literal.

use vstd::prelude::*;
use vstd::string::*;

use crate::text::concat;

verus! {

/// A literal that cannot be read.
#[derive(Debug)]
pub enum ParseError {
    /// An integer literal that does not fit in 64 bits.
    IntegerOverflow(String),
    /// A string literal with a backslash before a character that cannot
    /// be escaped.
    InvalidEscapeSequence(String),
}

/// The mathematical model of a `ParseError`.
pub enum ParseErrorView {
    IntegerOverflow(Seq<char>),
    InvalidEscapeSequence(Seq<char>),
}

impl View for ParseError {
    type V = ParseErrorView;

    open spec fn view(&self) -> ParseErrorView {
        match self {
            ParseError::IntegerOverflow(value) => ParseErrorView::IntegerOverflow(value@),
            ParseError::InvalidEscapeSequence(value) => ParseErrorView::InvalidEscapeSequence(
                value@,
            ),
        }
    }
}

impl ParseErrorView {
    /// The message shown to the user.
    pub open spec fn text(self) -> Seq<char> {
        match self {
            ParseErrorView::IntegerOverflow(value) => "integer literal "@ + value
                + " is too big"@,
            ParseErrorView::InvalidEscapeSequence(value) => "string literal \""@ + value
                + "\" contains invalid escape sequence(s)"@,
        }
    }
}

impl Clone for ParseError {
    fn clone(&self) -> (r: Self)
        ensures
            r@ == self@,
    {
        match self {
            ParseError::IntegerOverflow(value) => ParseError::IntegerOverflow(value.clone()),
            ParseError::InvalidEscapeSequence(value) => ParseError::InvalidEscapeSequence(
                value.clone(),
            ),
        }
    }
}

impl ParseError {
    /// The message shown to the user.
    pub fn to_string(&self) -> (r: String)
        ensures
            r@ == self@.text(),
    {
        match self {
            ParseError::IntegerOverflow(value) => {
                let mut out = concat("integer literal ", value.as_str());
                out.append(" is too big");
                out
            },
            ParseError::InvalidEscapeSequence(value) => {
                let mut out = concat("string literal \"", value.as_str());
                out.append("\" contains invalid escape sequence(s)");
                out
            },
        }
    }
}

} // verus!
