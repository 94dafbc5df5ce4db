use vstd::prelude::*;
use vstd::string::*;
use crate::lexer::Span;

verus! {

/// A fault in the source text. The lexer stops at the first one.
#[derive(Debug, PartialEq)]
pub enum LexicalError {
    /// A character that starts no token.
    InvalidChar { character: char, span: Span },
    /// A string literal without its closing quote.
    UnterminatedString { span: Span },
    /// Digits directly followed by a letter, or a number too large to hold.
    InvalidNumber { value: String, span: Span },
    /// A backslash in a string literal followed by a character that names no escape.
    InvalidEscapeSequence { escape: char, span: Span },
    /// The input ends behind a backslash in a string literal.
    UnexpectedEOF { span: Span },
}

/// A fault in the source text with its text as a sequence of characters.
pub enum LexicalErrorView {
    InvalidChar { character: char, span: Span },
    UnterminatedString { span: Span },
    InvalidNumber { value: Seq<char>, span: Span },
    InvalidEscapeSequence { escape: char, span: Span },
    UnexpectedEOF { span: Span },
}

impl LexicalErrorView {
    /// The message of the fault.
    pub open spec fn message(self) -> Seq<char> {
        match self {
            LexicalErrorView::InvalidChar { character, span } => "Invalid character '"@.push(
                character,
            ) + "' at "@ + span.text(),
            LexicalErrorView::UnterminatedString { span } => "Unterminated string literal at "@
                + span.text(),
            LexicalErrorView::InvalidNumber { value, span } => "Invalid number format '"@ + value
                + "' at "@ + span.text(),
            LexicalErrorView::InvalidEscapeSequence { escape, span } =>
                "Invalid escape sequence '\\"@.push(escape) + "' at "@ + span.text(),
            LexicalErrorView::UnexpectedEOF { span } => "Unexpected end of file at "@ + span.text(),
        }
    }
}

impl View for LexicalError {
    type V = LexicalErrorView;

    open spec fn view(&self) -> LexicalErrorView {
        match self {
            LexicalError::InvalidChar { character, span } => LexicalErrorView::InvalidChar {
                character: *character,
                span: *span,
            },
            LexicalError::UnterminatedString { span } => LexicalErrorView::UnterminatedString {
                span: *span,
            },
            LexicalError::InvalidNumber { value, span } => LexicalErrorView::InvalidNumber {
                value: value@,
                span: *span,
            },
            LexicalError::InvalidEscapeSequence { escape, span } =>
                LexicalErrorView::InvalidEscapeSequence { escape: *escape, span: *span },
            LexicalError::UnexpectedEOF { span } => LexicalErrorView::UnexpectedEOF { span: *span },
        }
    }
}

impl LexicalError {
    /// The message of the fault.
    pub fn to_string(&self) -> (message: String)
        ensures
            message@ == self@.message(),
    {
        match self {
            LexicalError::InvalidChar { character, span } => {
                let mut s = String::from_str("Invalid character '");
                s.push(*character);
                s.append("' at ");
                s.append(span.to_string().as_str());
                s
            },
            LexicalError::UnterminatedString { span } => {
                let mut s = String::from_str("Unterminated string literal at ");
                s.append(span.to_string().as_str());
                s
            },
            LexicalError::InvalidNumber { value, span } => {
                let mut s = String::from_str("Invalid number format '");
                s.append(value.as_str());
                s.append("' at ");
                s.append(span.to_string().as_str());
                s
            },
            LexicalError::InvalidEscapeSequence { escape, span } => {
                let mut s = String::from_str("Invalid escape sequence '\\");
                s.push(*escape);
                s.append("' at ");
                s.append(span.to_string().as_str());
                s
            },
            LexicalError::UnexpectedEOF { span } => {
                let mut s = String::from_str("Unexpected end of file at ");
                s.append(span.to_string().as_str());
                s
            },
        }
    }
}

} // verus!
