use vstd::prelude::*;
use crate::lexer::{Span, TokenTypeView, TokenView, TypeNameView};
use crate::parser::error::ParseErrorView;
use crate::parser::types::SyncPoint;

verus! {

/// The state of a parse apart from the tokens, which never change: the index of the next token
/// to read and the diagnostics recorded so far.
pub struct Cursor {
    pub position: nat,
    pub errors: Seq<ParseErrorView>,
}

/// What one rule of the grammar yields: the value it read, if it read one, and the state in
/// which it leaves the parse.
pub struct Parsed<T> {
    pub value: Option<T>,
    pub cursor: Cursor,
}

/// The rule read nothing.
pub open spec fn fail<T>(cursor: Cursor) -> Parsed<T> {
    Parsed { value: None, cursor }
}

/// The rule read `value`.
pub open spec fn done<T>(value: T, cursor: Cursor) -> Parsed<T> {
    Parsed { value: Some(value), cursor }
}

impl Cursor {
    /// The state in which a parse starts: in front of the first token, with nothing
    /// recorded.
    pub open spec fn start() -> Cursor {
        Cursor { position: 0, errors: Seq::empty() }
    }

    /// The token `amount` places after the next one, if the stream is that long.
    pub open spec fn token_ahead(self, tokens: Seq<TokenView>, amount: nat) -> Option<TokenView> {
        if self.position + amount < tokens.len() {
            Some(tokens[(self.position + amount) as int])
        } else {
            None
        }
    }

    /// The next token, if one is left.
    pub open spec fn token(self, tokens: Seq<TokenView>) -> Option<TokenView> {
        self.token_ahead(tokens, 0)
    }

    /// Whether a token is left and it is of kind `kind`.
    pub open spec fn at(self, tokens: Seq<TokenView>, kind: TokenTypeView) -> bool {
        self.token(tokens) matches Some(token) && token.token_type == kind
    }

    /// The position of the next token in the source, if a token is left.
    pub open spec fn span(self, tokens: Seq<TokenView>) -> Option<Span> {
        match self.token(tokens) {
            Some(token) => Some(token.span),
            None => None,
        }
    }

    /// The state after the next token was passed over. At the end of the stream nothing is
    /// left to pass over and the state stays.
    pub open spec fn step(self, tokens: Seq<TokenView>) -> Cursor {
        if self.position < tokens.len() {
            Cursor { position: self.position + 1, errors: self.errors }
        } else {
            self
        }
    }

    /// The state after `error` was recorded.
    pub open spec fn note(self, error: ParseErrorView) -> Cursor {
        Cursor { position: self.position, errors: self.errors.push(error) }
    }

    /// How many tokens are left to read.
    pub open spec fn left(self, tokens: Seq<TokenView>) -> nat {
        if self.position <= tokens.len() {
            (tokens.len() - self.position) as nat
        } else {
            0
        }
    }
}

/// The diagnostic for a token of another kind than the expected one.
pub open spec fn mismatch(expected: Seq<char>, found: TokenView) -> ParseErrorView {
    ParseErrorView::ExpectedButFound {
        expected,
        found: found.token_type.text(),
        span: Some(found.span),
    }
}

/// The diagnostic for a missing piece where no token can be named as found.
pub open spec fn missing(expected: Seq<char>, span: Option<Span>) -> ParseErrorView {
    ParseErrorView::ExpectedButFound { expected, found: "unknown"@, span }
}

/// Reads a token of kind `expected`. A token of another kind stays unread and is recorded as
/// a mismatch; at the end of the stream the end of input is recorded.
pub open spec fn consume(tokens: Seq<TokenView>, c: Cursor, expected: TokenTypeView) -> Parsed<
    TokenView,
> {
    match c.token(tokens) {
        Some(token) => if token.token_type == expected {
            done(token, c.step(tokens))
        } else {
            fail(c.note(mismatch(expected.text(), token)))
        },
        None => fail(c.note(ParseErrorView::UnexpectedEOF { span: None })),
    }
}

/// Reads a token of kind `expected` if the next token is one. A token of another kind is no
/// error; the end of the stream is.
pub open spec fn consume_optional(
    tokens: Seq<TokenView>,
    c: Cursor,
    expected: TokenTypeView,
) -> Parsed<TokenView> {
    match c.token(tokens) {
        Some(token) => if token.token_type == expected {
            done(token, c.step(tokens))
        } else {
            fail(c)
        },
        None => fail(c.note(ParseErrorView::UnexpectedEOF { span: None })),
    }
}

/// Reads two tokens of kinds `first` and `second` if the next two tokens are such; else
/// reads nothing and records nothing.
pub open spec fn consume_two_optionals(
    tokens: Seq<TokenView>,
    c: Cursor,
    first: TokenTypeView,
    second: TokenTypeView,
) -> Parsed<(TokenView, TokenView)> {
    match (c.token(tokens), c.token_ahead(tokens, 1)) {
        (Some(token), Some(next_token)) => if token.token_type == first && next_token.token_type
            == second {
            done((token, next_token), c.step(tokens).step(tokens))
        } else {
            fail(c)
        },
        _ => fail(c),
    }
}

/// Reads an identifier and yields its name. `label` says in the diagnostic what the
/// identifier was to name.
pub open spec fn consume_identifier(tokens: Seq<TokenView>, c: Cursor, label: Seq<char>) -> Parsed<
    Seq<char>,
> {
    match c.token(tokens) {
        Some(token) => match token.token_type {
            TokenTypeView::Identifier(name) => done(name, c.step(tokens)),
            _ => fail(c.note(mismatch(TokenTypeView::Identifier(label).text(), token))),
        },
        None => fail(c.note(ParseErrorView::UnexpectedEOF { span: None })),
    }
}

/// Reads a type: a built-in type marker, or any identifier, which then names a class.
pub open spec fn consume_type(tokens: Seq<TokenView>, c: Cursor) -> Parsed<TypeNameView> {
    match c.token(tokens) {
        Some(token) => match token.token_type {
            TokenTypeView::Type(name) => done(name, c.step(tokens)),
            TokenTypeView::Identifier(name) => done(TypeNameView::Class(name), c.step(tokens)),
            _ => fail(c.note(mismatch("variable type"@, token))),
        },
        None => fail(c.note(ParseErrorView::UnexpectedEOF { span: None })),
    }
}

/// Whether parsing resumes at a token of kind `kind` after a failure at `point`.
pub open spec fn resumes_at(point: SyncPoint, kind: TokenTypeView) -> bool {
    point == SyncPoint::ClassBody && (kind is LeftBrace || kind is Class)
}

/// Passes over tokens up to the first one at which parsing resumes for `point`, or to the end
/// of the stream. Only a class body has such tokens; for the other points nothing is passed
/// over.
pub open spec fn synchronize(tokens: Seq<TokenView>, c: Cursor, point: SyncPoint) -> Cursor
    decreases c.left(tokens),
{
    if point != SyncPoint::ClassBody {
        c
    } else {
        match c.token(tokens) {
            Some(token) => if resumes_at(point, token.token_type) {
                c
            } else {
                synchronize(tokens, c.step(tokens), point)
            },
            None => c,
        }
    }
}

} // verus!
