use vstd::prelude::*;
use vstd::string::*;
use crate::lexer::token::token_views;
use crate::lexer::{Span, Token, TokenType, TokenView, TypeName};
use crate::parser::error::{error_views, ParseError};
use crate::parser::grammar;
use crate::parser::grammar::{Cursor, Parsed};
use crate::parser::types::SyncPoint;
use crate::views::viewed;

verus! {

/// A cursor over a stream of tokens that builds syntax trees and collects diagnostics.
pub struct Parser {
    pub tokens: Vec<Token>,
    pub position: usize,
    pub errors: Vec<ParseError>,
}

impl Parser {
    /// The tokens as mathematical values.
    pub open spec fn stream(&self) -> Seq<TokenView> {
        token_views(self.tokens@)
    }

    /// The state of the parse as a mathematical value.
    pub open spec fn cursor(&self) -> Cursor {
        Cursor { position: self.position as nat, errors: error_views(self.errors@) }
    }

    /// The parser is what a rule of the grammar, started on the parser `before` and ending
    /// in the state `cursor`, leaves behind: the same tokens and that state, with the
    /// cursor where it was before or further on.
    pub open spec fn after(&self, before: Parser, cursor: Cursor) -> bool {
        &&& self.tokens == before.tokens
        &&& self.cursor() == cursor
        &&& self.position >= before.position
    }

    /// The parser has read at least one token since `before`, and one was there to read.
    pub open spec fn moved(&self, before: Parser) -> bool {
        &&& before.position < before.stream().len()
        &&& self.position > before.position
    }

    /// The parser is what a rule that yielded `outcome` leaves behind of the parser
    /// `before`, and `value` is what the rule read.
    pub open spec fn follows<T>(&self, before: Parser, outcome: Parsed<T>, value: Option<T>) -> bool {
        &&& self.after(before, outcome.cursor)
        &&& value == outcome.value
    }

    /// A parser in front of the first of `tokens`, with no diagnostic recorded.
    pub fn new(tokens: Vec<Token>) -> (parser: Parser)
        ensures
            parser.tokens == tokens,
            parser.position == 0,
            parser.errors@.len() == 0,
            parser.cursor() == Cursor::start(),
    {
        proof {
            reveal(error_views);
        }
        let parser = Parser { tokens, position: 0, errors: Vec::new() };
        assert(parser.cursor().errors =~= Seq::empty());
        parser
    }

    /// Whether any diagnostic was recorded.
    pub fn has_errors(&self) -> (r: bool)
        ensures
            r == (self.errors@.len() > 0),
            r == (self.cursor().errors.len() > 0),
    {
        proof {
            reveal(error_views);
        }
        self.errors.len() > 0
    }

    /// The diagnostics recorded so far, oldest first.
    pub fn get_errors(&self) -> (errors: &[ParseError])
        ensures
            errors@ == self.errors@,
    {
        self.errors.as_slice()
    }

    /// Records a diagnostic.
    pub fn record(&mut self, error: ParseError)
        ensures
            final(self).after(*old(self), old(self).cursor().note(error@)),
            final(self).position == old(self).position,
    {
        self.errors.push(error);
        reveal(error_views);
        assert(error_views(self.errors@) =~= error_views(old(self).errors@).push(error@));
    }

    /// Moves the cursor one token forward; at the end of the stream it stays.
    pub fn advance(&mut self)
        ensures
            final(self).after(*old(self), old(self).cursor().step(old(self).stream())),
            final(self).errors == old(self).errors,
    {
        proof {
            reveal(token_views);
        }
        if self.position < self.tokens.len() {
            self.position += 1;
        }
    }

    /// The token `amount` places after the next one, if the stream is that long.
    pub fn peek_ahead_amount(&mut self, amount: usize) -> (token: Option<Token>)
        ensures
            *final(self) == *old(self),
            viewed(token) == old(self).cursor().token_ahead(old(self).stream(), amount as nat),
            token is Some ==> old(self).position + amount < old(self).stream().len(),
    {
        proof {
            reveal(token_views);
        }
        if self.position >= self.tokens.len() || amount >= self.tokens.len() - self.position {
            return None;
        }
        Some(self.tokens[self.position + amount].clone())
    }

    /// The next token, if one is left.
    pub fn peek(&mut self) -> (token: Option<Token>)
        ensures
            *final(self) == *old(self),
            viewed(token) == old(self).cursor().token(old(self).stream()),
            token is Some ==> old(self).position < old(self).stream().len(),
    {
        self.peek_ahead_amount(0)
    }

    /// The token after the next one, if the stream is that long.
    pub fn peek_ahead(&mut self) -> (token: Option<Token>)
        ensures
            *final(self) == *old(self),
            viewed(token) == old(self).cursor().token_ahead(old(self).stream(), 1),
            token is Some ==> old(self).position + 1 < old(self).stream().len(),
    {
        self.peek_ahead_amount(1)
    }

    /// The position of the next token in the source, if a token is left.
    pub fn current_span(&mut self) -> (span: Option<Span>)
        ensures
            *final(self) == *old(self),
            span == old(self).cursor().span(old(self).stream()),
    {
        match self.peek() {
            Some(token) => Some(token.span),
            None => None,
        }
    }

    /// Reads an identifier and yields its name; `ident` says in the diagnostic what the
    /// identifier was to name.
    pub fn consume_identifier(&mut self, ident: &str) -> (name: Option<String>)
        ensures
            final(self).follows(
                *old(self),
                grammar::consume_identifier(old(self).stream(), old(self).cursor(), ident@),
                viewed(name),
            ),
            name is Some ==> final(self).moved(*old(self)),
    {
        match self.peek() {
            Some(token) => match token.token_type {
                TokenType::Identifier(name) => {
                    self.advance();
                    Some(name)
                },
                other => {
                    let expected = TokenType::Identifier(String::from_str(ident)).to_string();
                    self.record(
                        ParseError::expected_but_found(
                            expected,
                            Some(other.to_string()),
                            Some(token.span),
                        ),
                    );
                    None
                },
            },
            None => {
                self.record(ParseError::UnexpectedEOF { span: None });
                None
            },
        }
    }

    /// Reads a token of kind `expected`. A token of another kind stays unread and is recorded
    /// as a mismatch; at the end of the stream the end of input is recorded.
    pub fn consume(&mut self, expected: TokenType) -> (token: Option<Token>)
        ensures
            final(self).follows(
                *old(self),
                grammar::consume(old(self).stream(), old(self).cursor(), expected@),
                viewed(token),
            ),
            token is Some ==> final(self).moved(*old(self)),
    {
        match self.peek() {
            Some(token) => {
                if token.token_type.same(&expected) {
                    self.advance();
                    Some(token)
                } else {
                    self.record(
                        ParseError::ExpectedButFound {
                            expected: expected.to_string(),
                            found: token.token_type.to_string(),
                            span: Some(token.span),
                        },
                    );
                    None
                }
            },
            None => {
                self.record(ParseError::UnexpectedEOF { span: None });
                None
            },
        }
    }

    /// Reads a token of kind `expected` if the next token is one. A token of another kind is
    /// no error; the end of the stream is.
    pub fn consume_optional(&mut self, expected: TokenType) -> (token: Option<Token>)
        ensures
            final(self).follows(
                *old(self),
                grammar::consume_optional(old(self).stream(), old(self).cursor(), expected@),
                viewed(token),
            ),
            token is Some ==> final(self).moved(*old(self)),
    {
        match self.peek() {
            Some(token) => {
                if token.token_type.same(&expected) {
                    self.advance();
                    Some(token)
                } else {
                    None
                }
            },
            None => {
                self.record(ParseError::UnexpectedEOF { span: None });
                None
            },
        }
    }

    /// Reads two tokens of kinds `first` and `second` if the next two tokens are such; else
    /// reads nothing and records nothing.
    pub fn consume_two_optionals(&mut self, first: TokenType, second: TokenType) -> (pair: Option<
        (Token, Token),
    >)
        ensures
            final(self).after(
                *old(self),
                grammar::consume_two_optionals(
                    old(self).stream(),
                    old(self).cursor(),
                    first@,
                    second@,
                ).cursor,
            ),
            match pair {
                Some((a, b)) => grammar::consume_two_optionals(
                    old(self).stream(),
                    old(self).cursor(),
                    first@,
                    second@,
                ).value == Some((a@, b@)),
                None => grammar::consume_two_optionals(
                    old(self).stream(),
                    old(self).cursor(),
                    first@,
                    second@,
                ).value is None,
            },
            pair is Some ==> final(self).moved(*old(self)),
    {
        let token = match self.peek() {
            Some(token) => token,
            None => { return None; },
        };
        let next_token = match self.peek_ahead() {
            Some(token) => token,
            None => { return None; },
        };
        if token.token_type.same(&first) && next_token.token_type.same(&second) {
            self.advance();
            self.advance();
            return Some((token, next_token));
        }
        None
    }

    /// Reads a type: a built-in type marker, or any identifier, which then names a class.
    pub fn consume_type(&mut self) -> (name: Option<TypeName>)
        ensures
            final(self).follows(
                *old(self),
                grammar::consume_type(old(self).stream(), old(self).cursor()),
                viewed(name),
            ),
            name is Some ==> final(self).moved(*old(self)),
    {
        match self.peek() {
            Some(token) => match token.token_type {
                TokenType::Type(name) => {
                    self.advance();
                    Some(name)
                },
                TokenType::Identifier(name) => {
                    self.advance();
                    Some(TypeName::Class(name))
                },
                other => {
                    self.record(
                        ParseError::expected_but_found(
                            String::from_str("variable type"),
                            Some(other.to_string()),
                            Some(token.span),
                        ),
                    );
                    None
                },
            },
            None => {
                self.record(ParseError::UnexpectedEOF { span: None });
                None
            },
        }
    }

    /// Passes over tokens up to the first one at which parsing resumes for `sync_point`, or
    /// to the end of the stream.
    pub fn synchronize(&mut self, sync_point: SyncPoint)
        ensures
            final(self).after(
                *old(self),
                grammar::synchronize(old(self).stream(), old(self).cursor(), sync_point),
            ),
    {
        match sync_point {
            SyncPoint::ClassBody => {
                loop
                    invariant
                        self.tokens == old(self).tokens,
                        self.errors == old(self).errors,
                        self.position >= old(self).position,
                        grammar::synchronize(self.stream(), self.cursor(), sync_point)
                            == grammar::synchronize(
                            old(self).stream(),
                            old(self).cursor(),
                            sync_point,
                        ),
                        sync_point == SyncPoint::ClassBody,
                    ensures
                        self.after(
                            *old(self),
                            grammar::synchronize(
                                old(self).stream(),
                                old(self).cursor(),
                                sync_point,
                            ),
                        ),
                    decreases self.cursor().left(self.stream()),
                {
                    match self.peek() {
                        Some(token) => match token.token_type {
                            TokenType::LeftBrace | TokenType::Class => {
                                break ;
                            },
                            _ => {
                                self.advance();
                            },
                        },
                        None => {
                            break ;
                        },
                    }
                }
            },
            _ => {},
        }
    }
}

} // verus!
