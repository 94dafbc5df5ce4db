use vstd::prelude::*;
use vstd::string::*;
use crate::lexer::chars::{
    characters, digit_check, digit_to_value, digits_value, escape, is_digit, word_char_check,
    word_start_check,
};
use crate::lexer::error::{LexicalError, LexicalErrorView};
use crate::lexer::scan;
use crate::lexer::scan::{Lexed, Scan};
use crate::lexer::span::Span;
use crate::lexer::token::{token_views, Token, TokenType, TokenView, TypeName};

verus! {

/// A lexer: the characters of a source text and the place up to which they have been read.
pub struct Lexer {
    input: Vec<char>,
    position: usize,
    line: usize,
    column: usize,
    start_column: usize,
}

/// The view of a token or fault.
pub open spec fn lexed_view(result: Result<Token, LexicalError>) -> Result<
    TokenView,
    LexicalErrorView,
> {
    match result {
        Ok(token) => Ok(token@),
        Err(fault) => Err(fault@),
    }
}

/// The view of all tokens or the first fault.
pub open spec fn tokenized_view(result: Result<Vec<Token>, LexicalError>) -> Result<
    Seq<TokenView>,
    LexicalErrorView,
> {
    match result {
        Ok(tokens) => Ok(token_views(tokens@)),
        Err(fault) => Err(fault@),
    }
}

/// Whether `word` reads `text`.
fn reads(word: &String, text: &str) -> (r: bool)
    ensures
        r == (word@ == text@),
{
    *word == String::from_str(text)
}

/// The kind of token that a word is: a keyword, a type marker, or else an identifier.
pub fn keyword(word: String) -> (kind: TokenType)
    ensures
        kind@ == scan::keyword(word@),
{
    if reads(&word, "class") {
        TokenType::Class
    } else if reads(&word, "meth") {
        TokenType::Meth
    } else if reads(&word, "init") {
        TokenType::Init
    } else if reads(&word, "extends") {
        TokenType::Extends
    } else if reads(&word, "this") {
        TokenType::This
    } else if reads(&word, "super") {
        TokenType::Super
    } else if reads(&word, "while") {
        TokenType::While
    } else if reads(&word, "break") {
        TokenType::Break
    } else if reads(&word, "return") {
        TokenType::Return
    } else if reads(&word, "if") {
        TokenType::If
    } else if reads(&word, "else") {
        TokenType::Else
    } else if reads(&word, "new") {
        TokenType::New
    } else if reads(&word, "true") {
        TokenType::True
    } else if reads(&word, "false") {
        TokenType::False
    } else if reads(&word, "print") {
        TokenType::Print
    } else if reads(&word, "println") {
        TokenType::Println
    } else if reads(&word, "const") {
        TokenType::Const
    } else if reads(&word, "Int") {
        TokenType::Type(TypeName::Int)
    } else if reads(&word, "Boolean") {
        TokenType::Type(TypeName::Boolean)
    } else if reads(&word, "Void") {
        TokenType::Type(TypeName::Void)
    } else if reads(&word, "Str") {
        TokenType::Type(TypeName::Str)
    } else if reads(&word, "let") {
        TokenType::Let
    } else if reads(&word, "fun") {
        TokenType::Fun
    } else {
        TokenType::Identifier(word)
    }
}

/// The token that a character makes alone, whatever follows it, if it makes one.
pub fn punctuation(c: char) -> (kind: Option<TokenType>)
    ensures
        crate::views::viewed(kind) == scan::punctuation(c),
{
    if c == '+' {
        Some(TokenType::Plus)
    } else if c == '*' {
        Some(TokenType::Star)
    } else if c == '(' {
        Some(TokenType::LeftParen)
    } else if c == ')' {
        Some(TokenType::RightParen)
    } else if c == '{' {
        Some(TokenType::LeftBrace)
    } else if c == '}' {
        Some(TokenType::RightBrace)
    } else if c == ';' {
        Some(TokenType::Semicolon)
    } else if c == ':' {
        Some(TokenType::Colon)
    } else if c == ',' {
        Some(TokenType::Comma)
    } else if c == '.' {
        Some(TokenType::Dot)
    } else if c == '[' {
        Some(TokenType::LeftBracket)
    } else if c == ']' {
        Some(TokenType::RightBracket)
    } else {
        None
    }
}

impl Lexer {
    /// The text that the lexer reads.
    pub closed spec fn text(&self) -> Seq<char> {
        self.input@
    }

    /// Where the lexer stands in its text.
    pub closed spec fn scan(&self) -> Scan {
        Scan { position: self.position as nat, line: self.line as nat, column: self.column as nat }
    }

    /// The lexer stands inside its text, and its line and column are in step with the
    /// characters it has read.
    pub closed spec fn wf(&self) -> bool {
        &&& self.position <= self.input.len() < usize::MAX
        &&& 1 <= self.line <= self.position + 1
        &&& 1 <= self.column <= self.position + 1
    }

    /// The lexer is what reading leaves behind of the lexer `before`: the same text, read
    /// up to `scan`, which is not behind where `before` stood.
    pub open spec fn after(&self, before: Lexer, scan: Scan) -> bool {
        &&& self.wf()
        &&& self.text() == before.text()
        &&& self.scan() == scan
        &&& self.scan().position >= before.scan().position
    }

    /// A lexer at the start of `source`.
    pub fn new(source: &str) -> (lexer: Lexer)
        requires
            source@.len() < usize::MAX,
        ensures
            lexer.wf(),
            lexer.text() == source@,
            lexer.scan() == Scan::start(),
    {
        Lexer { input: characters(source), position: 0, line: 1, column: 1, start_column: 1 }
    }

    /// The next character, if one is left.
    fn peek(&self) -> (c: Option<char>)
        requires
            self.wf(),
        ensures
            c == self.scan().peek(self.text()),
    {
        if self.position < self.input.len() {
            Some(self.input[self.position])
        } else {
            None
        }
    }

    /// The character after the next one, if the text is that long.
    fn peek_ahead(&self) -> (c: Option<char>)
        requires
            self.wf(),
        ensures
            c == self.scan().peek_ahead(self.text()),
    {
        if self.position + 1 < self.input.len() {
            Some(self.input[self.position + 1])
        } else {
            None
        }
    }

    /// Passes over the next character and counts it into line and column; yields the
    /// character, if one was left.
    fn advance(&mut self) -> (c: Option<char>)
        requires
            old(self).wf(),
        ensures
            final(self).after(*old(self), old(self).scan().advance(old(self).text())),
            c == old(self).scan().peek(old(self).text()),
            final(self).start_column == old(self).start_column,
    {
        let ch = self.peek();
        match ch {
            Some(c) => {
                self.position += 1;
                if c == '\n' {
                    self.line += 1;
                    self.column = 1;
                } else {
                    self.column += 1;
                }
            },
            None => {},
        }
        ch
    }

    /// Passes over the white space in front of the lexer.
    fn skip_whitespace(&mut self)
        requires
            old(self).wf(),
        ensures
            final(self).after(
                *old(self),
                scan::skip_whitespace(old(self).text(), old(self).scan()),
            ),
            final(self).start_column == final(self).column,
    {
        loop
            invariant
                self.after(*old(self), self.scan()),
                scan::skip_whitespace(self.text(), self.scan()) == scan::skip_whitespace(
                    old(self).text(),
                    old(self).scan(),
                ),
            ensures
                self.after(*old(self), scan::skip_whitespace(old(self).text(), old(self).scan())),
            decreases self.scan().left(self.text()),
        {
            match self.peek() {
                Some(ch) => {
                    if !ch.is_whitespace() {
                        break ;
                    }
                    self.advance();
                },
                None => {
                    break ;
                },
            }
        }
        self.start_column = self.column;
    }

    /// Passes over the rest of the line.
    fn skip_line_comment(&mut self)
        requires
            old(self).wf(),
        ensures
            final(self).after(*old(self), scan::skip_line(old(self).text(), old(self).scan())),
    {
        loop
            invariant
                self.after(*old(self), self.scan()),
                scan::skip_line(self.text(), self.scan()) == scan::skip_line(
                    old(self).text(),
                    old(self).scan(),
                ),
            ensures
                self.after(*old(self), scan::skip_line(old(self).text(), old(self).scan())),
            decreases self.scan().left(self.text()),
        {
            match self.peek() {
                Some(ch) => {
                    if ch == '\n' {
                        break ;
                    }
                    self.advance();
                },
                None => {
                    break ;
                },
            }
        }
        self.start_column = self.column;
    }

    /// Passes over the text up to and with the next `*/`.
    fn skip_block_comment(&mut self)
        requires
            old(self).wf(),
        ensures
            final(self).after(*old(self), scan::skip_block(old(self).text(), old(self).scan())),
    {
        loop
            invariant
                self.after(*old(self), self.scan()),
                scan::block_body(self.text(), self.scan()) == scan::block_body(
                    old(self).text(),
                    old(self).scan(),
                ),
            ensures
                self.after(*old(self), scan::block_body(old(self).text(), old(self).scan())),
            decreases self.scan().left(self.text()),
        {
            match self.peek() {
                Some(ch) => {
                    if ch == '*' {
                        match self.peek_ahead() {
                            Some(next) => {
                                if next == '/' {
                                    break ;
                                }
                            },
                            None => {},
                        }
                    }
                    self.advance();
                },
                None => {
                    break ;
                },
            }
        }
        self.advance();
        self.advance();
        self.start_column = self.column;
    }

    /// The position at which the token under way started.
    fn current_location(&self) -> (span: Span)
        ensures
            span == (Span { line: self.line, column: self.start_column }),
    {
        Span::new(self.line, self.start_column)
    }

    /// Reads a string literal; the lexer stands at its opening quote, and the token starts
    /// at `start_span`.
    fn read_string(&mut self, start_span: Span) -> (r: Result<Token, LexicalError>)
        requires
            old(self).wf(),
        ensures
            final(self).after(
                *old(self),
                scan::string_body(
                    old(self).text(),
                    old(self).scan().advance(old(self).text()),
                    Seq::empty(),
                    start_span,
                ).scan,
            ),
            lexed_view(r) == scan::string_body(
                old(self).text(),
                old(self).scan().advance(old(self).text()),
                Seq::empty(),
                start_span,
            ).result,
            old(self).scan().peek(old(self).text()) is Some ==> final(self).scan().position > old(
                self,
            ).scan().position,
    {
        let mut string = String::new();
        self.advance();
        let ghost goal = scan::string_body(self.text(), self.scan(), Seq::empty(), start_span);
        loop
            invariant
                self.after(*old(self), self.scan()),
                scan::string_body(self.text(), self.scan(), string@, start_span) == goal,
                old(self).scan().peek(old(self).text()) is Some ==> self.scan().position > old(
                    self,
                ).scan().position,
                goal == scan::string_body(
                    old(self).text(),
                    old(self).scan().advance(old(self).text()),
                    Seq::empty(),
                    start_span,
                ),
            decreases self.scan().left(self.text()),
        {
            let ch = match self.peek() {
                Some(ch) => ch,
                None => {
                    return Err(LexicalError::UnterminatedString { span: start_span });
                },
            };
            if ch == '"' {
                self.advance();
                return Ok(Token::new(TokenType::StringLiteral(string), start_span));
            } else if ch == '\\' {
                self.advance();
                let next = match self.peek() {
                    Some(next) => next,
                    None => {
                        return Err(LexicalError::UnexpectedEOF { span: start_span });
                    },
                };
                match escape(next) {
                    Some(meant) => {
                        string.push(meant);
                        self.advance();
                    },
                    None => {
                        return Err(
                            LexicalError::InvalidEscapeSequence { escape: next, span: start_span },
                        );
                    },
                }
            } else {
                string.push(ch);
                self.advance();
            }
        }
    }

    /// Reads a number; the lexer stands at its first digit, and the token starts at
    /// `start_span`.
    fn read_number(&mut self, start_span: Span) -> (r: Result<Token, LexicalError>)
        requires
            old(self).wf(),
        ensures
            final(self).after(
                *old(self),
                scan::number_body(old(self).text(), old(self).scan(), Seq::empty(), start_span).scan,
            ),
            lexed_view(r) == scan::number_body(
                old(self).text(),
                old(self).scan(),
                Seq::empty(),
                start_span,
            ).result,
            old(self).scan().peek(old(self).text()) matches Some(first) && is_digit(first)
                ==> final(self).scan().position > old(self).scan().position,
    {
        let mut number = String::new();
        let mut value: Option<i64> = Some(0);
        let ghost goal = scan::number_body(self.text(), self.scan(), Seq::empty(), start_span);
        loop
            invariant
                self.after(*old(self), self.scan()),
                scan::number_body(self.text(), self.scan(), number@, start_span) == goal,
                self.scan().position == old(self).scan().position + number@.len(),
                goal == scan::number_body(
                    old(self).text(),
                    old(self).scan(),
                    Seq::empty(),
                    start_span,
                ),
                match value {
                    Some(v) => v >= 0 && digits_value(number@) == v,
                    None => digits_value(number@) > i64::MAX,
                },
            ensures
                self.after(*old(self), goal.scan),
                old(self).scan().peek(old(self).text()) matches Some(first) && is_digit(first)
                    ==> self.scan().position > old(self).scan().position,
                goal.result == (if digits_value(number@) <= i64::MAX {
                    Ok::<TokenView, LexicalErrorView>(
                        TokenView {
                            token_type: crate::lexer::TokenTypeView::IntegerLiteral(
                                digits_value(number@) as i64,
                            ),
                            span: start_span,
                        },
                    )
                } else {
                    Err(LexicalErrorView::InvalidNumber { value: number@, span: start_span })
                }),
                match value {
                    Some(v) => v >= 0 && digits_value(number@) == v,
                    None => digits_value(number@) > i64::MAX,
                },
                goal == scan::number_body(
                    old(self).text(),
                    old(self).scan(),
                    Seq::empty(),
                    start_span,
                ),
            decreases self.scan().left(self.text()),
        {
            let ch = match self.peek() {
                Some(ch) => ch,
                None => {
                    break ;
                },
            };
            if digit_check(ch) {
                let digit = digit_to_value(ch);
                proof {
                    assert(number@.push(ch).drop_last() =~= number@);
                }
                value =
                match value {
                    Some(v) => {
                        if v <= (i64::MAX - digit as i64) / 10 {
                            Some(v * 10 + digit as i64)
                        } else {
                            None
                        }
                    },
                    None => None,
                };
                number.push(ch);
                self.advance();
            } else if ch.is_alphabetic() {
                number.push(ch);
                return Err(LexicalError::InvalidNumber { value: number, span: start_span });
            } else {
                break ;
            }
        }
        match value {
            Some(n) => Ok(Token::new(TokenType::IntegerLiteral(n), start_span)),
            None => Err(LexicalError::InvalidNumber { value: number, span: start_span }),
        }
    }

    /// Reads a word: letters, digits and underscores.
    fn read_identifier(&mut self) -> (word: String)
        requires
            old(self).wf(),
        ensures
            final(self).after(
                *old(self),
                scan::word_body(old(self).text(), old(self).scan(), Seq::empty()).scan,
            ),
            word@ == scan::word_body(old(self).text(), old(self).scan(), Seq::empty()).text,
            old(self).scan().peek(old(self).text()) matches Some(first) && crate::lexer::chars::is_word_char(first)
                ==> final(self).scan().position > old(self).scan().position,
    {
        let mut identifier = String::new();
        let ghost goal = scan::word_body(self.text(), self.scan(), Seq::empty());
        loop
            invariant
                self.after(*old(self), self.scan()),
                scan::word_body(self.text(), self.scan(), identifier@) == goal,
                self.scan().position == old(self).scan().position + identifier@.len(),
                goal == scan::word_body(old(self).text(), old(self).scan(), Seq::empty()),
            decreases self.scan().left(self.text()),
        {
            let ch = match self.peek() {
                Some(ch) => ch,
                None => {
                    return identifier;
                },
            };
            if word_char_check(ch) {
                identifier.push(ch);
                self.advance();
            } else {
                return identifier;
            }
        }
    }

    /// Makes the token of kind `kind` out of the next `length` characters, which are none,
    /// one or two; the token starts at `start_span`.
    fn make(&mut self, kind: TokenType, length: usize, start_span: Span) -> (r: Result<
        Token,
        LexicalError,
    >)
        requires
            old(self).wf(),
            start_span == old(self).scan().here(),
            length <= 2,
        ensures
            final(self).after(
                *old(self),
                scan::made(old(self).text(), old(self).scan(), kind@, length as nat).scan,
            ),
            lexed_view(r) == scan::made(
                old(self).text(),
                old(self).scan(),
                kind@,
                length as nat,
            ).result,
    {
        if length >= 1 {
            self.advance();
        }
        if length >= 2 {
            self.advance();
        }
        let mut token = Token::new_with_span(start_span);
        token.set_type(kind);
        Ok(token)
    }

    /// Makes the token `long` if the character after the next one is `second`, else the
    /// token `short` of the next character alone.
    fn one_or_two(&mut self, second: char, long: TokenType, short: TokenType, start_span: Span) -> (r:
        Result<Token, LexicalError>)
        requires
            old(self).wf(),
            start_span == old(self).scan().here(),
        ensures
            final(self).after(
                *old(self),
                scan::one_or_two(old(self).text(), old(self).scan(), second, long@, short@).scan,
            ),
            lexed_view(r) == scan::one_or_two(
                old(self).text(),
                old(self).scan(),
                second,
                long@,
                short@,
            ).result,
    {
        let follows = match self.peek_ahead() {
            Some(next) => next == second,
            None => false,
        };
        if follows {
            self.make(long, 2, start_span)
        } else {
            self.make(short, 1, start_span)
        }
    }

    /// Makes the token `kind` of the character `c` twice; `c` alone is a fault.
    fn doubled(&mut self, c: char, kind: TokenType, start_span: Span) -> (r: Result<
        Token,
        LexicalError,
    >)
        requires
            old(self).wf(),
            start_span == old(self).scan().here(),
        ensures
            final(self).after(
                *old(self),
                scan::doubled(old(self).text(), old(self).scan(), c, kind@).scan,
            ),
            lexed_view(r) == scan::doubled(old(self).text(), old(self).scan(), c, kind@).result,
    {
        let follows = match self.peek_ahead() {
            Some(next) => next == c,
            None => false,
        };
        if follows {
            self.make(kind, 2, start_span)
        } else {
            Err(LexicalError::InvalidChar { character: c, span: start_span })
        }
    }

    /// Reads the token that starts with the operator character `c`, at which the lexer
    /// stands, if `c` is one of `-`, `=`, `>`, `<`, `!`, `&` and `|`.
    fn operator(&mut self, c: char, start_span: Span) -> (r: Option<Result<Token, LexicalError>>)
        requires
            old(self).wf(),
            start_span == old(self).scan().here(),
        ensures
            match r {
                Some(lexed) => scan::operator(old(self).text(), old(self).scan(), c) == Some(
                    Lexed { result: lexed_view(lexed), scan: final(self).scan() },
                ),
                None => scan::operator(old(self).text(), old(self).scan(), c) is None
                    && final(self).scan() == old(self).scan(),
            },
            final(self).after(*old(self), final(self).scan()),
    {
        if c == '-' {
            Some(self.one_or_two('>', TokenType::Arrow, TokenType::Minus, start_span))
        } else if c == '=' {
            Some(self.one_or_two('=', TokenType::Equal, TokenType::Assign, start_span))
        } else if c == '>' {
            Some(self.one_or_two('=', TokenType::GreaterEqual, TokenType::Greater, start_span))
        } else if c == '<' {
            Some(self.one_or_two('=', TokenType::LessEqual, TokenType::Less, start_span))
        } else if c == '!' {
            Some(self.one_or_two('=', TokenType::NotEqual, TokenType::Not, start_span))
        } else if c == '&' {
            Some(self.doubled('&', TokenType::And, start_span))
        } else if c == '|' {
            Some(self.doubled('|', TokenType::Or, start_span))
        } else {
            None
        }
    }

    /// Reads the next token. White space and comments in front of it are passed over. At
    /// the end of the text the token is the end-of-input token.
    pub fn next_token(&mut self) -> (r: Result<Token, LexicalError>)
        requires
            old(self).wf(),
        ensures
            final(self).after(*old(self), scan::next_token(old(self).text(), old(self).scan()).scan),
            lexed_view(r) == scan::next_token(old(self).text(), old(self).scan()).result,
            r matches Ok(token) && !(token.token_type@ is EOF) ==> final(self).scan().position
                > old(self).scan().position,
        decreases old(self).scan().left(old(self).text()),
    {
        self.skip_whitespace();
        let start_span = self.current_location();
        let ch = match self.peek() {
            Some(ch) => ch,
            None => {
                return self.make(TokenType::EOF, 0, start_span);
            },
        };
        match punctuation(ch) {
            Some(kind) => {
                return self.make(kind, 1, start_span);
            },
            None => {},
        }
        match self.operator(ch, start_span) {
            Some(lexed) => {
                return lexed;
            },
            None => {},
        }
        if ch == '/' {
            let next = self.peek_ahead();
            if next == Some('/') {
                proof {
                    assert(scan::skip_line(self.text(), self.scan()) == scan::skip_line(
                        self.text(),
                        self.scan().advance(self.text()),
                    ));
                }
                self.advance();
                self.skip_line_comment();
                return self.next_token();
            } else if next == Some('*') {
                proof {
                    assert(scan::block_body(self.text(), self.scan()) == scan::block_body(
                        self.text(),
                        self.scan().advance(self.text()),
                    ));
                }
                self.advance();
                self.skip_block_comment();
                return self.next_token();
            } else {
                return self.make(TokenType::Slash, 1, start_span);
            }
        }
        if ch == '"' {
            self.read_string(start_span)
        } else if digit_check(ch) {
            self.read_number(start_span)
        } else if word_start_check(ch) {
            let inside = word_char_check(ch);
            let identifier = self.read_identifier();
            let mut token = Token::new_with_span(start_span);
            token.set_type(keyword(identifier));
            Ok(token)
        } else {
            Err(LexicalError::InvalidChar { character: ch, span: start_span })
        }
    }

    /// Reads all tokens of the rest of the text, up to and with the end-of-input token, or
    /// stops at the first fault.
    pub fn tokenize(&mut self) -> (r: Result<Vec<Token>, LexicalError>)
        requires
            old(self).wf(),
        ensures
            final(self).after(*old(self), scan::tokenize(old(self).text(), old(self).scan()).scan),
            tokenized_view(r) == scan::tokenize(old(self).text(), old(self).scan()).result,
            r matches Ok(tokens) ==> tokens@.len() > 0 && tokens@.last().token_type@ is EOF,
    {
        let mut tokens: Vec<Token> = Vec::new();
        let ghost goal = scan::tokenize(old(self).text(), old(self).scan());
        proof {
            reveal(token_views);
            assert(token_views(tokens@) =~= Seq::empty());
        }
        loop
            invariant
                self.after(*old(self), self.scan()),
                scan::tokens_from(self.text(), self.scan(), token_views(tokens@)) == goal,
                goal == scan::tokenize(old(self).text(), old(self).scan()),
            decreases self.scan().left(self.text()),
        {
            let token = match self.next_token() {
                Ok(token) => token,
                Err(fault) => {
                    return Err(fault);
                },
            };
            let is_eof = token.token_type.is_kind(TokenType::EOF);
            proof {
                reveal(token_views);
                assert(token_views(tokens@.push(token)) =~= token_views(tokens@).push(token@));
            }
            tokens.push(token);
            if is_eof {
                return Ok(tokens);
            }
        }
    }
}

} // verus!
