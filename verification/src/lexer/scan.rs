use vstd::prelude::*;
use crate::lexer::chars::{
    digits_value, escaped, is_digit, is_letter, is_white_space, is_word_char, is_word_start,
};
use crate::lexer::error::LexicalErrorView;
use crate::lexer::span::Span;
use crate::lexer::token::{TokenTypeView, TokenView, TypeNameView};

verus! {

/// Where the lexer stands in the text: the index of the next character, and the line and
/// the column of that character, both counted from one.
pub struct Scan {
    pub position: nat,
    pub line: nat,
    pub column: nat,
}

/// What reading one token yields: the token or the fault, and where the lexer stands then.
pub struct Lexed {
    pub result: Result<TokenView, LexicalErrorView>,
    pub scan: Scan,
}

/// What reading a word yields.
pub struct Word {
    pub text: Seq<char>,
    pub scan: Scan,
}

/// What reading all tokens yields: the tokens up to and with the end-of-input token, or
/// the first fault.
pub struct Tokenized {
    pub result: Result<Seq<TokenView>, LexicalErrorView>,
    pub scan: Scan,
}

impl Scan {
    /// The start of a text.
    pub open spec fn start() -> Scan {
        Scan { position: 0, line: 1, column: 1 }
    }

    /// The next character, if one is left.
    pub open spec fn peek(self, input: Seq<char>) -> Option<char> {
        if self.position < input.len() {
            Some(input[self.position as int])
        } else {
            None
        }
    }

    /// The character after the next one, if the text is that long.
    pub open spec fn peek_ahead(self, input: Seq<char>) -> Option<char> {
        if self.position + 1 < input.len() {
            Some(input[(self.position + 1) as int])
        } else {
            None
        }
    }

    /// Where the lexer stands after the next character: a line feed starts a new line at
    /// column one, any other character adds one to the column. At the end of the text the
    /// lexer stays.
    pub open spec fn advance(self, input: Seq<char>) -> Scan {
        match self.peek(input) {
            Some(c) => if c == '\n' {
                Scan { position: self.position + 1, line: self.line + 1, column: 1 }
            } else {
                Scan { position: self.position + 1, line: self.line, column: self.column + 1 }
            },
            None => self,
        }
    }

    /// The line and column of the next character as a position of a token.
    pub open spec fn here(self) -> Span {
        Span { line: self.line as usize, column: self.column as usize }
    }

    /// How many characters are left.
    pub open spec fn left(self, input: Seq<char>) -> nat {
        if self.position <= input.len() {
            (input.len() - self.position) as nat
        } else {
            0
        }
    }
}

/// Where the lexer stands after the white space in front of it.
pub open spec fn skip_whitespace(input: Seq<char>, s: Scan) -> Scan
    decreases s.left(input),
{
    match s.peek(input) {
        Some(c) => if is_white_space(c) {
            skip_whitespace(input, s.advance(input))
        } else {
            s
        },
        None => s,
    }
}

/// Where the lexer stands after the rest of the line: in front of the line feed, or at the
/// end of the text.
pub open spec fn skip_line(input: Seq<char>, s: Scan) -> Scan
    decreases s.left(input),
{
    match s.peek(input) {
        Some(c) => if c != '\n' {
            skip_line(input, s.advance(input))
        } else {
            s
        },
        None => s,
    }
}

/// Where the lexer stands in front of the next `*/`, or at the end of the text.
pub open spec fn block_body(input: Seq<char>, s: Scan) -> Scan
    decreases s.left(input),
{
    match s.peek(input) {
        Some(c) => if c == '*' && s.peek_ahead(input) == Some('/') {
            s
        } else {
            block_body(input, s.advance(input))
        },
        None => s,
    }
}

/// Where the lexer stands behind the next `*/`.
pub open spec fn skip_block(input: Seq<char>, s: Scan) -> Scan {
    block_body(input, s).advance(input).advance(input)
}

/// Passing over white space never moves the lexer backwards.
pub proof fn lemma_skip_whitespace_forward(input: Seq<char>, s: Scan)
    ensures
        skip_whitespace(input, s).position >= s.position,
    decreases s.left(input),
{
    match s.peek(input) {
        Some(c) => {
            if is_white_space(c) {
                lemma_skip_whitespace_forward(input, s.advance(input));
            }
        },
        None => {},
    }
}

/// Passing over the rest of a line never moves the lexer backwards, and it moves the lexer
/// forwards if a character other than a line feed is in front of it.
pub proof fn lemma_skip_line_forward(input: Seq<char>, s: Scan)
    ensures
        skip_line(input, s).position >= s.position,
        s.peek(input) matches Some(c) && c != '\n' ==> skip_line(input, s).position > s.position,
    decreases s.left(input),
{
    match s.peek(input) {
        Some(c) => {
            if c != '\n' {
                lemma_skip_line_forward(input, s.advance(input));
            }
        },
        None => {},
    }
}

/// Passing over a block comment never moves the lexer backwards, and it moves the lexer
/// forwards if a character other than `*` is in front of it.
pub proof fn lemma_skip_block_forward(input: Seq<char>, s: Scan)
    ensures
        block_body(input, s).position >= s.position,
        skip_block(input, s).position >= s.position,
        s.peek(input) matches Some(c) && c != '*' ==> skip_block(input, s).position > s.position,
    decreases s.left(input),
{
    match s.peek(input) {
        Some(c) => {
            if !(c == '*' && s.peek_ahead(input) == Some('/')) {
                lemma_skip_block_forward(input, s.advance(input));
            }
        },
        None => {},
    }
}

/// The rest of a string literal that started at `start`, after the characters `text`: up
/// to the closing quote, with each escape replaced by the character it stands for.
pub open spec fn string_body(input: Seq<char>, s: Scan, text: Seq<char>, start: Span) -> Lexed
    decreases s.left(input),
{
    match s.peek(input) {
        Some(c) => if c == '"' {
            Lexed {
                result: Ok(
                    TokenView { token_type: TokenTypeView::StringLiteral(text), span: start },
                ),
                scan: s.advance(input),
            }
        } else if c == '\\' {
            let behind = s.advance(input);
            match behind.peek(input) {
                Some(next) => match escaped(next) {
                    Some(meant) => string_body(
                        input,
                        behind.advance(input),
                        text.push(meant),
                        start,
                    ),
                    None => Lexed {
                        result: Err(
                            LexicalErrorView::InvalidEscapeSequence { escape: next, span: start },
                        ),
                        scan: behind,
                    },
                },
                None => Lexed {
                    result: Err(LexicalErrorView::UnexpectedEOF { span: start }),
                    scan: behind,
                },
            }
        } else {
            string_body(input, s.advance(input), text.push(c), start)
        },
        None => Lexed {
            result: Err(LexicalErrorView::UnterminatedString { span: start }),
            scan: s,
        },
    }
}

/// The rest of a number that started at `start`, after the digits `digits`. A letter
/// directly behind the digits is a fault, and so is a number above the largest signed
/// 64-bit integer.
pub open spec fn number_body(input: Seq<char>, s: Scan, digits: Seq<char>, start: Span) -> Lexed
    decreases s.left(input),
{
    match s.peek(input) {
        Some(c) if is_digit(c) => number_body(input, s.advance(input), digits.push(c), start),
        Some(c) if is_letter(c) => Lexed {
            result: Err(LexicalErrorView::InvalidNumber { value: digits.push(c), span: start }),
            scan: s,
        },
        _ => Lexed {
            result: if digits_value(digits) <= i64::MAX {
                Ok(
                    TokenView {
                        token_type: TokenTypeView::IntegerLiteral(digits_value(digits) as i64),
                        span: start,
                    },
                )
            } else {
                Err(LexicalErrorView::InvalidNumber { value: digits, span: start })
            },
            scan: s,
        },
    }
}

/// The rest of a word after the characters `text`.
pub open spec fn word_body(input: Seq<char>, s: Scan, text: Seq<char>) -> Word
    decreases s.left(input),
{
    match s.peek(input) {
        Some(c) => if is_word_char(c) {
            word_body(input, s.advance(input), text.push(c))
        } else {
            Word { text, scan: s }
        },
        None => Word { text, scan: s },
    }
}

/// The kind of token that a word is: a keyword, a type marker, or else an identifier.
pub open spec fn keyword(word: Seq<char>) -> TokenTypeView {
    if word == "class"@ {
        TokenTypeView::Class
    } else if word == "meth"@ {
        TokenTypeView::Meth
    } else if word == "init"@ {
        TokenTypeView::Init
    } else if word == "extends"@ {
        TokenTypeView::Extends
    } else if word == "this"@ {
        TokenTypeView::This
    } else if word == "super"@ {
        TokenTypeView::Super
    } else if word == "while"@ {
        TokenTypeView::While
    } else if word == "break"@ {
        TokenTypeView::Break
    } else if word == "return"@ {
        TokenTypeView::Return
    } else if word == "if"@ {
        TokenTypeView::If
    } else if word == "else"@ {
        TokenTypeView::Else
    } else if word == "new"@ {
        TokenTypeView::New
    } else if word == "true"@ {
        TokenTypeView::True
    } else if word == "false"@ {
        TokenTypeView::False
    } else if word == "print"@ {
        TokenTypeView::Print
    } else if word == "println"@ {
        TokenTypeView::Println
    } else if word == "const"@ {
        TokenTypeView::Const
    } else if word == "Int"@ {
        TokenTypeView::Type(TypeNameView::Int)
    } else if word == "Boolean"@ {
        TokenTypeView::Type(TypeNameView::Boolean)
    } else if word == "Void"@ {
        TokenTypeView::Type(TypeNameView::Void)
    } else if word == "Str"@ {
        TokenTypeView::Type(TypeNameView::Str)
    } else if word == "let"@ {
        TokenTypeView::Let
    } else if word == "fun"@ {
        TokenTypeView::Fun
    } else {
        TokenTypeView::Identifier(word)
    }
}

/// The token that a character makes alone, whatever follows it, if it makes one.
pub open spec fn punctuation(c: char) -> Option<TokenTypeView> {
    if c == '+' {
        Some(TokenTypeView::Plus)
    } else if c == '*' {
        Some(TokenTypeView::Star)
    } else if c == '(' {
        Some(TokenTypeView::LeftParen)
    } else if c == ')' {
        Some(TokenTypeView::RightParen)
    } else if c == '{' {
        Some(TokenTypeView::LeftBrace)
    } else if c == '}' {
        Some(TokenTypeView::RightBrace)
    } else if c == ';' {
        Some(TokenTypeView::Semicolon)
    } else if c == ':' {
        Some(TokenTypeView::Colon)
    } else if c == ',' {
        Some(TokenTypeView::Comma)
    } else if c == '.' {
        Some(TokenTypeView::Dot)
    } else if c == '[' {
        Some(TokenTypeView::LeftBracket)
    } else if c == ']' {
        Some(TokenTypeView::RightBracket)
    } else {
        None
    }
}

/// A token of kind `kind` made of the next `length` characters.
pub open spec fn made(input: Seq<char>, s: Scan, kind: TokenTypeView, length: nat) -> Lexed {
    Lexed {
        result: Ok(TokenView { token_type: kind, span: s.here() }),
        scan: if length == 2 {
            s.advance(input).advance(input)
        } else if length == 1 {
            s.advance(input)
        } else {
            s
        },
    }
}

/// The token `long` if the character after the next one is `second`, else the token
/// `short` made of the next character alone.
pub open spec fn one_or_two(
    input: Seq<char>,
    s: Scan,
    second: char,
    long: TokenTypeView,
    short: TokenTypeView,
) -> Lexed {
    if s.peek_ahead(input) == Some(second) {
        made(input, s, long, 2)
    } else {
        made(input, s, short, 1)
    }
}

/// The token `kind` made of the character `c` twice; `c` alone is a fault.
pub open spec fn doubled(input: Seq<char>, s: Scan, c: char, kind: TokenTypeView) -> Lexed {
    if s.peek_ahead(input) == Some(c) {
        made(input, s, kind, 2)
    } else {
        Lexed { result: Err(LexicalErrorView::InvalidChar { character: c, span: s.here() }), scan: s }
    }
}

/// The token that starts with the operator character `c`, which stands at `s`, if `c` is
/// one of `-`, `=`, `>`, `<`, `!`, `&` and `|`.
pub open spec fn operator(input: Seq<char>, s: Scan, c: char) -> Option<Lexed> {
    if c == '-' {
        Some(one_or_two(input, s, '>', TokenTypeView::Arrow, TokenTypeView::Minus))
    } else if c == '=' {
        Some(one_or_two(input, s, '=', TokenTypeView::Equal, TokenTypeView::Assign))
    } else if c == '>' {
        Some(one_or_two(input, s, '=', TokenTypeView::GreaterEqual, TokenTypeView::Greater))
    } else if c == '<' {
        Some(one_or_two(input, s, '=', TokenTypeView::LessEqual, TokenTypeView::Less))
    } else if c == '!' {
        Some(one_or_two(input, s, '=', TokenTypeView::NotEqual, TokenTypeView::Not))
    } else if c == '&' {
        Some(doubled(input, s, '&', TokenTypeView::And))
    } else if c == '|' {
        Some(doubled(input, s, '|', TokenTypeView::Or))
    } else {
        None
    }
}

/// The next token. White space and comments in front of it are passed over: `//` starts a
/// comment up to the end of the line, `/*` one up to the next `*/`. The token takes the
/// position of its first character. At the end of the text the token is the end-of-input
/// token.
pub open spec fn next_token(input: Seq<char>, from: Scan) -> Lexed
    decreases from.left(input),
{
    let s = skip_whitespace(input, from);
    match s.peek(input) {
        Some(c) => if punctuation(c) is Some {
            made(input, s, punctuation(c)->0, 1)
        } else if operator(input, s, c) is Some {
            operator(input, s, c)->0
        } else if c == '/' {
            if s.peek_ahead(input) == Some('/') || s.peek_ahead(input) == Some('*') {
                let behind = if s.peek_ahead(input) == Some('/') {
                    skip_line(input, s)
                } else {
                    skip_block(input, s)
                };
                proof {
                    lemma_skip_whitespace_forward(input, from);
                    lemma_skip_line_forward(input, s);
                    lemma_skip_block_forward(input, s);
                }
                next_token(input, behind)
            } else {
                made(input, s, TokenTypeView::Slash, 1)
            }
        } else if c == '"' {
            string_body(input, s.advance(input), Seq::empty(), s.here())
        } else if is_digit(c) {
            number_body(input, s, Seq::empty(), s.here())
        } else if is_word_start(c) {
            let word = word_body(input, s, Seq::empty());
            Lexed {
                result: Ok(TokenView { token_type: keyword(word.text), span: s.here() }),
                scan: word.scan,
            }
        } else {
            Lexed {
                result: Err(LexicalErrorView::InvalidChar { character: c, span: s.here() }),
                scan: s,
            }
        },
        None => made(input, s, TokenTypeView::EOF, 0),
    }
}

/// The rest of the tokens of a text after the tokens `read`, up to and with the
/// end-of-input token, or the first fault. Every token but the end-of-input token is made
/// of at least one character; the rule tests this where it reads the next token, which is
/// what makes the recursion end.
pub open spec fn tokens_from(input: Seq<char>, s: Scan, read: Seq<TokenView>) -> Tokenized
    decreases s.left(input),
{
    let next = next_token(input, s);
    match next.result {
        Ok(token) => if token.token_type is EOF || next.scan.position <= s.position {
            Tokenized { result: Ok(read.push(token)), scan: next.scan }
        } else {
            tokens_from(input, next.scan, read.push(token))
        },
        Err(fault) => Tokenized { result: Err(fault), scan: next.scan },
    }
}

/// All tokens of a text from `s` on.
pub open spec fn tokenize(input: Seq<char>, s: Scan) -> Tokenized {
    tokens_from(input, s, Seq::empty())
}

} // verus!
