use vstd::prelude::*;
use vstd::string::*;
use crate::ast::BinaryOp;
use crate::lexer::Span;
use crate::text::{push_signed_decimal, signed_decimal};

verus! {

/// The declared type of a variable, a parameter or a result.
#[derive(Debug, Default, PartialEq, Eq)]
pub enum TypeName {
    Int,
    Str,
    Boolean,
    #[default]
    Void,
    Class(String),
}

/// A type name with the class name as a sequence of characters.
pub enum TypeNameView {
    Int,
    Str,
    Boolean,
    Void,
    Class(Seq<char>),
}

impl TypeNameView {
    /// How the type is written in the source language.
    pub open spec fn text(self) -> Seq<char> {
        match self {
            TypeNameView::Int => "Int"@,
            TypeNameView::Str => "Str"@,
            TypeNameView::Boolean => "Boolean"@,
            TypeNameView::Void => "Void"@,
            TypeNameView::Class(name) => name,
        }
    }
}

impl View for TypeName {
    type V = TypeNameView;

    open spec fn view(&self) -> TypeNameView {
        match self {
            TypeName::Int => TypeNameView::Int,
            TypeName::Str => TypeNameView::Str,
            TypeName::Boolean => TypeNameView::Boolean,
            TypeName::Void => TypeNameView::Void,
            TypeName::Class(name) => TypeNameView::Class(name@),
        }
    }
}

impl Clone for TypeName {
    fn clone(&self) -> (copy: TypeName)
        ensures
            copy == *self,
    {
        match self {
            TypeName::Int => TypeName::Int,
            TypeName::Str => TypeName::Str,
            TypeName::Boolean => TypeName::Boolean,
            TypeName::Void => TypeName::Void,
            TypeName::Class(name) => TypeName::Class(name.clone()),
        }
    }
}

impl TypeName {
    /// How the type is written in the source language.
    pub fn to_string(&self) -> (s: String)
        ensures
            s@ == self@.text(),
    {
        match self {
            TypeName::Int => String::from_str("Int"),
            TypeName::Str => String::from_str("Str"),
            TypeName::Boolean => String::from_str("Boolean"),
            TypeName::Void => String::from_str("Void"),
            TypeName::Class(name) => name.clone(),
        }
    }

    /// Whether two type names denote the same type.
    pub fn same(&self, other: &TypeName) -> (r: bool)
        ensures
            r == (self@ == other@),
    {
        match (self, other) {
            (TypeName::Int, TypeName::Int) => true,
            (TypeName::Str, TypeName::Str) => true,
            (TypeName::Boolean, TypeName::Boolean) => true,
            (TypeName::Void, TypeName::Void) => true,
            (TypeName::Class(a), TypeName::Class(b)) => *a == *b,
            _ => false,
        }
    }
}

/// What a token is: a keyword, a type marker, a name or literal with its payload, an operator,
/// a punctuation mark, or the end of the input.
#[derive(Debug, PartialEq, Default)]
pub enum TokenType {
    // keywords
    Let,
    Arrow,
    Class,
    Meth,
    Init,
    Extends,
    This,
    Super,
    While,
    Break,
    Return,
    If,
    Else,
    New,
    True,
    False,
    Print,
    Println,
    Const,
    Fun,
    // type markers
    Type(TypeName),
    // identifiers and literals
    Identifier(String),
    IntegerLiteral(i64),
    StringLiteral(String),
    // operators
    Plus,
    Minus,
    Star,
    Slash,
    Assign,
    // comparisons and negation
    Greater,
    GreaterEqual,
    Less,
    LessEqual,
    Equal,
    NotEqual,
    Not,
    // logical operators
    Or,
    And,
    // punctuation
    LeftParen,
    RightParen,
    LeftBrace,
    RightBrace,
    Semicolon,
    Colon,
    Comma,
    Dot,
    LeftBracket,
    RightBracket,
    // end of input
    #[default]
    EOF,
}

/// A kind of token with its payload as a mathematical value.
pub enum TokenTypeView {
    // keywords
    Let,
    Arrow,
    Class,
    Meth,
    Init,
    Extends,
    This,
    Super,
    While,
    Break,
    Return,
    If,
    Else,
    New,
    True,
    False,
    Print,
    Println,
    Const,
    Fun,
    // type markers
    Type(TypeNameView),
    // identifiers and literals
    Identifier(Seq<char>),
    IntegerLiteral(i64),
    StringLiteral(Seq<char>),
    // operators
    Plus,
    Minus,
    Star,
    Slash,
    Assign,
    // comparisons and negation
    Greater,
    GreaterEqual,
    Less,
    LessEqual,
    Equal,
    NotEqual,
    Not,
    // logical operators
    Or,
    And,
    // punctuation
    LeftParen,
    RightParen,
    LeftBrace,
    RightBrace,
    Semicolon,
    Colon,
    Comma,
    Dot,
    LeftBracket,
    RightBracket,
    // end of input
    EOF,
}

impl TokenTypeView {
    /// Whether the token is one of the twelve binary operators.
    pub open spec fn is_binary_operator(self) -> bool {
        self is Plus
            || self is Minus
            || self is Star
            || self is Slash
            || self is Equal
            || self is NotEqual
            || self is Greater
            || self is Less
            || self is GreaterEqual
            || self is LessEqual
            || self is And
            || self is Or
    }

    /// Whether the token is `+` or `-`.
    pub open spec fn is_additive(self) -> bool {
        self is Plus || self is Minus
    }

    /// Whether the token is `*` or `/`.
    pub open spec fn is_multiplicative(self) -> bool {
        self is Star || self is Slash
    }

    /// Whether the token is one of the six comparison operators.
    pub open spec fn is_comparison(self) -> bool {
        self is Less || self is LessEqual || self is Greater || self is GreaterEqual
            || self is Equal || self is NotEqual
    }

    /// The binary operator that an operator token stands for.
    pub open spec fn binary_op(self) -> BinaryOp {
        match self {
            TokenTypeView::Plus => BinaryOp::Add,
            TokenTypeView::Minus => BinaryOp::Subtract,
            TokenTypeView::Star => BinaryOp::Multiply,
            TokenTypeView::Slash => BinaryOp::Divide,
            TokenTypeView::Equal => BinaryOp::Equal,
            TokenTypeView::NotEqual => BinaryOp::NotEqual,
            TokenTypeView::Greater => BinaryOp::Greater,
            TokenTypeView::Less => BinaryOp::Less,
            TokenTypeView::GreaterEqual => BinaryOp::GreaterEqual,
            TokenTypeView::LessEqual => BinaryOp::LessEqual,
            TokenTypeView::And => BinaryOp::And,
            _ => BinaryOp::Or,
        }
    }

    /// How the kind of token reads in a diagnostic.
    #[verifier::opaque]
    pub open spec fn text(self) -> Seq<char> {
        match self {
            TokenTypeView::Let => "let"@,
            TokenTypeView::Arrow => "->"@,
            TokenTypeView::Class => "class"@,
            TokenTypeView::Meth => "meth"@,
            TokenTypeView::Init => "init"@,
            TokenTypeView::Extends => "extends"@,
            TokenTypeView::This => "this"@,
            TokenTypeView::Super => "super"@,
            TokenTypeView::While => "while"@,
            TokenTypeView::Break => "break"@,
            TokenTypeView::Return => "return"@,
            TokenTypeView::If => "if"@,
            TokenTypeView::Else => "else"@,
            TokenTypeView::New => "new"@,
            TokenTypeView::True => "true"@,
            TokenTypeView::False => "false"@,
            TokenTypeView::Print => "print"@,
            TokenTypeView::Println => "println"@,
            TokenTypeView::Const => "const"@,
            TokenTypeView::Fun => "fun"@,
            TokenTypeView::Type(t) => t.text(),
            TokenTypeView::Identifier(s) => "Identifier("@ + s + ")"@,
            TokenTypeView::IntegerLiteral(i) => "IntegerLiteral("@ + signed_decimal(i as int) + ")"@,
            TokenTypeView::StringLiteral(s) => "StringLiteral("@ + s + ")"@,
            TokenTypeView::Plus => "+"@,
            TokenTypeView::Minus => "-"@,
            TokenTypeView::Star => "*"@,
            TokenTypeView::Slash => "/"@,
            TokenTypeView::Assign => "="@,
            TokenTypeView::Greater => ">"@,
            TokenTypeView::GreaterEqual => ">="@,
            TokenTypeView::Less => "<"@,
            TokenTypeView::LessEqual => "<="@,
            TokenTypeView::Equal => "=="@,
            TokenTypeView::NotEqual => "!="@,
            TokenTypeView::Not => "!"@,
            TokenTypeView::Or => "||"@,
            TokenTypeView::And => "&&"@,
            TokenTypeView::LeftParen => "("@,
            TokenTypeView::RightParen => ")"@,
            TokenTypeView::LeftBrace => "{"@,
            TokenTypeView::RightBrace => "}"@,
            TokenTypeView::Semicolon => ";"@,
            TokenTypeView::Colon => ":"@,
            TokenTypeView::Comma => ","@,
            TokenTypeView::Dot => "."@,
            TokenTypeView::LeftBracket => "["@,
            TokenTypeView::RightBracket => "]"@,
            TokenTypeView::EOF => "EOF"@,
        }
    }
}

impl View for TokenType {
    type V = TokenTypeView;

    open spec fn view(&self) -> TokenTypeView {
        match self {
            TokenType::Let => TokenTypeView::Let,
            TokenType::Arrow => TokenTypeView::Arrow,
            TokenType::Class => TokenTypeView::Class,
            TokenType::Meth => TokenTypeView::Meth,
            TokenType::Init => TokenTypeView::Init,
            TokenType::Extends => TokenTypeView::Extends,
            TokenType::This => TokenTypeView::This,
            TokenType::Super => TokenTypeView::Super,
            TokenType::While => TokenTypeView::While,
            TokenType::Break => TokenTypeView::Break,
            TokenType::Return => TokenTypeView::Return,
            TokenType::If => TokenTypeView::If,
            TokenType::Else => TokenTypeView::Else,
            TokenType::New => TokenTypeView::New,
            TokenType::True => TokenTypeView::True,
            TokenType::False => TokenTypeView::False,
            TokenType::Print => TokenTypeView::Print,
            TokenType::Println => TokenTypeView::Println,
            TokenType::Const => TokenTypeView::Const,
            TokenType::Fun => TokenTypeView::Fun,
            TokenType::Type(t) => TokenTypeView::Type(t@),
            TokenType::Identifier(s) => TokenTypeView::Identifier(s@),
            TokenType::IntegerLiteral(i) => TokenTypeView::IntegerLiteral(*i),
            TokenType::StringLiteral(s) => TokenTypeView::StringLiteral(s@),
            TokenType::Plus => TokenTypeView::Plus,
            TokenType::Minus => TokenTypeView::Minus,
            TokenType::Star => TokenTypeView::Star,
            TokenType::Slash => TokenTypeView::Slash,
            TokenType::Assign => TokenTypeView::Assign,
            TokenType::Greater => TokenTypeView::Greater,
            TokenType::GreaterEqual => TokenTypeView::GreaterEqual,
            TokenType::Less => TokenTypeView::Less,
            TokenType::LessEqual => TokenTypeView::LessEqual,
            TokenType::Equal => TokenTypeView::Equal,
            TokenType::NotEqual => TokenTypeView::NotEqual,
            TokenType::Not => TokenTypeView::Not,
            TokenType::Or => TokenTypeView::Or,
            TokenType::And => TokenTypeView::And,
            TokenType::LeftParen => TokenTypeView::LeftParen,
            TokenType::RightParen => TokenTypeView::RightParen,
            TokenType::LeftBrace => TokenTypeView::LeftBrace,
            TokenType::RightBrace => TokenTypeView::RightBrace,
            TokenType::Semicolon => TokenTypeView::Semicolon,
            TokenType::Colon => TokenTypeView::Colon,
            TokenType::Comma => TokenTypeView::Comma,
            TokenType::Dot => TokenTypeView::Dot,
            TokenType::LeftBracket => TokenTypeView::LeftBracket,
            TokenType::RightBracket => TokenTypeView::RightBracket,
            TokenType::EOF => TokenTypeView::EOF,
        }
    }
}

impl Clone for TokenType {
    fn clone(&self) -> (copy: TokenType)
        ensures
            copy == *self,
    {
        match self {
            TokenType::Let => TokenType::Let,
            TokenType::Arrow => TokenType::Arrow,
            TokenType::Class => TokenType::Class,
            TokenType::Meth => TokenType::Meth,
            TokenType::Init => TokenType::Init,
            TokenType::Extends => TokenType::Extends,
            TokenType::This => TokenType::This,
            TokenType::Super => TokenType::Super,
            TokenType::While => TokenType::While,
            TokenType::Break => TokenType::Break,
            TokenType::Return => TokenType::Return,
            TokenType::If => TokenType::If,
            TokenType::Else => TokenType::Else,
            TokenType::New => TokenType::New,
            TokenType::True => TokenType::True,
            TokenType::False => TokenType::False,
            TokenType::Print => TokenType::Print,
            TokenType::Println => TokenType::Println,
            TokenType::Const => TokenType::Const,
            TokenType::Fun => TokenType::Fun,
            TokenType::Type(t) => TokenType::Type(t.clone()),
            TokenType::Identifier(s) => TokenType::Identifier(s.clone()),
            TokenType::IntegerLiteral(i) => TokenType::IntegerLiteral(*i),
            TokenType::StringLiteral(s) => TokenType::StringLiteral(s.clone()),
            TokenType::Plus => TokenType::Plus,
            TokenType::Minus => TokenType::Minus,
            TokenType::Star => TokenType::Star,
            TokenType::Slash => TokenType::Slash,
            TokenType::Assign => TokenType::Assign,
            TokenType::Greater => TokenType::Greater,
            TokenType::GreaterEqual => TokenType::GreaterEqual,
            TokenType::Less => TokenType::Less,
            TokenType::LessEqual => TokenType::LessEqual,
            TokenType::Equal => TokenType::Equal,
            TokenType::NotEqual => TokenType::NotEqual,
            TokenType::Not => TokenType::Not,
            TokenType::Or => TokenType::Or,
            TokenType::And => TokenType::And,
            TokenType::LeftParen => TokenType::LeftParen,
            TokenType::RightParen => TokenType::RightParen,
            TokenType::LeftBrace => TokenType::LeftBrace,
            TokenType::RightBrace => TokenType::RightBrace,
            TokenType::Semicolon => TokenType::Semicolon,
            TokenType::Colon => TokenType::Colon,
            TokenType::Comma => TokenType::Comma,
            TokenType::Dot => TokenType::Dot,
            TokenType::LeftBracket => TokenType::LeftBracket,
            TokenType::RightBracket => TokenType::RightBracket,
            TokenType::EOF => TokenType::EOF,
        }
    }
}

impl TokenType {
    /// The binary operator that this operator token stands for.
    pub fn which_binary_op(&self) -> (op: BinaryOp)
        requires
            self@.is_binary_operator(),
        ensures
            op == self@.binary_op(),
    {
        match self {
            TokenType::Plus => BinaryOp::Add,
            TokenType::Minus => BinaryOp::Subtract,
            TokenType::Star => BinaryOp::Multiply,
            TokenType::Slash => BinaryOp::Divide,
            TokenType::Equal => BinaryOp::Equal,
            TokenType::NotEqual => BinaryOp::NotEqual,
            TokenType::Greater => BinaryOp::Greater,
            TokenType::Less => BinaryOp::Less,
            TokenType::GreaterEqual => BinaryOp::GreaterEqual,
            TokenType::LessEqual => BinaryOp::LessEqual,
            TokenType::And => BinaryOp::And,
            _ => BinaryOp::Or,
        }
    }

    /// Whether the token is `+` or `-`.
    pub fn is_additive(&self) -> (r: bool)
        ensures
            r == self@.is_additive(),
    {
        match self {
            TokenType::Plus | TokenType::Minus => true,
            _ => false,
        }
    }

    /// Whether the token is `*` or `/`.
    pub fn is_multiplicative(&self) -> (r: bool)
        ensures
            r == self@.is_multiplicative(),
    {
        match self {
            TokenType::Star | TokenType::Slash => true,
            _ => false,
        }
    }

    /// Whether the token is one of the six comparison operators.
    pub fn is_comparison(&self) -> (r: bool)
        ensures
            r == self@.is_comparison(),
    {
        match self {
            TokenType::Less
            | TokenType::LessEqual
            | TokenType::Greater
            | TokenType::GreaterEqual
            | TokenType::Equal
            | TokenType::NotEqual => true,
            _ => false,
        }
    }

    /// Whether the token is of kind `kind`, which carries no payload.
    pub fn is_kind(&self, kind: TokenType) -> (r: bool)
        ensures
            r == (self@ == kind@),
    {
        self.same(&kind)
    }

    /// How the kind of token reads in a diagnostic.
    pub fn to_string(&self) -> (s: String)
        ensures
            s@ == self@.text(),
    {
        reveal(TokenTypeView::text);
        match self {
            TokenType::Let => String::from_str("let"),
            TokenType::Arrow => String::from_str("->"),
            TokenType::Class => String::from_str("class"),
            TokenType::Meth => String::from_str("meth"),
            TokenType::Init => String::from_str("init"),
            TokenType::Extends => String::from_str("extends"),
            TokenType::This => String::from_str("this"),
            TokenType::Super => String::from_str("super"),
            TokenType::While => String::from_str("while"),
            TokenType::Break => String::from_str("break"),
            TokenType::Return => String::from_str("return"),
            TokenType::If => String::from_str("if"),
            TokenType::Else => String::from_str("else"),
            TokenType::New => String::from_str("new"),
            TokenType::True => String::from_str("true"),
            TokenType::False => String::from_str("false"),
            TokenType::Print => String::from_str("print"),
            TokenType::Println => String::from_str("println"),
            TokenType::Const => String::from_str("const"),
            TokenType::Fun => String::from_str("fun"),
            TokenType::Type(t) => t.to_string(),
            TokenType::Identifier(name) => {
                let mut s = String::from_str("Identifier(");
                s.append(name.as_str());
                s.append(")");
                s
            },
            TokenType::IntegerLiteral(i) => {
                let mut s = String::from_str("IntegerLiteral(");
                push_signed_decimal(&mut s, *i);
                s.append(")");
                s
            },
            TokenType::StringLiteral(value) => {
                let mut s = String::from_str("StringLiteral(");
                s.append(value.as_str());
                s.append(")");
                s
            },
            TokenType::Plus => String::from_str("+"),
            TokenType::Minus => String::from_str("-"),
            TokenType::Star => String::from_str("*"),
            TokenType::Slash => String::from_str("/"),
            TokenType::Assign => String::from_str("="),
            TokenType::Greater => String::from_str(">"),
            TokenType::GreaterEqual => String::from_str(">="),
            TokenType::Less => String::from_str("<"),
            TokenType::LessEqual => String::from_str("<="),
            TokenType::Equal => String::from_str("=="),
            TokenType::NotEqual => String::from_str("!="),
            TokenType::Not => String::from_str("!"),
            TokenType::Or => String::from_str("||"),
            TokenType::And => String::from_str("&&"),
            TokenType::LeftParen => String::from_str("("),
            TokenType::RightParen => String::from_str(")"),
            TokenType::LeftBrace => String::from_str("{"),
            TokenType::RightBrace => String::from_str("}"),
            TokenType::Semicolon => String::from_str(";"),
            TokenType::Colon => String::from_str(":"),
            TokenType::Comma => String::from_str(","),
            TokenType::Dot => String::from_str("."),
            TokenType::LeftBracket => String::from_str("["),
            TokenType::RightBracket => String::from_str("]"),
            TokenType::EOF => String::from_str("EOF"),
        }
    }

    /// Whether two kinds of token are the same, payload included.
    pub fn same(&self, other: &TokenType) -> (r: bool)
        ensures
            r == (self@ == other@),
    {
        match (self, other) {
            (TokenType::Let, TokenType::Let) => true,
            (TokenType::Arrow, TokenType::Arrow) => true,
            (TokenType::Class, TokenType::Class) => true,
            (TokenType::Meth, TokenType::Meth) => true,
            (TokenType::Init, TokenType::Init) => true,
            (TokenType::Extends, TokenType::Extends) => true,
            (TokenType::This, TokenType::This) => true,
            (TokenType::Super, TokenType::Super) => true,
            (TokenType::While, TokenType::While) => true,
            (TokenType::Break, TokenType::Break) => true,
            (TokenType::Return, TokenType::Return) => true,
            (TokenType::If, TokenType::If) => true,
            (TokenType::Else, TokenType::Else) => true,
            (TokenType::New, TokenType::New) => true,
            (TokenType::True, TokenType::True) => true,
            (TokenType::False, TokenType::False) => true,
            (TokenType::Print, TokenType::Print) => true,
            (TokenType::Println, TokenType::Println) => true,
            (TokenType::Const, TokenType::Const) => true,
            (TokenType::Fun, TokenType::Fun) => true,
            (TokenType::Type(a), TokenType::Type(b)) => a.same(b),
            (TokenType::Identifier(a), TokenType::Identifier(b)) => *a == *b,
            (TokenType::IntegerLiteral(a), TokenType::IntegerLiteral(b)) => *a == *b,
            (TokenType::StringLiteral(a), TokenType::StringLiteral(b)) => *a == *b,
            (TokenType::Plus, TokenType::Plus) => true,
            (TokenType::Minus, TokenType::Minus) => true,
            (TokenType::Star, TokenType::Star) => true,
            (TokenType::Slash, TokenType::Slash) => true,
            (TokenType::Assign, TokenType::Assign) => true,
            (TokenType::Greater, TokenType::Greater) => true,
            (TokenType::GreaterEqual, TokenType::GreaterEqual) => true,
            (TokenType::Less, TokenType::Less) => true,
            (TokenType::LessEqual, TokenType::LessEqual) => true,
            (TokenType::Equal, TokenType::Equal) => true,
            (TokenType::NotEqual, TokenType::NotEqual) => true,
            (TokenType::Not, TokenType::Not) => true,
            (TokenType::Or, TokenType::Or) => true,
            (TokenType::And, TokenType::And) => true,
            (TokenType::LeftParen, TokenType::LeftParen) => true,
            (TokenType::RightParen, TokenType::RightParen) => true,
            (TokenType::LeftBrace, TokenType::LeftBrace) => true,
            (TokenType::RightBrace, TokenType::RightBrace) => true,
            (TokenType::Semicolon, TokenType::Semicolon) => true,
            (TokenType::Colon, TokenType::Colon) => true,
            (TokenType::Comma, TokenType::Comma) => true,
            (TokenType::Dot, TokenType::Dot) => true,
            (TokenType::LeftBracket, TokenType::LeftBracket) => true,
            (TokenType::RightBracket, TokenType::RightBracket) => true,
            (TokenType::EOF, TokenType::EOF) => true,
            _ => false,
        }
    }
}

/// A token: its kind and the position at which it starts.
#[derive(Debug, Default)]
pub struct Token {
    pub token_type: TokenType,
    pub span: Span,
}

/// A token with its kind as a mathematical value.
pub struct TokenView {
    pub token_type: TokenTypeView,
    pub span: Span,
}

impl View for Token {
    type V = TokenView;

    open spec fn view(&self) -> TokenView {
        TokenView { token_type: self.token_type@, span: self.span }
    }
}

impl Clone for Token {
    fn clone(&self) -> (copy: Token)
        ensures
            copy == *self,
    {
        Token { token_type: self.token_type.clone(), span: self.span }
    }
}

impl Token {
    /// A token of kind `token_type` at `span`.
    pub fn new(token_type: TokenType, span: Span) -> (token: Token)
        ensures
            token == (Token { token_type, span }),
    {
        Token { token_type, span }
    }

    /// A token at `span` whose kind is still the end-of-input marker.
    pub fn new_with_span(span: Span) -> (token: Token)
        ensures
            token == (Token { token_type: TokenType::EOF, span }),
    {
        Token { token_type: TokenType::EOF, span }
    }

    /// Gives the token another kind and leaves its position.
    pub fn set_type(&mut self, token_type: TokenType)
        ensures
            *final(self) == (Token { token_type, span: old(self).span }),
    {
        self.token_type = token_type;
    }
}

/// The views of a sequence of tokens, in order.
#[verifier::opaque]
pub open spec fn token_views(tokens: Seq<Token>) -> Seq<TokenView> {
    Seq::new(tokens.len(), |i: int| tokens[i]@)
}

} // verus!
