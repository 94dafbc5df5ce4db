use classlang::ast::BinaryOp;
use classlang::lexer::{TokenType, TypeName};

#[test]
fn test_all_bin_ops() {
    assert_eq!(TokenType::Plus.which_binary_op(), BinaryOp::Add);
    assert_eq!(TokenType::Minus.which_binary_op(), BinaryOp::Subtract);
    assert_eq!(TokenType::Star.which_binary_op(), BinaryOp::Multiply);
    assert_eq!(TokenType::Slash.which_binary_op(), BinaryOp::Divide);
    assert_eq!(TokenType::Equal.which_binary_op(), BinaryOp::Equal);
    assert_eq!(TokenType::NotEqual.which_binary_op(), BinaryOp::NotEqual);
    assert_eq!(TokenType::Greater.which_binary_op(), BinaryOp::Greater);
    assert_eq!(TokenType::GreaterEqual.which_binary_op(), BinaryOp::GreaterEqual);
    assert_eq!(TokenType::Less.which_binary_op(), BinaryOp::Less);
    assert_eq!(TokenType::LessEqual.which_binary_op(), BinaryOp::LessEqual);
    assert_eq!(TokenType::And.which_binary_op(), BinaryOp::And);
    assert_eq!(TokenType::Or.which_binary_op(), BinaryOp::Or);
}

#[test]
fn test_display_token_type_literals() {
    let tokens = vec![
        TokenType::Let, TokenType::Arrow, TokenType::Class, TokenType::Meth,
        TokenType::Init, TokenType::This, TokenType::While,
        TokenType::Identifier("foo".to_string()),
        TokenType::IntegerLiteral(123),
        TokenType::Star,
        TokenType::Plus,
        TokenType::LeftParen,
        TokenType::EOF,
    ];

    for token in tokens {
        println!("{}", token.to_string());
    }
}

#[test]
fn test_type_name_display() {
    assert_eq!(TypeName::Int.to_string(), "Int");
    assert_eq!(TypeName::Str.to_string(), "Str");
    assert_eq!(TypeName::Boolean.to_string(), "Boolean");
    assert_eq!(TypeName::Void.to_string(), "Void");
    assert_eq!(TypeName::Class("MyClass".to_string()).to_string(), "MyClass");
}

#[test]
fn test_all_token_types() {
    let _ = vec![
        TokenType::Let,
        TokenType::Arrow,
        TokenType::Class,
        TokenType::Meth,
        TokenType::Init,
        TokenType::Extends,
        TokenType::This,
        TokenType::Super,
        TokenType::While,
        TokenType::Break,
        TokenType::Return,
        TokenType::If,
        TokenType::Else,
        TokenType::New,
        TokenType::True,
        TokenType::False,
        TokenType::Print,
        TokenType::Println,
        TokenType::Const,
        TokenType::Fun,
        TokenType::Type(TypeName::Int),
        TokenType::Identifier("id".into()),
        TokenType::IntegerLiteral(42),
        TokenType::StringLiteral("string".into()),
        TokenType::Plus,
        TokenType::Minus,
        TokenType::Star,
        TokenType::Slash,
        TokenType::Assign,
        TokenType::Greater,
        TokenType::GreaterEqual,
        TokenType::Less,
        TokenType::LessEqual,
        TokenType::Equal,
        TokenType::NotEqual,
        TokenType::Not,
        TokenType::Or,
        TokenType::And,
        TokenType::LeftParen,
        TokenType::RightParen,
        TokenType::LeftBrace,
        TokenType::RightBrace,
        TokenType::Semicolon,
        TokenType::Colon,
        TokenType::Comma,
        TokenType::Dot,
        TokenType::LeftBracket,
        TokenType::RightBracket,
        TokenType::EOF,
    ]
    .into_iter()
    .map(|t| t.to_string())
    .collect::<Vec<_>>();
}
