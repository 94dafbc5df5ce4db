pub mod chars;
pub mod error;
pub mod laws;
pub mod lexing;
pub mod scan;
pub mod span;
pub mod token;

pub use error::{LexicalError, LexicalErrorView};
pub use lexing::{lexed_view, tokenized_view, Lexer};
pub use span::Span;
pub use token::{Token, TokenType, TokenTypeView, TokenView, TypeName, TypeNameView};
