pub mod text;
pub mod style;
pub mod views;
pub mod ast;
pub mod lexer;
pub mod parser;
pub mod codegen;
pub mod compile;
