use vstd::prelude::*;
use vstd::string::*;
use crate::codegen::target;
use crate::codegen::CodeGenerator;
use crate::lexer::scan;
use crate::lexer::scan::Scan;
use crate::lexer::{LexicalError, LexicalErrorView, Lexer};
use crate::parser::error::error_views;
use crate::parser::grammar;
use crate::parser::grammar::Cursor;
use crate::parser::{ParseError, ParseErrorView, Parser};

verus! {

/// What compiling a source text yields: the program in the target language and the
/// diagnostics of the parser, oldest first. The program is written even where diagnostics
/// were recorded; it then holds what could be read.
pub struct Compiled {
    pub code: String,
    pub errors: Vec<ParseError>,
}

/// The result of compiling as a mathematical value.
pub struct CompiledView {
    pub code: Seq<char>,
    pub errors: Seq<ParseErrorView>,
}

impl View for Compiled {
    type V = CompiledView;

    open spec fn view(&self) -> CompiledView {
        CompiledView { code: self.code@, errors: error_views(self.errors@) }
    }
}

/// What compiling `source` yields: the first fault of the lexer, or else the target text of
/// the program that the parser reads from the tokens, with the diagnostics of the parser.
pub open spec fn compiled(source: Seq<char>) -> Result<CompiledView, LexicalErrorView> {
    match scan::tokenize(source, Scan::start()).result {
        Ok(tokens) => {
            let read = grammar::program(tokens, Cursor::start());
            Ok(CompiledView { code: target::program(read.entry), errors: read.cursor.errors })
        },
        Err(fault) => Err(fault),
    }
}

/// The view of a result of compiling.
pub open spec fn compiled_view(result: Result<Compiled, LexicalError>) -> Result<
    CompiledView,
    LexicalErrorView,
> {
    match result {
        Ok(done) => Ok(done@),
        Err(fault) => Err(fault@),
    }
}

/// Compiles a source text: lexes it, parses the tokens and writes the program in the
/// target language. A fault of the lexer ends the compilation; diagnostics of the parser do
/// not.
pub fn compile(source: &str) -> (result: Result<Compiled, LexicalError>)
    requires
        source@.len() < usize::MAX,
    ensures
        compiled_view(result) == compiled(source@),
{
    let mut lexer = Lexer::new(source);
    let tokens = match lexer.tokenize() {
        Ok(tokens) => tokens,
        Err(fault) => {
            return Err(fault);
        },
    };
    let mut parser = Parser::new(tokens);
    let entry = parser.parse().unwrap();
    let generator = CodeGenerator::new(entry);
    let code = generator.generate();
    Ok(Compiled { code, errors: parser.errors })
}

} // verus!
