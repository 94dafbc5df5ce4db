use vstd::prelude::*;
use vstd::string::*;
use crate::ast::{class_views, fun_views, ClassDef, Entry, EntryView, FunDef, Stmt};
use crate::codegen::class::class_list;
use crate::codegen::fun::function_list;
use crate::codegen::stmt::statement_list;
use crate::codegen::target;

verus! {

/// A program taken apart into its statements, classes and functions, ready to be written
/// in the target language.
pub struct CodeGenerator {
    pub statements: Vec<Stmt>,
    pub classes: Vec<ClassDef>,
    pub functions: Vec<FunDef>,
}

impl View for CodeGenerator {
    type V = EntryView;

    open spec fn view(&self) -> EntryView {
        EntryView {
            statements: Stmt::models(self.statements@),
            class_defs: class_views(self.classes@),
            fun_defs: fun_views(self.functions@),
        }
    }
}

impl CodeGenerator {
    /// A generator for the program `ast`.
    pub fn new(ast: Entry) -> (generator: CodeGenerator)
        ensures
            generator@ == ast@,
            generator.statements == ast.statements,
            generator.classes == ast.class_defs,
            generator.functions == ast.fun_defs,
    {
        CodeGenerator { statements: ast.statements, classes: ast.class_defs, functions: ast.fun_defs }
    }

    /// The whole program in the target language: its classes, a line break, its functions,
    /// a line break, its statements.
    pub fn generate(&self) -> (program: String)
        ensures
            program@ == target::program(self@),
    {
        let mut program = class_list(&self.classes);
        program.append("\n");
        program.append(function_list(&self.functions).as_str());
        program.append("\n");
        program.append(statement_list(&self.statements).as_str());
        program
    }
}

} // verus!
