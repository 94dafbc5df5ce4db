use vstd::prelude::*;
use vstd::string::*;
use crate::ast::Stmt;
use crate::codegen::engine::CodeGenerator;
use crate::codegen::expr::expression_text;
use crate::codegen::target;
use crate::text::join;

verus! {

/// Turns statements into the target language.
pub trait StatementGenerator {
    /// Statements in the target language.
    fn generate_statements(&self, statements: Vec<Stmt>) -> String;

    /// A statement in the target language.
    fn convert_statement(&self, statement: Stmt) -> String;
}

/// Statements in the target language.
pub fn statement_list(items: &Vec<Stmt>) -> (out: String)
    ensures
        out@ == target::statements(Stmt::models(items@)),
    decreases items,
{
    let mut parts: Vec<String> = Vec::new();
    let mut i: usize = 0;
    while i < items.len()
        invariant
            0 <= i <= items.len(),
            parts.len() == i,
            forall|j: int| 0 <= j < i ==> #[trigger] parts[j]@ == target::statement(items[j]@),
        decreases items.len() - i,
    {
        proof {
            vstd::std_specs::vec::axiom_vec_index_decreases(*items, i as int);
        }
        let part = statement_text(&items[i]);
        parts.push(part);
        i += 1;
    }
    proof {
        assert(crate::text::string_views(parts@) =~= target::statement_texts(
            Stmt::models(items@),
        ));
    }
    let joined = join(&parts, "; \n");
    String::from_str(joined.as_str().trim())
}

/// A statement in the target language.
pub fn statement_text(s: &Stmt) -> (out: String)
    ensures
        out@ == target::statement(s@),
    decreases s,
{
    match s {
        Stmt::Expr(statement) => expression_text(&statement.expr),
        Stmt::VarDecl(declaration) => {
            let mut out = String::from_str("let ");
            out.append(declaration.name.as_str());
            out
        },
        Stmt::Assign(assignment) => {
            let mut out = assignment.name.clone();
            out.append(" = ");
            out.append(expression_text(&assignment.expr).as_str());
            out
        },
        Stmt::VarDeclWithAssign(declaration) => {
            let mut out = String::from_str("let ");
            out.append(declaration.name.as_str());
            out.append(" = ");
            out.append(expression_text(&declaration.expr).as_str());
            out
        },
        Stmt::While(repeat) => {
            let mut out = String::from_str("while (");
            out.append(expression_text(&repeat.condition).as_str());
            out.append(") ");
            out.append(statement_text(&repeat.body).as_str());
            out
        },
        Stmt::If(choice) => {
            let mut out = String::from_str("if (");
            out.append(expression_text(&choice.condition).as_str());
            out.append(") {");
            out.append(statement_text(&choice.then_branch).as_str());
            out.append("} ");
            match &choice.else_branch {
                Some(other) => {
                    let mut rest = String::from_str("else {");
                    rest.append(statement_text(other).as_str());
                    rest.append("}");
                    out.append(rest.as_str());
                },
                None => {
                    assert(out@ + Seq::<char>::empty() =~= out@);
                },
            }
            out
        },
        Stmt::Break(_) => String::from_str("break"),
        Stmt::Return(result) => match &result.value {
            Some(value) => {
                let mut out = String::from_str("return ");
                out.append(expression_text(value).as_str());
                out
            },
            None => String::from_str("return"),
        },
        Stmt::Block(block) => {
            let mut out = String::from_str("{ ");
            out.append(statement_list(&block.statements).as_str());
            out.append(" }");
            out
        },
        Stmt::Empty => String::new(),
    }
}

/// The body of a function, method or constructor in the target language.
pub fn body_text(statements: &Option<Stmt>) -> (out: String)
    ensures
        out@ == target::body(crate::views::viewed(*statements)),
{
    match statements {
        Some(s) => statement_text(s),
        None => String::new(),
    }
}

impl StatementGenerator for CodeGenerator {
    /// Statements in the target language.
    fn generate_statements(&self, statements: Vec<Stmt>) -> (out: String)
        ensures
            out@ == target::statements(Stmt::models(statements@)),
    {
        statement_list(&statements)
    }

    /// A statement in the target language.
    fn convert_statement(&self, statement: Stmt) -> (out: String)
        ensures
            out@ == target::statement(statement@),
    {
        statement_text(&statement)
    }
}

} // verus!
