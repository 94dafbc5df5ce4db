use vstd::prelude::*;
use vstd::string::*;
use crate::ast::Expr;
use crate::codegen::engine::CodeGenerator;
use crate::codegen::target;
use crate::text::{bool_string, join, signed_decimal_string};

verus! {

/// Turns expressions into the target language.
pub trait ExpressionGenerator {
    /// Expressions in the target language, with `seperator` between neighbours.
    fn generate_expressions(&self, expressions: Vec<Expr>, seperator: &str) -> String;

    /// An expression in the target language.
    fn convert_expression(&self, expression: Expr) -> String;
}

/// `items` in the target language, with `separator` between neighbours.
pub fn expression_list(items: &Vec<Expr>, separator: &str) -> (out: String)
    ensures
        out@ == target::expressions(Expr::models(items@), separator@),
    decreases items,
{
    let mut parts: Vec<String> = Vec::new();
    let mut i: usize = 0;
    while i < items.len()
        invariant
            0 <= i <= items.len(),
            parts.len() == i,
            forall|j: int| 0 <= j < i ==> #[trigger] parts[j]@ == target::expression(items[j]@),
        decreases items.len() - i,
    {
        proof {
            vstd::std_specs::vec::axiom_vec_index_decreases(*items, i as int);
        }
        let part = expression_text(&items[i]);
        parts.push(part);
        i += 1;
    }
    proof {
        assert(crate::text::string_views(parts@) =~= target::expression_texts(
            Expr::models(items@),
        ));
    }
    join(&parts, separator)
}

/// An expression in the target language.
pub fn expression_text(e: &Expr) -> (out: String)
    ensures
        out@ == target::expression(e@),
    decreases e,
{
    match e {
        Expr::IntegerLiteral(literal) => signed_decimal_string(literal.value),
        Expr::StringLiteral(literal) => {
            let mut out = String::from_str("\"");
            out.append(literal.value.as_str());
            out.append("\"");
            out
        },
        Expr::BooleanLiteral(literal) => bool_string(literal.value),
        Expr::Variable(variable) => variable.name.clone(),
        Expr::Binary(binary) => {
            let mut out = expression_text(&binary.left);
            out.append(" ");
            out.append(binary.operator.as_str());
            out.append(" ");
            out.append(expression_text(&binary.right).as_str());
            out
        },
        Expr::Unary(unary) => {
            let mut out = unary.operator.to_string();
            out.append(expression_text(&unary.expr).as_str());
            out
        },
        Expr::FunCall(call) => {
            let mut out = call.callee.clone();
            out.append("(");
            out.append(expression_list(&call.args, ",").as_str());
            out.append(")");
            out
        },
        Expr::MethCall(call) => {
            let mut out = expression_text(&call.object);
            out.append(".");
            out.append(call.meth.as_str());
            out.append("(");
            out.append(expression_list(&call.args, ",").as_str());
            out.append(")");
            out
        },
        Expr::Field(field) => {
            let mut out = expression_text(&field.object);
            out.append(".");
            out.append(field.field.as_str());
            out
        },
        Expr::New(new) => {
            let mut out = String::from_str("new ");
            out.append(new.class_name.as_str());
            out.append("(");
            out.append(expression_list(&new.args, ",").as_str());
            out.append(")");
            out
        },
        Expr::This(_) => String::from_str("this"),
        Expr::Println(print) => {
            let mut out = String::from_str("console.log(");
            out.append(expression_text(&print.arg).as_str());
            out.append(")");
            out
        },
        Expr::Print(print) => {
            let mut out = String::from_str("console.log(");
            out.append(expression_text(&print.arg).as_str());
            out.append(")");
            out
        },
        Expr::Grouped(inner, _) => {
            let mut out = String::from_str("(");
            out.append(expression_text(inner).as_str());
            out.append(")");
            out
        },
        Expr::Empty => String::new(),
    }
}

impl ExpressionGenerator for CodeGenerator {
    /// Expressions in the target language, with `seperator` between neighbours.
    fn generate_expressions(&self, expressions: Vec<Expr>, seperator: &str) -> (out: String)
        ensures
            out@ == target::expressions(Expr::models(expressions@), seperator@),
    {
        expression_list(&expressions, seperator)
    }

    /// An expression in the target language.
    fn convert_expression(&self, expression: Expr) -> (out: String)
        ensures
            out@ == target::expression(expression@),
    {
        expression_text(&expression)
    }
}

} // verus!
