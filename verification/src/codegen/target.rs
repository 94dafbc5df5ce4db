use vstd::prelude::*;
use crate::ast::{
    ClassDefView, ConstructorView, EntryView, ExprView, FunDefView, MethDefView, ParamDeclView,
    StmtView, VarDeclView,
};
use crate::text::{bool_text, concatenated, joined, signed_decimal, trimmed};

verus! {

/// The target text of each of `items`, in order.
pub open spec fn expression_texts(items: Seq<ExprView>) -> Seq<Seq<char>>
    decreases items,
{
    Seq::new(
        items.len(),
        |i: int|
            if 0 <= i < items.len() {
                expression(items[i])
            } else {
                Seq::empty()
            },
    )
}

/// `items` in the target language, with `separator` between neighbours.
pub open spec fn expressions(items: Seq<ExprView>, separator: Seq<char>) -> Seq<char> {
    joined(expression_texts(items), separator)
}

/// An expression in the target language. Operands of a binary operator stand one blank
/// away from it; arguments are separated by a comma alone; both ways of printing become
/// `console.log`; a grouped expression keeps its parentheses, so that the text means what
/// the tree means; the empty expression is the empty text.
pub open spec fn expression(e: ExprView) -> Seq<char>
    decreases e,
{
    match e {
        ExprView::IntegerLiteral { value, .. } => signed_decimal(value as int),
        ExprView::StringLiteral { value, .. } => "\""@ + value + "\""@,
        ExprView::BooleanLiteral { value, .. } => bool_text(value),
        ExprView::Variable { name, .. } => name,
        ExprView::Binary { left, operator, right, .. } => expression(*left) + " "@ + operator.symbol() + " "@
            + expression(*right),
        ExprView::Unary { operator, expr, .. } => operator.symbol() + expression(*expr),
        ExprView::FunCall { callee, args, .. } => callee + "("@ + joined(
            expression_texts(args),
            ","@,
        ) + ")"@,
        ExprView::MethCall { object, meth, args, .. } => expression(*object) + "."@ + meth + "("@
            + joined(expression_texts(args), ","@) + ")"@,
        ExprView::Field { object, field, .. } => expression(*object) + "."@ + field,
        ExprView::New { class_name, args, .. } => "new "@ + class_name + "("@ + joined(
            expression_texts(args),
            ","@,
        ) + ")"@,
        ExprView::This { .. } => "this"@,
        ExprView::Println { arg, .. } => "console.log("@ + expression(*arg) + ")"@,
        ExprView::Print { arg, .. } => "console.log("@ + expression(*arg) + ")"@,
        ExprView::Grouped { inner, .. } => "("@ + expression(*inner) + ")"@,
        ExprView::Empty => Seq::empty(),
    }
}

/// The target text of each of `items`, in order.
pub open spec fn statement_texts(items: Seq<StmtView>) -> Seq<Seq<char>>
    decreases items,
{
    Seq::new(
        items.len(),
        |i: int|
            if 0 <= i < items.len() {
                statement(items[i])
            } else {
                Seq::empty()
            },
    )
}

/// A statement in the target language. Declarations lose their types; the statements of a
/// block are joined as those of a program are, between braces and blanks.
pub open spec fn statement(s: StmtView) -> Seq<char>
    decreases s,
{
    match s {
        StmtView::Expr { expr, .. } => expression(*expr),
        StmtView::VarDecl { name, .. } => "let "@ + name,
        StmtView::Assign { name, expr, .. } => name + " = "@ + expression(*expr),
        StmtView::VarDeclWithAssign { name, expr, .. } => "let "@ + name + " = "@ + expression(
            *expr,
        ),
        StmtView::While { condition, body, .. } => "while ("@ + expression(*condition) + ") "@
            + statement(*body),
        StmtView::If { condition, then_branch, else_branch, .. } => "if ("@ + expression(
            *condition,
        ) + ") {"@ + statement(*then_branch) + "} "@ + (match else_branch {
            Some(other) => "else {"@ + statement(*other) + "}"@,
            None => Seq::empty(),
        }),
        StmtView::Break { .. } => "break"@,
        StmtView::Return { value, .. } => match value {
            Some(result) => "return "@ + expression(*result),
            None => "return"@,
        },
        StmtView::Block { statements, .. } => "{ "@ + trimmed(
            joined(statement_texts(statements), "; \n"@),
        ) + " }"@,
        StmtView::Empty => Seq::empty(),
    }
}

/// Statements in the target language: each followed by `; ` and a line break but the last,
/// and the whole without white space at its start and end.
pub open spec fn statements(items: Seq<StmtView>) -> Seq<char> {
    trimmed(joined(statement_texts(items), "; \n"@))
}

/// The body of a function, method or constructor; a missing body is the empty text.
pub open spec fn body(statements: Option<StmtView>) -> Seq<char> {
    match statements {
        Some(s) => statement(s),
        None => Seq::empty(),
    }
}

/// The names of parameters, in order.
pub open spec fn param_names(params: Seq<ParamDeclView>) -> Seq<Seq<char>> {
    Seq::new(params.len(), |i: int| params[i].name)
}

/// A parameter list in the target language: the names alone, separated by commas.
pub open spec fn params(params: Seq<ParamDeclView>) -> Seq<char> {
    joined(param_names(params), ","@)
}

/// The names of fields, in order.
pub open spec fn field_names(vars: Seq<VarDeclView>) -> Seq<Seq<char>> {
    Seq::new(vars.len(), |i: int| vars[i].name)
}

/// The fields of a class in the target language: the names alone, each followed by `;` and
/// a line break but the last.
pub open spec fn fields(vars: Seq<VarDeclView>) -> Seq<char> {
    joined(field_names(vars), ";\n"@)
}

/// A function in the target language, with a line break behind it.
pub open spec fn function(f: FunDefView) -> Seq<char> {
    "function "@ + f.name + "("@ + params(f.params) + ")"@ + body(f.statements) + "\n"@
}

/// The target text of each of `items`, in order.
pub open spec fn function_texts(items: Seq<FunDefView>) -> Seq<Seq<char>> {
    Seq::new(items.len(), |i: int| function(items[i]))
}

/// Functions in the target language, joined as statements are.
pub open spec fn functions(items: Seq<FunDefView>) -> Seq<char> {
    trimmed(joined(function_texts(items), "; \n"@))
}

/// A method in the target language, with a line break behind it.
pub open spec fn method(m: MethDefView) -> Seq<char> {
    m.name + "("@ + params(m.params) + ")"@ + body(m.statements) + "\n"@
}

/// The target text of each of `items`, in order.
pub open spec fn method_texts(items: Seq<MethDefView>) -> Seq<Seq<char>> {
    Seq::new(items.len(), |i: int| method(items[i]))
}

/// Methods in the target language: one after another, the whole without white space at
/// its start and end.
pub open spec fn methods(items: Seq<MethDefView>) -> Seq<char> {
    trimmed(concatenated(method_texts(items)))
}

/// The call of the parent's constructor in the target language, if there is one.
pub open spec fn super_call(args: Option<Seq<ExprView>>) -> Seq<char> {
    match args {
        Some(args) => "super("@ + joined(expression_texts(args), ","@) + ")"@,
        None => Seq::empty(),
    }
}

/// The body of a constructor behind the call of the parent's constructor: the statement
/// between braces and blanks; a missing body is the empty text.
pub open spec fn constructor_body(statements: Option<StmtView>) -> Seq<char> {
    match statements {
        Some(s) => "{ "@ + statement(s) + " }"@,
        None => Seq::empty(),
    }
}

/// A constructor in the target language, with a line break behind it.
pub open spec fn constructor(c: ConstructorView) -> Seq<char> {
    "constructor("@ + params(c.params) + ") {"@ + super_call(c.super_call) + constructor_body(
        c.statements,
    ) + "}\n"@
}

/// The `extends` clause of a class in the target language, if the class has a parent.
pub open spec fn extends(parent: Option<Seq<char>>) -> Seq<char> {
    match parent {
        Some(name) => " extends "@ + name,
        None => Seq::empty(),
    }
}

/// A class in the target language.
pub open spec fn class(c: ClassDefView) -> Seq<char> {
    "class "@ + c.name + extends(c.extends) + "{\n"@ + fields(c.vars) + constructor(c.constructor)
        + methods(c.methods) + "\n}"@
}

/// The target text of each of `items`, in order.
pub open spec fn class_texts(items: Seq<ClassDefView>) -> Seq<Seq<char>> {
    Seq::new(items.len(), |i: int| class(items[i]))
}

/// Classes in the target language, one per line.
pub open spec fn classes(items: Seq<ClassDefView>) -> Seq<char> {
    joined(class_texts(items), "\n"@)
}

/// A whole program in the target language: its classes, a line break, its functions, a line
/// break, its statements.
pub open spec fn program(entry: EntryView) -> Seq<char> {
    classes(entry.class_defs) + "\n"@ + functions(entry.fun_defs) + "\n"@ + statements(
        entry.statements,
    )
}

} // verus!
