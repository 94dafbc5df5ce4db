use vstd::prelude::*;
use vstd::string::*;
use crate::ast::pretty;
use crate::ast::pretty::{flattened, indentation};
use crate::ast::{
    class_views, fun_views, method_views, param_views, var_views, ClassDef, Constructor, Entry,
    Expr, FunDef, IfStmt, MethDef, ParamDecl, ReturnStmt, Stmt, VarDeclStmt, WhileStmt,
};
use crate::lexer::TypeName;
use crate::style::{
    embedded, line_view, paint_line, piece, plain, Segment, SegmentView, Style,
};
use crate::text::{bool_string, signed_decimal_string};
use crate::views::viewed;

verus! {

/// Printing a syntax tree in the source language, piece by piece and in colours.
pub trait PrettyPrint {
    /// The tree printed at depth `indent`, as pieces of text in their styles.
    fn pretty_print(&self, indent: usize) -> Vec<Segment>;

    /// The tree printed at depth zero, as it is sent to a terminal: the text of its pieces,
    /// with nothing taken away, and with the escape sequences of their styles where the
    /// environment has colours switched on.
    fn to_pretty_string(&self) -> String;
}

/// Appends the piece `text` in `style` to `out`.
fn put(out: &mut Vec<Segment>, text: &str, style: Style)
    ensures
        line_view(final(out)@) == line_view(old(out)@).push(piece(text@, style)),
{
    out.push(Segment { text: String::from_str(text), style });
    assert(line_view(out@) =~= line_view(old(out)@).push(piece(text@, style)));
}

/// Appends the piece `text` in `style` to `out`.
fn put_text(out: &mut Vec<Segment>, text: String, style: Style)
    ensures
        line_view(final(out)@) == line_view(old(out)@).push(piece(text@, style)),
{
    out.push(Segment { text, style });
    assert(line_view(out@) =~= line_view(old(out)@).push(piece(text@, style)));
}

/// The blanks in front of a line at depth `indent`.
pub fn indentation_text(indent: usize) -> (ind: String)
    ensures
        ind@ == indentation(indent as nat),
{
    let mut ind = String::new();
    let mut i: usize = 0;
    assert(ind@ =~= indentation(0));
    while i < indent
        invariant
            0 <= i <= indent,
            ind@ == indentation(i as nat),
        decreases indent - i,
    {
        ind.append("  ");
        i += 1;
    }
    ind
}

/// The blanks in front of a line one level deeper than `ind`.
fn deeper(ind: &String, Ghost(level): Ghost<nat>) -> (next: String)
    requires
        ind@ == indentation(level),
    ensures
        next@ == indentation(level + 1),
{
    let mut next = ind.clone();
    next.append("  ");
    next
}

/// The first `count + 1` parts put one after another are the first `count` parts, the
/// separator if there are any, and the next part.
proof fn lemma_flattened_step(
    parts: Seq<Seq<SegmentView>>,
    separator: Seq<SegmentView>,
    count: int,
)
    requires
        0 <= count < parts.len(),
    ensures
        flattened(parts.take(count + 1), separator) == (if count == 0 {
            parts[0]
        } else {
            flattened(parts.take(count), separator) + separator + parts[count]
        }),
{
    assert(parts.take(count + 1).drop_last() =~= parts.take(count));
    assert(parts.take(count + 1).last() == parts[count]);
    if count == 0 {
        assert(parts.take(1)[0] == parts[0]);
    }
}

/// Appends the expressions `items`, separated by commas and blanks, to `out`.
fn put_expr_list(out: &mut Vec<Segment>, items: &Vec<Expr>)
    ensures
        line_view(final(out)@) == line_view(old(out)@) + flattened(
            pretty::expr_parts(Expr::models(items@)),
            pretty::comma(),
        ),
    decreases items, 0nat,
{
    let ghost start = line_view(out@);
    let ghost parts = pretty::expr_parts(Expr::models(items@));
    let mut i: usize = 0;
    assert(line_view(out@) =~= start + flattened(parts.take(0), pretty::comma()));
    while i < items.len()
        invariant
            0 <= i <= items.len(),
            parts == pretty::expr_parts(Expr::models(items@)),
            parts.len() == items.len(),
            line_view(out@) == start + flattened(parts.take(i as int), pretty::comma()),
        decreases items.len() - i,
    {
        proof {
            vstd::std_specs::vec::axiom_vec_index_decreases(*items, i as int);
            lemma_flattened_step(parts, pretty::comma(), i as int);
        }
        let ghost before = line_view(out@);
        if i > 0 {
            put(out, ", ", Style::Plain);
        }
        let ghost middle = line_view(out@);
        put_expr(out, &items[i]);
        proof {
            assert(parts[i as int] == pretty::expr(items[i as int]@));
            if i > 0 {
                assert(middle =~= before + pretty::comma());
                assert(line_view(out@) =~= start + (flattened(
                    parts.take(i as int),
                    pretty::comma(),
                ) + pretty::comma() + parts[i as int]));
            } else {
                assert(line_view(out@) =~= start + parts[0]);
            }
        }
        i += 1;
    }
    proof {
        assert(parts.take(items.len() as int) =~= parts);
    }
}

/// Appends the arguments `items` in their parentheses to `out`.
fn put_arguments(out: &mut Vec<Segment>, items: &Vec<Expr>)
    ensures
        line_view(final(out)@) == line_view(old(out)@) + pretty::arguments(Expr::models(items@)),
    decreases items, 1nat,
{
    let ghost start = line_view(out@);
    put(out, "(", Style::Plain);
    put_expr_list(out, items);
    put(out, ")", Style::Plain);
    assert(line_view(out@) =~= start + pretty::arguments(Expr::models(items@)));
}

/// Appends the expression `e`, printed, to `out`.
#[verifier::rlimit(40)]
pub fn put_expr(out: &mut Vec<Segment>, e: &Expr)
    ensures
        line_view(final(out)@) == line_view(old(out)@) + pretty::expr(e@),
    decreases e,
{
    let ghost start = line_view(out@);
    match e {
        Expr::IntegerLiteral(literal) => {
            put_text(out, signed_decimal_string(literal.value), Style::Cyan);
        },
        Expr::StringLiteral(literal) => {
            put(out, "\"", Style::Plain);
            put_text(out, literal.value.clone(), Style::Green);
            put(out, "\"", Style::Plain);
        },
        Expr::BooleanLiteral(literal) => {
            put_text(out, bool_string(literal.value), Style::Yellow);
        },
        Expr::Variable(variable) => {
            put_text(out, variable.name.clone(), Style::CyanItalic);
        },
        Expr::Binary(binary) => {
            put(out, "(", Style::Plain);
            put_expr(out, &binary.left);
            put(out, " ", Style::Plain);
            put(out, binary.operator.as_str(), Style::Magenta);
            put(out, " ", Style::Plain);
            put_expr(out, &binary.right);
            put(out, ")", Style::Plain);
        },
        Expr::Unary(unary) => {
            put(out, unary.operator.as_str(), Style::Magenta);
            put_expr(out, &unary.expr);
        },
        Expr::FunCall(call) => {
            put_text(out, call.callee.clone(), Style::BlueBold);
            put_arguments(out, &call.args);
        },
        Expr::MethCall(call) => {
            put_expr(out, &call.object);
            put(out, ".", Style::Plain);
            put_text(out, call.meth.clone(), Style::BlueBold);
            put_arguments(out, &call.args);
        },
        Expr::Field(field) => {
            put_expr(out, &field.object);
            put(out, ".", Style::Plain);
            put_text(out, field.field.clone(), Style::Cyan);
        },
        Expr::New(new) => {
            put(out, "new", Style::Magenta);
            put(out, " ", Style::Plain);
            put_text(out, new.class_name.clone(), Style::BlueBold);
            put_arguments(out, &new.args);
        },
        Expr::This(_) => {
            put(out, "this", Style::YellowBold);
        },
        Expr::Println(print) => {
            put(out, "println", Style::BlueBold);
            put(out, "(", Style::Plain);
            put_expr(out, &print.arg);
            put(out, ")", Style::Plain);
        },
        Expr::Print(print) => {
            put(out, "print", Style::BlueBold);
            put(out, "(", Style::Plain);
            put_expr(out, &print.arg);
            put(out, ")", Style::Plain);
        },
        Expr::Grouped(inner, _) => {
            put(out, "(", Style::Plain);
            put_expr(out, inner);
            put(out, ")", Style::Plain);
        },
        Expr::Empty => {
            put(out, "<empty>", Style::Plain);
        },
    }
    assert(line_view(out@) =~= start + pretty::expr(e@));
}

/// Appends `let name: Type` at the depth of `ind` to `out`.
fn put_declaration(
    out: &mut Vec<Segment>,
    name: &String,
    var_type: &TypeName,
    ind: &String,
    Ghost(level): Ghost<nat>,
)
    requires
        ind@ == indentation(level),
    ensures
        line_view(final(out)@) == line_view(old(out)@) + pretty::declaration(
            name@,
            var_type@,
            level,
        ),
{
    let ghost start = line_view(out@);
    put_text(out, ind.clone(), Style::Plain);
    put(out, "let", Style::Magenta);
    put(out, " ", Style::Plain);
    put_text(out, name.clone(), Style::Cyan);
    put(out, ": ", Style::Plain);
    put_text(out, var_type.to_string(), Style::BlueBold);
    assert(line_view(out@) =~= start + pretty::declaration(name@, var_type@, level));
}

/// Appends the line that closes a construct at the depth of `ind` to `out`.
fn put_closing(out: &mut Vec<Segment>, ind: &String, Ghost(level): Ghost<nat>)
    requires
        ind@ == indentation(level),
    ensures
        line_view(final(out)@) == line_view(old(out)@) + pretty::closing(level),
{
    let ghost start = line_view(out@);
    put_text(out, ind.clone(), Style::Plain);
    put(out, "}\n", Style::Plain);
    assert(line_view(out@) =~= start + pretty::closing(level));
}

/// Appends the statements `items`, printed at the depth of `ind`, to `out`.
fn put_stmts(out: &mut Vec<Segment>, items: &Vec<Stmt>, ind: &String, Ghost(level): Ghost<nat>)
    requires
        ind@ == indentation(level),
    ensures
        line_view(final(out)@) == line_view(old(out)@) + flattened(
            pretty::stmt_parts(Stmt::models(items@), level),
            Seq::empty(),
        ),
    decreases items, 0nat,
{
    let ghost start = line_view(out@);
    let ghost parts = pretty::stmt_parts(Stmt::models(items@), level);
    let ghost none = Seq::<SegmentView>::empty();
    let mut i: usize = 0;
    assert(line_view(out@) =~= start + flattened(parts.take(0), none));
    while i < items.len()
        invariant
            0 <= i <= items.len(),
            ind@ == indentation(level),
            none == Seq::<SegmentView>::empty(),
            parts == pretty::stmt_parts(Stmt::models(items@), level),
            parts.len() == items.len(),
            line_view(out@) == start + flattened(parts.take(i as int), none),
        decreases items.len() - i,
    {
        proof {
            vstd::std_specs::vec::axiom_vec_index_decreases(*items, i as int);
            lemma_flattened_step(parts, none, i as int);
        }
        put_stmt(out, &items[i], ind, Ghost(level));
        proof {
            assert(parts[i as int] == pretty::stmt(items[i as int]@, level));
            if i > 0 {
                assert(line_view(out@) =~= start + (flattened(parts.take(i as int), none) + none
                    + parts[i as int]));
            } else {
                assert(line_view(out@) =~= start + parts[0]);
            }
        }
        i += 1;
    }
    proof {
        assert(parts.take(items.len() as int) =~= parts);
    }
}

/// Appends the loop `repeat`, printed at the depth of `ind`, to `out`.
fn put_while(out: &mut Vec<Segment>, repeat: &WhileStmt, ind: &String, Ghost(level): Ghost<nat>)
    requires
        ind@ == indentation(level),
    ensures
        line_view(final(out)@) == line_view(old(out)@) + pretty::stmt(
            Stmt::While(*repeat)@,
            level,
        ),
    decreases repeat, 0nat,
{
    let ghost start = line_view(out@);
    put_text(out, ind.clone(), Style::Plain);
    put(out, "while", Style::MagentaBold);
    put(out, " (", Style::Plain);
    put_expr(out, &repeat.condition);
    put(out, ") {\n", Style::Plain);
    let inner = deeper(ind, Ghost(level));
    put_stmt(out, &repeat.body, &inner, Ghost(level + 1));
    put_closing(out, ind, Ghost(level));
    assert(line_view(out@) =~= start + pretty::stmt(Stmt::While(*repeat)@, level));
}

/// Appends the branch `branch` of a conditional, printed one level deeper than `ind`, and
/// the line that closes it to `out`.
fn put_branch(out: &mut Vec<Segment>, branch: &Stmt, ind: &String, Ghost(level): Ghost<nat>)
    requires
        ind@ == indentation(level),
    ensures
        line_view(final(out)@) == line_view(old(out)@) + pretty::stmt(branch@, level + 1)
            + pretty::closing(level),
    decreases branch, 1nat,
{
    let inner = deeper(ind, Ghost(level));
    put_stmt(out, branch, &inner, Ghost(level + 1));
    put_closing(out, ind, Ghost(level));
}

/// Appends the conditional `choice`, printed at the depth of `ind`, to `out`.
fn put_if(out: &mut Vec<Segment>, choice: &IfStmt, ind: &String, Ghost(level): Ghost<nat>)
    requires
        ind@ == indentation(level),
    ensures
        line_view(final(out)@) == line_view(old(out)@) + pretty::stmt(Stmt::If(*choice)@, level),
    decreases choice, 0nat,
{
    let ghost start = line_view(out@);
    put_text(out, ind.clone(), Style::Plain);
    put(out, "if", Style::MagentaBold);
    put(out, " (", Style::Plain);
    put_expr(out, &choice.condition);
    put(out, ") {\n", Style::Plain);
    put_branch(out, &choice.then_branch, ind, Ghost(level));
    let ghost head = line_view(out@);
    match &choice.else_branch {
        Some(other) => {
            put_text(out, ind.clone(), Style::Plain);
            put(out, "else", Style::MagentaBold);
            put(out, " {\n", Style::Plain);
            put_branch(out, other, ind, Ghost(level));
            assert(line_view(out@) =~= head + (seq![
                pretty::margin(level),
                piece("else"@, Style::MagentaBold),
                piece(" {\n"@, Style::Plain),
            ] + pretty::stmt(other@, level + 1) + pretty::closing(level)));
        },
        None => {
            assert(line_view(out@) =~= head + Seq::<SegmentView>::empty());
        },
    }
    assert(line_view(out@) =~= start + pretty::stmt(Stmt::If(*choice)@, level));
}

/// Appends the `return` statement `result`, printed at the depth of `ind`, to `out`.
fn put_return(out: &mut Vec<Segment>, result: &ReturnStmt, ind: &String, Ghost(level): Ghost<nat>)
    requires
        ind@ == indentation(level),
    ensures
        line_view(final(out)@) == line_view(old(out)@) + pretty::stmt(
            Stmt::Return(*result)@,
            level,
        ),
{
    let ghost start = line_view(out@);
    put_text(out, ind.clone(), Style::Plain);
    put(out, "return", Style::RedBold);
    let ghost head = line_view(out@);
    match &result.value {
        Some(value) => {
            put(out, " ", Style::Plain);
            put_expr(out, value);
            assert(line_view(out@) =~= head + (seq![piece(" "@, Style::Plain)] + pretty::expr(
                value@,
            )));
        },
        None => {
            assert(line_view(out@) =~= head + Seq::<SegmentView>::empty());
        },
    }
    put(out, ";\n", Style::Plain);
    assert(line_view(out@) =~= start + pretty::stmt(Stmt::Return(*result)@, level));
}

/// Appends the statement `s`, printed at the depth of `ind`, to `out`.
#[verifier::rlimit(40)]
fn put_stmt(out: &mut Vec<Segment>, s: &Stmt, ind: &String, Ghost(level): Ghost<nat>)
    requires
        ind@ == indentation(level),
    ensures
        line_view(final(out)@) == line_view(old(out)@) + pretty::stmt(s@, level),
    decreases s, 0nat,
{
    let ghost start = line_view(out@);
    match s {
        Stmt::Expr(statement) => {
            put_text(out, ind.clone(), Style::Plain);
            put_expr(out, &statement.expr);
            put(out, ";\n", Style::Plain);
        },
        Stmt::VarDecl(declaration) => {
            put_declaration(out, &declaration.name, &declaration.var_type, ind, Ghost(level));
            put(out, ";\n", Style::Plain);
        },
        Stmt::Assign(assignment) => {
            put_text(out, ind.clone(), Style::Plain);
            put_text(out, assignment.name.clone(), Style::Cyan);
            put(out, " = ", Style::Plain);
            put_expr(out, &assignment.expr);
            put(out, ";\n", Style::Plain);
        },
        Stmt::VarDeclWithAssign(declaration) => {
            put_declaration(out, &declaration.name, &declaration.var_type, ind, Ghost(level));
            put(out, " = ", Style::Plain);
            put_expr(out, &declaration.expr);
            put(out, ";\n", Style::Plain);
        },
        Stmt::While(repeat) => {
            put_while(out, repeat, ind, Ghost(level));
        },
        Stmt::If(choice) => {
            put_if(out, choice, ind, Ghost(level));
        },
        Stmt::Break(_) => {
            put_text(out, ind.clone(), Style::Plain);
            put(out, "break", Style::RedBold);
            put(out, ";\n", Style::Plain);
        },
        Stmt::Return(result) => {
            put_return(out, result, ind, Ghost(level));
        },
        Stmt::Block(block) => {
            put_stmts(out, &block.statements, ind, Ghost(level));
        },
        Stmt::Empty => {
            put_text(out, ind.clone(), Style::Plain);
            put(out, "<empty statement>\n", Style::Plain);
        },
    }
    assert(line_view(out@) =~= start + pretty::stmt(s@, level));
}

/// Appends the body `statements`, printed at the depth of `ind`, to `out`.
fn put_body(
    out: &mut Vec<Segment>,
    statements: &Option<Stmt>,
    ind: &String,
    Ghost(level): Ghost<nat>,
)
    requires
        ind@ == indentation(level),
    ensures
        line_view(final(out)@) == line_view(old(out)@) + pretty::body(viewed(*statements), level),
{
    let ghost start = line_view(out@);
    match statements {
        Some(s) => {
            put_stmt(out, s, ind, Ghost(level));
        },
        None => {
            assert(line_view(out@) =~= start + Seq::empty());
        },
    }
}

/// Appends the parameters `items`, separated by commas and blanks, to `out`.
fn put_params(out: &mut Vec<Segment>, items: &Vec<ParamDecl>)
    ensures
        line_view(final(out)@) == line_view(old(out)@) + flattened(
            pretty::param_parts(param_views(items@)),
            pretty::comma(),
        ),
{
    let ghost start = line_view(out@);
    let ghost parts = pretty::param_parts(param_views(items@));
    let mut i: usize = 0;
    assert(line_view(out@) =~= start + flattened(parts.take(0), pretty::comma()));
    while i < items.len()
        invariant
            0 <= i <= items.len(),
            parts == pretty::param_parts(param_views(items@)),
            parts.len() == items.len(),
            line_view(out@) == start + flattened(parts.take(i as int), pretty::comma()),
        decreases items.len() - i,
    {
        proof {
            lemma_flattened_step(parts, pretty::comma(), i as int);
        }
        if i > 0 {
            put(out, ", ", Style::Plain);
        }
        put_text(out, items[i].name.clone(), Style::Cyan);
        put(out, ": ", Style::Plain);
        put_text(out, items[i].param_type.to_string(), Style::BlueBold);
        proof {
            assert(parts[i as int] == pretty::param(items[i as int]@));
            if i > 0 {
                assert(line_view(out@) =~= start + (flattened(
                    parts.take(i as int),
                    pretty::comma(),
                ) + pretty::comma() + parts[i as int]));
            } else {
                assert(line_view(out@) =~= start + parts[0]);
            }
        }
        i += 1;
    }
    proof {
        assert(parts.take(items.len() as int) =~= parts);
    }
}

/// Appends what a function and a method share, at the depth of `ind`, to `out`.
fn put_callable(
    out: &mut Vec<Segment>,
    keyword: &str,
    name: &String,
    params: &Vec<ParamDecl>,
    return_type: &TypeName,
    statements: &Option<Stmt>,
    ind: &String,
    Ghost(level): Ghost<nat>,
)
    requires
        ind@ == indentation(level),
    ensures
        line_view(final(out)@) == line_view(old(out)@) + pretty::callable(
            keyword@,
            name@,
            param_views(params@),
            return_type@,
            viewed(*statements),
            level,
        ),
{
    let ghost start = line_view(out@);
    put_text(out, ind.clone(), Style::Plain);
    put(out, keyword, Style::MagentaBold);
    put(out, " ", Style::Plain);
    put_text(out, name.clone(), Style::GreenBold);
    put(out, "(", Style::Plain);
    put_params(out, params);
    put(out, ") -> ", Style::Plain);
    put_text(out, return_type.to_string(), Style::BlueBold);
    put(out, " {\n", Style::Plain);
    let inner = deeper(ind, Ghost(level));
    put_body(out, statements, &inner, Ghost(level + 1));
    put_closing(out, ind, Ghost(level));
    assert(line_view(out@) =~= start + pretty::callable(
        keyword@,
        name@,
        param_views(params@),
        return_type@,
        viewed(*statements),
        level,
    ));
}

/// Appends the constructor `c`, printed at the depth of `ind`, to `out`.
#[verifier::rlimit(40)]
fn put_constructor(out: &mut Vec<Segment>, c: &Constructor, ind: &String, Ghost(level): Ghost<nat>)
    requires
        ind@ == indentation(level),
    ensures
        line_view(final(out)@) == line_view(old(out)@) + pretty::constructor(c@, level),
{
    let ghost start = line_view(out@);
    put_text(out, ind.clone(), Style::Plain);
    put(out, "init", Style::MagentaBold);
    put(out, " (", Style::Plain);
    put_params(out, &c.params);
    put(out, ") {\n", Style::Plain);
    let ghost head = line_view(out@);
    match &c.super_call {
        Some(args) => {
            put_text(out, ind.clone(), Style::Plain);
            put(out, "  ", Style::Plain);
            put(out, "super", Style::YellowBold);
            put(out, "(", Style::Plain);
            put_expr_list(out, args);
            put(out, ");\n", Style::Plain);
            assert(line_view(out@) =~= head + pretty::super_call(c@.super_call, level));
        },
        None => {
            assert(line_view(out@) =~= head + pretty::super_call(c@.super_call, level));
        },
    }
    let inner = deeper(ind, Ghost(level));
    put_body(out, &c.statements, &inner, Ghost(level + 1));
    put_closing(out, ind, Ghost(level));
    assert(line_view(out@) =~= start + pretty::constructor(c@, level));
}

/// Appends the fields `items`, printed at the depth of `ind`, to `out`.
fn put_vars(out: &mut Vec<Segment>, items: &Vec<VarDeclStmt>, ind: &String, Ghost(level): Ghost<nat>)
    requires
        ind@ == indentation(level),
    ensures
        line_view(final(out)@) == line_view(old(out)@) + flattened(
            pretty::var_parts(var_views(items@), level),
            Seq::empty(),
        ),
{
    let ghost start = line_view(out@);
    let ghost parts = pretty::var_parts(var_views(items@), level);
    let ghost none = Seq::<SegmentView>::empty();
    let mut i: usize = 0;
    assert(line_view(out@) =~= start + flattened(parts.take(0), none));
    while i < items.len()
        invariant
            0 <= i <= items.len(),
            ind@ == indentation(level),
            none == Seq::<SegmentView>::empty(),
            parts == pretty::var_parts(var_views(items@), level),
            parts.len() == items.len(),
            line_view(out@) == start + flattened(parts.take(i as int), none),
        decreases items.len() - i,
    {
        proof {
            lemma_flattened_step(parts, none, i as int);
        }
        put_declaration(out, &items[i].name, &items[i].var_type, ind, Ghost(level));
        put(out, ";\n", Style::Plain);
        proof {
            assert(parts[i as int] == pretty::var_decl(items[i as int]@, level));
            if i > 0 {
                assert(line_view(out@) =~= start + (flattened(parts.take(i as int), none) + none
                    + parts[i as int]));
            } else {
                assert(line_view(out@) =~= start + parts[0]);
            }
        }
        i += 1;
    }
    proof {
        assert(parts.take(items.len() as int) =~= parts);
    }
}

/// Appends the methods `items`, each behind an empty line and printed at the depth of
/// `ind`, to `out`.
fn put_methods(out: &mut Vec<Segment>, items: &Vec<MethDef>, ind: &String, Ghost(level): Ghost<nat>)
    requires
        ind@ == indentation(level),
    ensures
        line_view(final(out)@) == line_view(old(out)@) + flattened(
            pretty::method_parts(method_views(items@), level),
            Seq::empty(),
        ),
{
    let ghost start = line_view(out@);
    let ghost parts = pretty::method_parts(method_views(items@), level);
    let ghost none = Seq::<SegmentView>::empty();
    let mut i: usize = 0;
    assert(line_view(out@) =~= start + flattened(parts.take(0), none));
    while i < items.len()
        invariant
            0 <= i <= items.len(),
            ind@ == indentation(level),
            none == Seq::<SegmentView>::empty(),
            parts == pretty::method_parts(method_views(items@), level),
            parts.len() == items.len(),
            line_view(out@) == start + flattened(parts.take(i as int), none),
        decreases items.len() - i,
    {
        proof {
            lemma_flattened_step(parts, none, i as int);
        }
        put(out, "\n", Style::Plain);
        let method = &items[i];
        put_callable(
            out,
            "meth",
            &method.name,
            &method.params,
            &method.return_type,
            &method.statements,
            ind,
            Ghost(level),
        );
        proof {
            assert(parts[i as int] == seq![piece("\n"@, Style::Plain)] + pretty::method(
                items[i as int]@,
                level,
            ));
            if i > 0 {
                assert(line_view(out@) =~= start + (flattened(parts.take(i as int), none) + none
                    + parts[i as int]));
            } else {
                assert(line_view(out@) =~= start + parts[0]);
            }
        }
        i += 1;
    }
    proof {
        assert(parts.take(items.len() as int) =~= parts);
    }
}

/// Appends the class `c`, printed at the depth of `ind`, to `out`.
#[verifier::rlimit(40)]
fn put_class(out: &mut Vec<Segment>, c: &ClassDef, ind: &String, Ghost(level): Ghost<nat>)
    requires
        ind@ == indentation(level),
    ensures
        line_view(final(out)@) == line_view(old(out)@) + pretty::class(c@, level),
{
    let ghost start = line_view(out@);
    put_text(out, ind.clone(), Style::Plain);
    put(out, "class", Style::MagentaBold);
    put(out, " ", Style::Plain);
    put_text(out, c.name.clone(), Style::GreenBold);
    let ghost head = line_view(out@);
    match &c.extends {
        Some(parent) => {
            put(out, " ", Style::Plain);
            put(out, "extends", Style::Magenta);
            put(out, " ", Style::Plain);
            put_text(out, parent.clone(), Style::GreenBold);
            assert(line_view(out@) =~= head + pretty::extends(c@.extends));
        },
        None => {
            assert(line_view(out@) =~= head + pretty::extends(c@.extends));
        },
    }
    put(out, " {\n", Style::Plain);
    let inner = deeper(ind, Ghost(level));
    put_vars(out, &c.vars, &inner, Ghost(level + 1));
    let ghost fields = line_view(out@);
    if c.vars.len() > 0 {
        put(out, "\n", Style::Plain);
    }
    assert(line_view(out@) =~= fields + (if c@.vars.len() > 0 {
        seq![piece("\n"@, Style::Plain)]
    } else {
        Seq::empty()
    }));
    put_constructor(out, &c.constructor, &inner, Ghost(level + 1));
    put_methods(out, &c.methods, &inner, Ghost(level + 1));
    put_closing(out, ind, Ghost(level));
    assert(line_view(out@) =~= start + pretty::class(c@, level));
}

/// Appends the classes `items`, each printed at the depth of `ind` with an empty line
/// behind it, to `out`.
fn put_classes(out: &mut Vec<Segment>, items: &Vec<ClassDef>, ind: &String, Ghost(level): Ghost<nat>)
    requires
        ind@ == indentation(level),
    ensures
        line_view(final(out)@) == line_view(old(out)@) + flattened(
            pretty::class_parts(class_views(items@), level),
            Seq::empty(),
        ),
{
    let ghost start = line_view(out@);
    let ghost parts = pretty::class_parts(class_views(items@), level);
    let ghost none = Seq::<SegmentView>::empty();
    let mut i: usize = 0;
    assert(line_view(out@) =~= start + flattened(parts.take(0), none));
    while i < items.len()
        invariant
            0 <= i <= items.len(),
            ind@ == indentation(level),
            none == Seq::<SegmentView>::empty(),
            parts == pretty::class_parts(class_views(items@), level),
            parts.len() == items.len(),
            line_view(out@) == start + flattened(parts.take(i as int), none),
        decreases items.len() - i,
    {
        proof {
            lemma_flattened_step(parts, none, i as int);
        }
        put_class(out, &items[i], ind, Ghost(level));
        put(out, "\n", Style::Plain);
        proof {
            assert(parts[i as int] == pretty::class(items[i as int]@, level) + seq![
                piece("\n"@, Style::Plain),
            ]);
            if i > 0 {
                assert(line_view(out@) =~= start + (flattened(parts.take(i as int), none) + none
                    + parts[i as int]));
            } else {
                assert(line_view(out@) =~= start + parts[0]);
            }
        }
        i += 1;
    }
    proof {
        assert(parts.take(items.len() as int) =~= parts);
    }
}

/// Appends the functions `items`, each printed at the depth of `ind` with an empty line
/// behind it, to `out`.
fn put_funs(out: &mut Vec<Segment>, items: &Vec<FunDef>, ind: &String, Ghost(level): Ghost<nat>)
    requires
        ind@ == indentation(level),
    ensures
        line_view(final(out)@) == line_view(old(out)@) + flattened(
            pretty::fun_parts(fun_views(items@), level),
            Seq::empty(),
        ),
{
    let ghost start = line_view(out@);
    let ghost parts = pretty::fun_parts(fun_views(items@), level);
    let ghost none = Seq::<SegmentView>::empty();
    let mut i: usize = 0;
    assert(line_view(out@) =~= start + flattened(parts.take(0), none));
    while i < items.len()
        invariant
            0 <= i <= items.len(),
            ind@ == indentation(level),
            none == Seq::<SegmentView>::empty(),
            parts == pretty::fun_parts(fun_views(items@), level),
            parts.len() == items.len(),
            line_view(out@) == start + flattened(parts.take(i as int), none),
        decreases items.len() - i,
    {
        proof {
            lemma_flattened_step(parts, none, i as int);
        }
        let function = &items[i];
        put_callable(
            out,
            "fun",
            &function.name,
            &function.params,
            &function.return_type,
            &function.statements,
            ind,
            Ghost(level),
        );
        put(out, "\n", Style::Plain);
        proof {
            assert(parts[i as int] == pretty::fun(items[i as int]@, level) + seq![
                piece("\n"@, Style::Plain),
            ]);
            if i > 0 {
                assert(line_view(out@) =~= start + (flattened(parts.take(i as int), none) + none
                    + parts[i as int]));
            } else {
                assert(line_view(out@) =~= start + parts[0]);
            }
        }
        i += 1;
    }
    proof {
        assert(parts.take(items.len() as int) =~= parts);
    }
}

/// No pieces yet.
fn nothing() -> (out: Vec<Segment>)
    ensures
        line_view(out@) == Seq::<SegmentView>::empty(),
{
    let out: Vec<Segment> = Vec::new();
    assert(line_view(out@) =~= Seq::<SegmentView>::empty());
    out
}

impl PrettyPrint for Expr {
    fn pretty_print(&self, indent: usize) -> (out: Vec<Segment>)
        ensures
            line_view(out@) == pretty::expr(self@),
    {
        let mut out = nothing();
        put_expr(&mut out, self);
        assert(line_view(out@) =~= pretty::expr(self@));
        out
    }

    fn to_pretty_string(&self) -> (painted: String)
        ensures
            embedded(plain(pretty::expr(self@)), painted@),
    {
        paint_line(&self.pretty_print(0))
    }
}

impl PrettyPrint for Stmt {
    fn pretty_print(&self, indent: usize) -> (out: Vec<Segment>)
        ensures
            line_view(out@) == pretty::stmt(self@, indent as nat),
    {
        let mut out = nothing();
        let ind = indentation_text(indent);
        put_stmt(&mut out, self, &ind, Ghost(indent as nat));
        assert(line_view(out@) =~= pretty::stmt(self@, indent as nat));
        out
    }

    fn to_pretty_string(&self) -> (painted: String)
        ensures
            embedded(plain(pretty::stmt(self@, 0)), painted@),
    {
        paint_line(&self.pretty_print(0))
    }
}

impl PrettyPrint for VarDeclStmt {
    fn pretty_print(&self, indent: usize) -> (out: Vec<Segment>)
        ensures
            line_view(out@) == pretty::var_decl(self@, indent as nat),
    {
        let mut out = nothing();
        let ind = indentation_text(indent);
        put_declaration(&mut out, &self.name, &self.var_type, &ind, Ghost(indent as nat));
        put(&mut out, ";\n", Style::Plain);
        assert(line_view(out@) =~= pretty::var_decl(self@, indent as nat));
        out
    }

    fn to_pretty_string(&self) -> (painted: String)
        ensures
            embedded(plain(pretty::var_decl(self@, 0)), painted@),
    {
        paint_line(&self.pretty_print(0))
    }
}

impl PrettyPrint for ParamDecl {
    fn pretty_print(&self, indent: usize) -> (out: Vec<Segment>)
        ensures
            line_view(out@) == pretty::param(self@),
    {
        let mut out = nothing();
        put_text(&mut out, self.name.clone(), Style::Cyan);
        put(&mut out, ": ", Style::Plain);
        put_text(&mut out, self.param_type.to_string(), Style::BlueBold);
        assert(line_view(out@) =~= pretty::param(self@));
        out
    }

    fn to_pretty_string(&self) -> (painted: String)
        ensures
            embedded(plain(pretty::param(self@)), painted@),
    {
        paint_line(&self.pretty_print(0))
    }
}

impl PrettyPrint for FunDef {
    fn pretty_print(&self, indent: usize) -> (out: Vec<Segment>)
        ensures
            line_view(out@) == pretty::fun(self@, indent as nat),
    {
        let mut out = nothing();
        let ind = indentation_text(indent);
        put_callable(
            &mut out,
            "fun",
            &self.name,
            &self.params,
            &self.return_type,
            &self.statements,
            &ind,
            Ghost(indent as nat),
        );
        assert(line_view(out@) =~= pretty::fun(self@, indent as nat));
        out
    }

    fn to_pretty_string(&self) -> (painted: String)
        ensures
            embedded(plain(pretty::fun(self@, 0)), painted@),
    {
        paint_line(&self.pretty_print(0))
    }
}

impl PrettyPrint for MethDef {
    fn pretty_print(&self, indent: usize) -> (out: Vec<Segment>)
        ensures
            line_view(out@) == pretty::method(self@, indent as nat),
    {
        let mut out = nothing();
        let ind = indentation_text(indent);
        put_callable(
            &mut out,
            "meth",
            &self.name,
            &self.params,
            &self.return_type,
            &self.statements,
            &ind,
            Ghost(indent as nat),
        );
        assert(line_view(out@) =~= pretty::method(self@, indent as nat));
        out
    }

    fn to_pretty_string(&self) -> (painted: String)
        ensures
            embedded(plain(pretty::method(self@, 0)), painted@),
    {
        paint_line(&self.pretty_print(0))
    }
}

impl PrettyPrint for Constructor {
    fn pretty_print(&self, indent: usize) -> (out: Vec<Segment>)
        ensures
            line_view(out@) == pretty::constructor(self@, indent as nat),
    {
        let mut out = nothing();
        let ind = indentation_text(indent);
        put_constructor(&mut out, self, &ind, Ghost(indent as nat));
        assert(line_view(out@) =~= pretty::constructor(self@, indent as nat));
        out
    }

    fn to_pretty_string(&self) -> (painted: String)
        ensures
            embedded(plain(pretty::constructor(self@, 0)), painted@),
    {
        paint_line(&self.pretty_print(0))
    }
}

impl PrettyPrint for ClassDef {
    fn pretty_print(&self, indent: usize) -> (out: Vec<Segment>)
        ensures
            line_view(out@) == pretty::class(self@, indent as nat),
    {
        let mut out = nothing();
        let ind = indentation_text(indent);
        put_class(&mut out, self, &ind, Ghost(indent as nat));
        assert(line_view(out@) =~= pretty::class(self@, indent as nat));
        out
    }

    fn to_pretty_string(&self) -> (painted: String)
        ensures
            embedded(plain(pretty::class(self@, 0)), painted@),
    {
        paint_line(&self.pretty_print(0))
    }
}

impl PrettyPrint for Entry {
    fn pretty_print(&self, indent: usize) -> (out: Vec<Segment>)
        ensures
            line_view(out@) == pretty::entry(self@, indent as nat),
    {
        let mut out = nothing();
        let ind = indentation_text(indent);
        put_classes(&mut out, &self.class_defs, &ind, Ghost(indent as nat));
        put_funs(&mut out, &self.fun_defs, &ind, Ghost(indent as nat));
        put_stmts(&mut out, &self.statements, &ind, Ghost(indent as nat));
        assert(line_view(out@) =~= pretty::entry(self@, indent as nat));
        out
    }

    fn to_pretty_string(&self) -> (painted: String)
        ensures
            embedded(plain(pretty::entry(self@, 0)), painted@),
    {
        paint_line(&self.pretty_print(0))
    }
}

} // verus!
