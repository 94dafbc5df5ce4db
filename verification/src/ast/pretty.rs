use vstd::prelude::*;
use crate::ast::{
    ClassDefView, ConstructorView, EntryView, ExprView, FunDefView, MethDefView, ParamDeclView,
    StmtView, VarDeclView,
};
use crate::lexer::TypeNameView;
use crate::style::{piece, SegmentView, Style};
use crate::text::{bool_text, signed_decimal};

verus! {

/// The blanks in front of a line at depth `indent`: two for each level.
pub open spec fn indentation(indent: nat) -> Seq<char>
    decreases indent,
{
    if indent == 0 {
        Seq::empty()
    } else {
        indentation((indent - 1) as nat) + "  "@
    }
}

/// `parts` one after another, with `separator` between each two neighbours.
pub open spec fn flattened(parts: Seq<Seq<SegmentView>>, separator: Seq<SegmentView>) -> Seq<
    SegmentView,
>
    decreases parts.len(),
{
    if parts.len() == 0 {
        Seq::empty()
    } else if parts.len() == 1 {
        parts[0]
    } else {
        flattened(parts.drop_last(), separator) + separator + parts.last()
    }
}

/// What stands between two arguments or parameters: a comma and a blank.
pub open spec fn comma() -> Seq<SegmentView> {
    seq![piece(", "@, Style::Plain)]
}

/// Each of `items` printed, in order.
pub open spec fn expr_parts(items: Seq<ExprView>) -> Seq<Seq<SegmentView>>
    decreases items, 0nat,
{
    Seq::new(
        items.len(),
        |i: int|
            if 0 <= i < items.len() {
                expr(items[i])
            } else {
                Seq::empty()
            },
    )
}

/// Arguments printed in their parentheses.
pub open spec fn arguments(items: Seq<ExprView>) -> Seq<SegmentView>
    decreases items, 1nat,
{
    seq![piece("("@, Style::Plain)] + flattened(expr_parts(items), comma()) + seq![
        piece(")"@, Style::Plain),
    ]
}

/// An expression printed in the source language. Binary expressions stand in parentheses,
/// which shows how they were read.
pub open spec fn expr(e: ExprView) -> Seq<SegmentView>
    decreases e,
{
    match e {
        ExprView::IntegerLiteral { value, .. } => seq![
            piece(signed_decimal(value as int), Style::Cyan),
        ],
        ExprView::StringLiteral { value, .. } => seq![
            piece("\""@, Style::Plain),
            piece(value, Style::Green),
            piece("\""@, Style::Plain),
        ],
        ExprView::BooleanLiteral { value, .. } => seq![piece(bool_text(value), Style::Yellow)],
        ExprView::Variable { name, .. } => seq![piece(name, Style::CyanItalic)],
        ExprView::Binary { left, operator, right, .. } => seq![piece("("@, Style::Plain)] + expr(
            *left,
        ) + seq![
            piece(" "@, Style::Plain),
            piece(operator.symbol(), Style::Magenta),
            piece(" "@, Style::Plain),
        ] + expr(*right) + seq![piece(")"@, Style::Plain)],
        ExprView::Unary { operator, expr: operand, .. } => seq![
            piece(operator.symbol(), Style::Magenta),
        ] + expr(*operand),
        ExprView::FunCall { callee, args, .. } => seq![piece(callee, Style::BlueBold)]
            + arguments(args),
        ExprView::MethCall { object, meth, args, .. } => expr(*object) + seq![
            piece("."@, Style::Plain),
            piece(meth, Style::BlueBold),
        ] + arguments(args),
        ExprView::Field { object, field, .. } => expr(*object) + seq![
            piece("."@, Style::Plain),
            piece(field, Style::Cyan),
        ],
        ExprView::New { class_name, args, .. } => seq![
            piece("new"@, Style::Magenta),
            piece(" "@, Style::Plain),
            piece(class_name, Style::BlueBold),
        ] + arguments(args),
        ExprView::This { .. } => seq![piece("this"@, Style::YellowBold)],
        ExprView::Println { arg, .. } => seq![
            piece("println"@, Style::BlueBold),
            piece("("@, Style::Plain),
        ] + expr(*arg) + seq![piece(")"@, Style::Plain)],
        ExprView::Print { arg, .. } => seq![
            piece("print"@, Style::BlueBold),
            piece("("@, Style::Plain),
        ] + expr(*arg) + seq![piece(")"@, Style::Plain)],
        ExprView::Grouped { inner, .. } => seq![piece("("@, Style::Plain)] + expr(*inner) + seq![
            piece(")"@, Style::Plain),
        ],
        ExprView::Empty => seq![piece("<empty>"@, Style::Plain)],
    }
}

/// The blanks in front of a line at depth `indent`, as a piece of a line.
pub open spec fn margin(indent: nat) -> SegmentView {
    piece(indentation(indent), Style::Plain)
}

/// What ends a statement: a semicolon and a line break.
pub open spec fn end_of_statement() -> Seq<SegmentView> {
    seq![piece(";\n"@, Style::Plain)]
}

/// The line that closes a construct at depth `indent`.
pub open spec fn closing(indent: nat) -> Seq<SegmentView> {
    seq![margin(indent), piece("}\n"@, Style::Plain)]
}

/// `let name: Type` at depth `indent`, without what follows the type.
pub open spec fn declaration(name: Seq<char>, var_type: TypeNameView, indent: nat) -> Seq<
    SegmentView,
> {
    seq![
        margin(indent),
        piece("let"@, Style::Magenta),
        piece(" "@, Style::Plain),
        piece(name, Style::Cyan),
        piece(": "@, Style::Plain),
        piece(var_type.text(), Style::BlueBold),
    ]
}

/// Each of `items` printed at depth `indent`, in order.
pub open spec fn stmt_parts(items: Seq<StmtView>, indent: nat) -> Seq<Seq<SegmentView>>
    decreases items,
{
    Seq::new(
        items.len(),
        |i: int|
            if 0 <= i < items.len() {
                stmt(items[i], indent)
            } else {
                Seq::empty()
            },
    )
}

/// A statement printed in the source language at depth `indent`, each statement on lines of
/// its own. The statements of a block stand at the depth of the block; the body of a loop
/// and the branches of a conditional stand one level deeper.
pub open spec fn stmt(s: StmtView, indent: nat) -> Seq<SegmentView>
    decreases s,
{
    match s {
        StmtView::Expr { expr: value, .. } => seq![margin(indent)] + expr(*value)
            + end_of_statement(),
        StmtView::VarDecl { name, var_type, .. } => declaration(name, var_type, indent)
            + end_of_statement(),
        StmtView::Assign { name, expr: value, .. } => seq![
            margin(indent),
            piece(name, Style::Cyan),
            piece(" = "@, Style::Plain),
        ] + expr(*value) + end_of_statement(),
        StmtView::VarDeclWithAssign { name, var_type, expr: value, .. } => declaration(
            name,
            var_type,
            indent,
        ) + seq![piece(" = "@, Style::Plain)] + expr(*value) + end_of_statement(),
        StmtView::While { condition, body, .. } => seq![
            margin(indent),
            piece("while"@, Style::MagentaBold),
            piece(" ("@, Style::Plain),
        ] + expr(*condition) + seq![piece(") {\n"@, Style::Plain)] + stmt(*body, indent + 1)
            + closing(indent),
        StmtView::If { condition, then_branch, else_branch, .. } => seq![
            margin(indent),
            piece("if"@, Style::MagentaBold),
            piece(" ("@, Style::Plain),
        ] + expr(*condition) + seq![piece(") {\n"@, Style::Plain)] + stmt(
            *then_branch,
            indent + 1,
        ) + closing(indent) + (match else_branch {
            Some(other) => seq![
                margin(indent),
                piece("else"@, Style::MagentaBold),
                piece(" {\n"@, Style::Plain),
            ] + stmt(*other, indent + 1) + closing(indent),
            None => Seq::empty(),
        }),
        StmtView::Break { .. } => seq![margin(indent), piece("break"@, Style::RedBold)]
            + end_of_statement(),
        StmtView::Return { value, .. } => seq![margin(indent), piece("return"@, Style::RedBold)]
            + (match value {
            Some(result) => seq![piece(" "@, Style::Plain)] + expr(*result),
            None => Seq::empty(),
        }) + end_of_statement(),
        StmtView::Block { statements, .. } => flattened(
            stmt_parts(statements, indent),
            Seq::empty(),
        ),
        StmtView::Empty => seq![margin(indent), piece("<empty statement>\n"@, Style::Plain)],
    }
}

/// A declared field printed at depth `indent`.
pub open spec fn var_decl(v: VarDeclView, indent: nat) -> Seq<SegmentView> {
    declaration(v.name, v.var_type, indent) + end_of_statement()
}

/// A parameter printed: `name: Type`.
pub open spec fn param(p: ParamDeclView) -> Seq<SegmentView> {
    seq![
        piece(p.name, Style::Cyan),
        piece(": "@, Style::Plain),
        piece(p.param_type.text(), Style::BlueBold),
    ]
}

/// Each of `items` printed, in order.
pub open spec fn param_parts(items: Seq<ParamDeclView>) -> Seq<Seq<SegmentView>> {
    Seq::new(items.len(), |i: int| param(items[i]))
}

/// The body of a function, method or constructor at depth `indent`; a missing body is
/// nothing.
pub open spec fn body(statements: Option<StmtView>, indent: nat) -> Seq<SegmentView> {
    match statements {
        Some(s) => stmt(s, indent),
        None => Seq::empty(),
    }
}

/// What a function and a method share: the keyword, the name, the parameters, the result
/// type and the body, at depth `indent`.
pub open spec fn callable(
    keyword: Seq<char>,
    name: Seq<char>,
    params: Seq<ParamDeclView>,
    return_type: TypeNameView,
    statements: Option<StmtView>,
    indent: nat,
) -> Seq<SegmentView> {
    seq![
        margin(indent),
        piece(keyword, Style::MagentaBold),
        piece(" "@, Style::Plain),
        piece(name, Style::GreenBold),
        piece("("@, Style::Plain),
    ] + flattened(param_parts(params), comma()) + seq![
        piece(") -> "@, Style::Plain),
        piece(return_type.text(), Style::BlueBold),
        piece(" {\n"@, Style::Plain),
    ] + body(statements, indent + 1) + closing(indent)
}

/// A function printed at depth `indent`.
pub open spec fn fun(f: FunDefView, indent: nat) -> Seq<SegmentView> {
    callable("fun"@, f.name, f.params, f.return_type, f.statements, indent)
}

/// A method printed at depth `indent`.
pub open spec fn method(m: MethDefView, indent: nat) -> Seq<SegmentView> {
    callable("meth"@, m.name, m.params, m.return_type, m.statements, indent)
}

/// The call of the parent's constructor printed inside a constructor at depth `indent`, if
/// there is one.
pub open spec fn super_call(args: Option<Seq<ExprView>>, indent: nat) -> Seq<SegmentView> {
    match args {
        Some(args) => seq![
            margin(indent),
            piece("  "@, Style::Plain),
            piece("super"@, Style::YellowBold),
            piece("("@, Style::Plain),
        ] + flattened(expr_parts(args), comma()) + seq![piece(");\n"@, Style::Plain)],
        None => Seq::empty(),
    }
}

/// A constructor printed at depth `indent`.
pub open spec fn constructor(c: ConstructorView, indent: nat) -> Seq<SegmentView> {
    seq![
        margin(indent),
        piece("init"@, Style::MagentaBold),
        piece(" ("@, Style::Plain),
    ] + flattened(param_parts(c.params), comma()) + seq![piece(") {\n"@, Style::Plain)]
        + super_call(c.super_call, indent) + body(c.statements, indent + 1) + closing(indent)
}

/// Each of `items` printed at depth `indent`, in order.
pub open spec fn var_parts(items: Seq<VarDeclView>, indent: nat) -> Seq<Seq<SegmentView>> {
    Seq::new(items.len(), |i: int| var_decl(items[i], indent))
}

/// Each of `items` printed at depth `indent` behind an empty line, in order.
pub open spec fn method_parts(items: Seq<MethDefView>, indent: nat) -> Seq<Seq<SegmentView>> {
    Seq::new(items.len(), |i: int| seq![piece("\n"@, Style::Plain)] + method(items[i], indent))
}

/// The `extends` clause of a class printed, if the class has a parent.
pub open spec fn extends(parent: Option<Seq<char>>) -> Seq<SegmentView> {
    match parent {
        Some(name) => seq![
            piece(" "@, Style::Plain),
            piece("extends"@, Style::Magenta),
            piece(" "@, Style::Plain),
            piece(name, Style::GreenBold),
        ],
        None => Seq::empty(),
    }
}

/// A class printed at depth `indent`: the head, the fields and an empty line if there are
/// fields, the constructor, and each method behind an empty line.
pub open spec fn class(c: ClassDefView, indent: nat) -> Seq<SegmentView> {
    seq![
        margin(indent),
        piece("class"@, Style::MagentaBold),
        piece(" "@, Style::Plain),
        piece(c.name, Style::GreenBold),
    ] + extends(c.extends) + seq![piece(" {\n"@, Style::Plain)] + flattened(
        var_parts(c.vars, indent + 1),
        Seq::empty(),
    ) + (if c.vars.len() > 0 {
        seq![piece("\n"@, Style::Plain)]
    } else {
        Seq::empty()
    }) + constructor(c.constructor, indent + 1) + flattened(
        method_parts(c.methods, indent + 1),
        Seq::empty(),
    ) + closing(indent)
}

/// Each of `items` printed at depth `indent` with an empty line behind it, in order.
pub open spec fn class_parts(items: Seq<ClassDefView>, indent: nat) -> Seq<Seq<SegmentView>> {
    Seq::new(items.len(), |i: int| class(items[i], indent) + seq![piece("\n"@, Style::Plain)])
}

/// Each of `items` printed at depth `indent` with an empty line behind it, in order.
pub open spec fn fun_parts(items: Seq<FunDefView>, indent: nat) -> Seq<Seq<SegmentView>> {
    Seq::new(items.len(), |i: int| fun(items[i], indent) + seq![piece("\n"@, Style::Plain)])
}

/// A whole program printed at depth `indent`: the classes, the functions, the statements.
pub open spec fn entry(e: EntryView, indent: nat) -> Seq<SegmentView> {
    flattened(class_parts(e.class_defs, indent), Seq::empty()) + flattened(
        fun_parts(e.fun_defs, indent),
        Seq::empty(),
    ) + flattened(stmt_parts(e.statements, indent), Seq::empty())
}

} // verus!
