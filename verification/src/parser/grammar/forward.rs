use vstd::prelude::*;
use crate::ast::{EntryView, ExprView, MethDefView, ParamDeclView, StmtView};
use crate::lexer::{Span, TokenTypeView, TokenView, TypeNameView};
use crate::parser::error::ParseErrorView;
use crate::parser::grammar::cursor::{
    consume, consume_identifier, consume_optional, consume_type, fail, synchronize, Cursor,
    Parsed,
};
use crate::parser::grammar::decl::{
    class, class_head, comma_param_decl, constructor, fun, method, method_name, methods_tail,
    param, params_tail, program, program_tail, result_type, signature_rest, skip_unexpected,
    statement, super_call, top_level,
};
use crate::parser::grammar::expr::{
    add_expr, add_tail, and_expr, and_tail, arguments, binary, call_expr, call_tail, chain,
    comma_expr, comma_tail, comparison_expr, comparison_tail, expr, expression, grouped_expr,
    mult_expr, mult_tail, name_expr, new_expr, or_expr, or_tail, primary_expr, print_call,
    unary_expr, unary_op,
};
use crate::parser::grammar::stmt::{
    assigned, block, block_tail, branch, break_stmt, condition, declared, dotted_stmt,
    expr_stmt, field_assign, field_path, if_stmt, return_stmt, stmt, var_assign, var_decl,
    while_stmt,
};
use crate::parser::types::SyncPoint;

verus! {

/// A rule that started at `c` and yielded `p` went forward: it left the cursor where it was
/// or further on and dropped no diagnostic, and if it read a value, a token was there and
/// the cursor is further on.
pub open spec fn forward<T>(tokens: Seq<TokenView>, c: Cursor, p: Parsed<T>) -> bool {
    &&& onward(c, p.cursor)
    &&& p.value is Some ==> c.position < tokens.len() && p.cursor.position > c.position
}

/// Whether `earlier` is the start of `later`.
pub open spec fn starts<T>(earlier: Seq<T>, later: Seq<T>) -> bool {
    &&& earlier.len() <= later.len()
    &&& forall|i: int| 0 <= i < earlier.len() ==> #[trigger] earlier[i] == later[i]
}

/// The state `later` is not behind the state `c`: the cursor is where it was or further on,
/// and the diagnostics recorded at `c` are still there, unchanged and in front of those
/// recorded since.
pub open spec fn onward(c: Cursor, later: Cursor) -> bool {
    &&& later.position >= c.position
    &&& starts(c.errors, later.errors)
}

/// Resuming after a failure never moves the cursor backwards.
pub proof fn lemma_synchronize(tokens: Seq<TokenView>, c: Cursor, point: SyncPoint)
    ensures
        onward(c, synchronize(tokens, c, point)),
    decreases c.left(tokens),
{
    if point == SyncPoint::ClassBody {
        match c.token(tokens) {
            Some(token) => {
                lemma_synchronize(tokens, c.step(tokens), point);
            },
            None => {},
        }
    }
}

/// Every expression rule goes forward.
pub proof fn lemma_expr(tokens: Seq<TokenView>, c: Cursor)
    ensures
        forward(tokens, c, expr(tokens, c)),
    decreases c.left(tokens), 19nat,
{
    lemma_or_expr(tokens, c);
}

/// A chain of `||` goes forward.
pub proof fn lemma_or_expr(tokens: Seq<TokenView>, c: Cursor)
    ensures
        forward(tokens, c, or_expr(tokens, c)),
    decreases c.left(tokens), 18nat,
{
    lemma_and_expr(tokens, c);
    let first = and_expr(tokens, c);
    match first.value {
        Some(left) => {
            if first.cursor.position > c.position {
                lemma_or_tail(tokens, first.cursor, left);
            }
        },
        None => {},
    }
}

/// The rest of a chain of `||` goes forward.
pub proof fn lemma_or_tail(tokens: Seq<TokenView>, c: Cursor, left: ExprView)
    ensures
        onward(c, or_tail(tokens, c, left).cursor),
    decreases c.left(tokens), 17nat,
{
    match c.token(tokens) {
        Some(token) => {
            if token.token_type is Or {
                lemma_and_expr(tokens, c.step(tokens));
                let second = and_expr(tokens, c.step(tokens));
                if second.cursor.position > c.position {
                    match second.value {
                        Some(right) => {
                            lemma_or_tail(
                                tokens,
                                second.cursor,
                                binary(left, token.token_type, right, token.span),
                            );
                        },
                        None => match second.cursor.span(tokens) {
                            Some(span) => {
                                let noted = second.cursor.note(
                                    ParseErrorView::ExpectedExpression { span },
                                );
                                assert(onward(c, second.cursor));
                                assert(onward(second.cursor, noted));
                                assert(onward(c, noted));
                                lemma_or_tail(tokens, noted, left);
                            },
                            None => {},
                        },
                    }
                }
            }
        },
        None => {},
    }
}

/// A chain of `&&` goes forward.
pub proof fn lemma_and_expr(tokens: Seq<TokenView>, c: Cursor)
    ensures
        forward(tokens, c, and_expr(tokens, c)),
    decreases c.left(tokens), 16nat,
{
    lemma_comparison_expr(tokens, c);
    let first = comparison_expr(tokens, c);
    match first.value {
        Some(left) => {
            if first.cursor.position > c.position {
                lemma_and_tail(tokens, first.cursor, left);
            }
        },
        None => {},
    }
}

/// The rest of a chain of `&&` goes forward.
pub proof fn lemma_and_tail(tokens: Seq<TokenView>, c: Cursor, left: ExprView)
    ensures
        onward(c, and_tail(tokens, c, left).cursor),
    decreases c.left(tokens), 15nat,
{
    match c.token(tokens) {
        Some(token) => {
            if token.token_type is And {
                lemma_comparison_expr(tokens, c.step(tokens));
                let second = comparison_expr(tokens, c.step(tokens));
                if second.cursor.position > c.position {
                    match second.value {
                        Some(right) => {
                            lemma_and_tail(
                                tokens,
                                second.cursor,
                                binary(left, token.token_type, right, token.span),
                            );
                        },
                        None => match second.cursor.span(tokens) {
                            Some(span) => {
                                let noted = second.cursor.note(
                                    ParseErrorView::ExpectedExpression { span },
                                );
                                assert(onward(c, second.cursor));
                                assert(onward(second.cursor, noted));
                                assert(onward(c, noted));
                                lemma_and_tail(tokens, noted, left);
                            },
                            None => {},
                        },
                    }
                }
            }
        },
        None => {},
    }
}

/// A chain of comparisons goes forward.
pub proof fn lemma_comparison_expr(tokens: Seq<TokenView>, c: Cursor)
    ensures
        forward(tokens, c, comparison_expr(tokens, c)),
    decreases c.left(tokens), 14nat,
{
    lemma_add_expr(tokens, c);
    let first = add_expr(tokens, c);
    match first.value {
        Some(left) => {
            if first.cursor.position > c.position {
                lemma_comparison_tail(tokens, first.cursor, left);
            }
        },
        None => {},
    }
}

/// The rest of a chain of comparisons goes forward.
pub proof fn lemma_comparison_tail(tokens: Seq<TokenView>, c: Cursor, left: ExprView)
    ensures
        onward(c, comparison_tail(tokens, c, left).cursor),
    decreases c.left(tokens), 13nat,
{
    match c.token(tokens) {
        Some(token) => {
            if token.token_type.is_comparison() {
                lemma_add_expr(tokens, c.step(tokens));
                let second = add_expr(tokens, c.step(tokens));
                if second.cursor.position > c.position {
                    match (second.cursor.span(tokens), second.value) {
                        (Some(span), Some(right)) => {
                            lemma_comparison_tail(
                                tokens,
                                second.cursor,
                                binary(left, token.token_type, right, span),
                            );
                        },
                        _ => {},
                    }
                }
            }
        },
        None => {},
    }
}

/// A chain of `+` and `-` goes forward.
pub proof fn lemma_add_expr(tokens: Seq<TokenView>, c: Cursor)
    ensures
        forward(tokens, c, add_expr(tokens, c)),
    decreases c.left(tokens), 12nat,
{
    lemma_mult_expr(tokens, c);
    let first = mult_expr(tokens, c);
    match first.value {
        Some(left) => {
            if first.cursor.position > c.position {
                lemma_add_tail(tokens, first.cursor, left);
            }
        },
        None => {},
    }
}

/// The rest of a chain of `+` and `-` goes forward.
pub proof fn lemma_add_tail(tokens: Seq<TokenView>, c: Cursor, left: ExprView)
    ensures
        onward(c, add_tail(tokens, c, left).cursor),
    decreases c.left(tokens), 11nat,
{
    match c.token(tokens) {
        Some(token) => {
            if token.token_type.is_additive() {
                lemma_mult_expr(tokens, c.step(tokens));
                let second = mult_expr(tokens, c.step(tokens));
                if second.cursor.position > c.position {
                    match (second.cursor.span(tokens), second.value) {
                        (Some(span), Some(right)) => {
                            lemma_add_tail(
                                tokens,
                                second.cursor,
                                binary(left, token.token_type, right, span),
                            );
                        },
                        _ => {},
                    }
                }
            }
        },
        None => {},
    }
}

/// A chain of `*` and `/` goes forward.
pub proof fn lemma_mult_expr(tokens: Seq<TokenView>, c: Cursor)
    ensures
        forward(tokens, c, mult_expr(tokens, c)),
    decreases c.left(tokens), 10nat,
{
    lemma_unary_expr(tokens, c);
    let first = unary_expr(tokens, c);
    match first.value {
        Some(left) => {
            if first.cursor.position > c.position {
                lemma_mult_tail(tokens, first.cursor, left);
            }
        },
        None => {},
    }
}

/// The rest of a chain of `*` and `/` goes forward.
pub proof fn lemma_mult_tail(tokens: Seq<TokenView>, c: Cursor, left: ExprView)
    ensures
        onward(c, mult_tail(tokens, c, left).cursor),
    decreases c.left(tokens), 9nat,
{
    match c.token(tokens) {
        Some(token) => {
            if token.token_type.is_multiplicative() {
                lemma_unary_expr(tokens, c.step(tokens));
                let second = unary_expr(tokens, c.step(tokens));
                if second.cursor.position > c.position {
                    match second.value {
                        Some(right) => {
                            lemma_mult_tail(
                                tokens,
                                second.cursor,
                                binary(left, token.token_type, right, token.span),
                            );
                        },
                        None => {},
                    }
                }
            }
        },
        None => {},
    }
}

/// A unary expression goes forward.
pub proof fn lemma_unary_expr(tokens: Seq<TokenView>, c: Cursor)
    ensures
        forward(tokens, c, unary_expr(tokens, c)),
    decreases c.left(tokens), 8nat,
{
    match c.token(tokens) {
        Some(token) => match unary_op(token.token_type) {
            Some(operator) => {
                lemma_unary_expr(tokens, c.step(tokens));
            },
            None => {
                lemma_call_expr(tokens, c);
            },
        },
        None => {},
    }
}

/// A call expression goes forward.
pub proof fn lemma_call_expr(tokens: Seq<TokenView>, c: Cursor)
    ensures
        forward(tokens, c, call_expr(tokens, c)),
    decreases c.left(tokens), 6nat,
{
    lemma_primary_expr(tokens, c);
    let first = primary_expr(tokens, c);
    match first.value {
        Some(object) => {
            if first.cursor.position > c.position {
                lemma_call_tail(tokens, first.cursor, object);
            }
        },
        None => {},
    }
}

/// The rest of a call expression goes forward.
pub proof fn lemma_call_tail(tokens: Seq<TokenView>, c: Cursor, object: ExprView)
    ensures
        onward(c, call_tail(tokens, c, object).cursor),
    decreases c.left(tokens), 5nat,
{
    match c.token(tokens) {
        Some(token) => {
            if token.token_type is Dot {
                let name = consume_identifier(tokens, c.step(tokens), "method name"@);
                match name.value {
                    Some(member) => {
                        if name.cursor.at(tokens, TokenTypeView::LeftParen) {
                            lemma_comma_expr(tokens, name.cursor);
                            let args = comma_expr(tokens, name.cursor);
                            if args.cursor.position > c.position {
                                lemma_call_tail(
                                    tokens,
                                    args.cursor,
                                    ExprView::MethCall {
                                        object: Box::new(object),
                                        meth: member,
                                        args: args.items,
                                        span: token.span,
                                    },
                                );
                            }
                        } else {
                            lemma_call_tail(
                                tokens,
                                name.cursor,
                                ExprView::Field {
                                    object: Box::new(object),
                                    field: member,
                                    span: token.span,
                                },
                            );
                        }
                    },
                    None => {},
                }
            }
        },
        None => {},
    }
}

/// The argument of `print` or `println` goes forward.
pub proof fn lemma_print_call(tokens: Seq<TokenView>, c: Cursor, span: Span, line_break: bool)
    ensures
        onward(c, print_call(tokens, c, span, line_break).cursor),
    decreases c.left(tokens), 21nat,
{
    let open = consume(tokens, c, TokenTypeView::LeftParen);
    if open.value is Some {
        lemma_expr(tokens, open.cursor);
    }
}

/// The rest of a construction goes forward.
pub proof fn lemma_new_expr(tokens: Seq<TokenView>, c: Cursor, span: Span)
    ensures
        onward(c, new_expr(tokens, c, span).cursor),
    decreases c.left(tokens), 21nat,
{
    match c.token(tokens) {
        Some(next) => match next.token_type {
            TokenTypeView::Identifier(class_name) => {
                lemma_comma_expr(tokens, c.step(tokens));
            },
            _ => {},
        },
        None => {},
    }
}

/// What follows an identifier goes forward.
pub proof fn lemma_name_expr(tokens: Seq<TokenView>, c: Cursor, name: Seq<char>, span: Span)
    ensures
        onward(c, name_expr(tokens, c, name, span).cursor),
    decreases c.left(tokens), 21nat,
{
    if c.at(tokens, TokenTypeView::LeftParen) {
        lemma_comma_expr(tokens, c);
    }
}

/// The rest of an expression in parentheses goes forward.
pub proof fn lemma_grouped_expr(tokens: Seq<TokenView>, c: Cursor, span: Span)
    ensures
        onward(c, grouped_expr(tokens, c, span).cursor),
    decreases c.left(tokens), 21nat,
{
    lemma_expr(tokens, c);
}

/// A primary expression goes forward.
pub proof fn lemma_primary_expr(tokens: Seq<TokenView>, c: Cursor)
    ensures
        forward(tokens, c, primary_expr(tokens, c)),
    decreases c.left(tokens), 4nat,
{
    match c.token(tokens) {
        Some(token) => {
            let span = token.span;
            let rest = c.step(tokens);
            match token.token_type {
                TokenTypeView::Println => {
                    lemma_print_call(tokens, rest, span, true);
                },
                TokenTypeView::Print => {
                    lemma_print_call(tokens, rest, span, false);
                },
                TokenTypeView::New => {
                    lemma_new_expr(tokens, rest, span);
                },
                TokenTypeView::Identifier(name) => {
                    lemma_name_expr(tokens, rest, name, span);
                },
                TokenTypeView::LeftParen => {
                    lemma_grouped_expr(tokens, rest, span);
                },
                _ => {},
            }
        },
        None => {},
    }
}

/// An argument list goes forward; one that starts at a `(` reads it.
pub proof fn lemma_comma_expr(tokens: Seq<TokenView>, c: Cursor)
    ensures
        onward(c, comma_expr(tokens, c).cursor),
        c.at(tokens, TokenTypeView::LeftParen) ==> comma_expr(tokens, c).cursor.position
            > c.position,
    decreases c.left(tokens), 20nat,
{
    let open = consume(tokens, c, TokenTypeView::LeftParen);
    assert(onward(c, open.cursor));
    lemma_expr(tokens, open.cursor);
    let first = expr(tokens, open.cursor);
    assert(onward(c, first.cursor));
    let items = match first.value {
        Some(value) => seq![value],
        None => Seq::empty(),
    };
    lemma_comma_tail(tokens, first.cursor, items);
    assert(onward(first.cursor, comma_tail(tokens, first.cursor, items).cursor));
}

/// The rest of an argument list goes forward.
pub proof fn lemma_comma_tail(tokens: Seq<TokenView>, c: Cursor, items: Seq<ExprView>)
    ensures
        onward(c, comma_tail(tokens, c, items).cursor),
    decreases c.left(tokens), 3nat,
{
    match c.token(tokens) {
        Some(token) => match token.token_type {
            TokenTypeView::Comma => {
                lemma_expr(tokens, c.step(tokens));
                let next = expr(tokens, c.step(tokens));
                if next.cursor.position > c.position {
                    match next.value {
                        Some(value) => {
                            lemma_comma_tail(tokens, next.cursor, items.push(value));
                        },
                        None => {
                            let noted = next.cursor.note(
                                ParseErrorView::ExpectedExpressionAfterComma {
                                    symbol: token.token_type.text(),
                                    span: token.span,
                                },
                            );
                            assert(onward(c, next.cursor));
                            assert(onward(next.cursor, noted));
                            assert(onward(c, noted));
                            lemma_comma_tail(tokens, noted, items);
                        },
                    }
                }
            },
            _ => {},
        },
        None => {},
    }
}

/// An expression, as statements use it, goes forward.
pub proof fn lemma_expression(tokens: Seq<TokenView>, c: Cursor)
    ensures
        forward(tokens, c, expression(tokens, c)),
{
    reveal(expression);
    lemma_expr(tokens, c);
}

/// A call expression, as the assignment of a field uses it, goes forward.
pub proof fn lemma_chain(tokens: Seq<TokenView>, c: Cursor)
    ensures
        forward(tokens, c, chain(tokens, c)),
{
    reveal(chain);
    lemma_call_expr(tokens, c);
}

/// An argument list, as constructors use it, goes forward.
pub proof fn lemma_arguments(tokens: Seq<TokenView>, c: Cursor)
    ensures
        onward(c, arguments(tokens, c).cursor),
{
    reveal(arguments);
    lemma_comma_expr(tokens, c);
}

/// An expression statement goes forward.
pub proof fn lemma_expr_stmt(tokens: Seq<TokenView>, c: Cursor)
    ensures
        forward(tokens, c, expr_stmt(tokens, c)),
{
    reveal(expr_stmt);
    lemma_expression(tokens, c);
}

/// The value of an assignment goes forward.
pub proof fn lemma_assigned(tokens: Seq<TokenView>, c: Cursor, name: Seq<char>, start: Span)
    ensures
        forward(tokens, c, assigned(tokens, c, name, start)),
{
    reveal(assigned);
    lemma_expression(tokens, c);
}

/// An assignment to a variable goes forward.
pub proof fn lemma_var_assign(tokens: Seq<TokenView>, c: Cursor)
    ensures
        forward(tokens, c, var_assign(tokens, c)),
{
    reveal(var_assign);
    match c.token(tokens) {
        Some(token) => {
            let name = consume_identifier(tokens, c, "var_name"@);
            match name.value {
                Some(target) => {
                    let sign = consume(tokens, name.cursor, TokenTypeView::Assign);
                    lemma_assigned(tokens, sign.cursor, target, token.span);
                },
                None => {},
            }
        },
        None => {},
    }
}

/// An assignment to a field goes forward.
pub proof fn lemma_field_assign(tokens: Seq<TokenView>, c: Cursor)
    ensures
        forward(tokens, c, field_assign(tokens, c)),
{
    reveal(field_assign);
    match c.token(tokens) {
        Some(token) => {
            lemma_chain(tokens, c);
            let target = chain(tokens, c);
            match target.value {
                Some(path) => match field_path(path) {
                    Some(name) => {
                        let sign = consume(tokens, target.cursor, TokenTypeView::Assign);
                        lemma_assigned(tokens, sign.cursor, name, token.span);
                    },
                    None => {},
                },
                None => {},
            }
        },
        None => {},
    }
}

/// A `return` goes forward.
pub proof fn lemma_return_stmt(tokens: Seq<TokenView>, c: Cursor)
    ensures
        forward(tokens, c, return_stmt(tokens, c)),
{
    reveal(return_stmt);
    let keyword = consume(tokens, c, TokenTypeView::Return);
    assert(onward(c, keyword.cursor));
    let bare = consume_optional(tokens, keyword.cursor, TokenTypeView::Semicolon);
    assert(onward(keyword.cursor, bare.cursor));
    assert(onward(c, bare.cursor));
    lemma_expression(tokens, bare.cursor);
    let value = expression(tokens, bare.cursor);
    assert(onward(c, value.cursor));
    let end = consume(tokens, value.cursor, TokenTypeView::Semicolon);
    assert(onward(value.cursor, end.cursor));
    assert(onward(c, end.cursor));
}

/// A `break` goes forward.
pub proof fn lemma_break_stmt(tokens: Seq<TokenView>, c: Cursor)
    ensures
        forward(tokens, c, break_stmt(tokens, c)),
{
    reveal(break_stmt);
}

/// The rest of a declaration goes forward.
pub proof fn lemma_declared(
    tokens: Seq<TokenView>,
    c: Cursor,
    name: Seq<char>,
    var_type: TypeNameView,
)
    ensures
        forward(tokens, c, declared(tokens, c, name, var_type)),
{
    reveal(declared);
    lemma_expression(tokens, c.step(tokens));
}

/// A declaration of a variable goes forward.
pub proof fn lemma_var_decl(tokens: Seq<TokenView>, c: Cursor)
    ensures
        forward(tokens, c, var_decl(tokens, c)),
{
    reveal(var_decl);
    let keyword = consume(tokens, c, TokenTypeView::Let);
    let name = consume_identifier(tokens, keyword.cursor, "var_name"@);
    match name.value {
        Some(variable) => {
            let colon = consume(tokens, name.cursor, TokenTypeView::Colon);
            let var_type = consume_type(tokens, colon.cursor);
            match var_type.value {
                Some(declared_type) => {
                    lemma_declared(tokens, var_type.cursor, variable, declared_type);
                },
                None => {},
            }
        },
        None => {},
    }
}

/// A condition in parentheses goes forward.
pub proof fn lemma_condition(tokens: Seq<TokenView>, c: Cursor)
    ensures
        forward(tokens, c, condition(tokens, c)),
{
    reveal(condition);
    let open = consume(tokens, c, TokenTypeView::LeftParen);
    lemma_expression(tokens, open.cursor);
}

/// A statement that starts with a name and a dot goes forward.
pub proof fn lemma_dotted_stmt(tokens: Seq<TokenView>, c: Cursor)
    ensures
        forward(tokens, c, dotted_stmt(tokens, c)),
{
    reveal(dotted_stmt);
    lemma_expr_stmt(tokens, c);
    lemma_field_assign(tokens, c);
}

/// Every statement rule goes forward.
pub proof fn lemma_stmt(tokens: Seq<TokenView>, c: Cursor)
    ensures
        forward(tokens, c, stmt(tokens, c)),
    decreases c.left(tokens), 10nat,
{
    match (c.token(tokens), c.token_ahead(tokens, 1)) {
        (Some(token), Some(next)) => match token.token_type {
            TokenTypeView::Let => {
                lemma_var_decl(tokens, c);
            },
            TokenTypeView::Break => {
                lemma_break_stmt(tokens, c);
            },
            TokenTypeView::Return => {
                lemma_return_stmt(tokens, c);
            },
            TokenTypeView::If => {
                lemma_if_stmt(tokens, c);
            },
            TokenTypeView::While => {
                lemma_while_stmt(tokens, c);
            },
            TokenTypeView::LeftBrace => {
                lemma_block(tokens, c);
            },
            _ => {
                lemma_var_assign(tokens, c);
                lemma_dotted_stmt(tokens, c);
                lemma_expr_stmt(tokens, c);
            },
        },
        _ => {},
    }
}

/// A `while` goes forward.
pub proof fn lemma_while_stmt(tokens: Seq<TokenView>, c: Cursor)
    ensures
        forward(tokens, c, while_stmt(tokens, c)),
    decreases c.left(tokens), 9nat,
{
    let keyword = consume(tokens, c, TokenTypeView::While);
    if keyword.value is Some {
        lemma_condition(tokens, keyword.cursor);
        let head = condition(tokens, keyword.cursor);
        if head.value is Some {
            lemma_stmt(tokens, head.cursor);
        }
    }
}

/// A statement between braces goes forward.
pub proof fn lemma_branch(tokens: Seq<TokenView>, c: Cursor)
    ensures
        forward(tokens, c, branch(tokens, c)),
    decreases c.left(tokens), 11nat,
{
    let open = consume(tokens, c, TokenTypeView::LeftBrace);
    if open.value is Some {
        lemma_stmt(tokens, open.cursor);
    }
}

/// An `if` goes forward.
pub proof fn lemma_if_stmt(tokens: Seq<TokenView>, c: Cursor)
    ensures
        forward(tokens, c, if_stmt(tokens, c)),
    decreases c.left(tokens), 9nat,
{
    let keyword = consume(tokens, c, TokenTypeView::If);
    if keyword.value is Some {
        lemma_condition(tokens, keyword.cursor);
        let head = condition(tokens, keyword.cursor);
        if head.value is Some {
            lemma_branch(tokens, head.cursor);
            let then_branch = branch(tokens, head.cursor);
            if then_branch.value is Some && then_branch.cursor.at(tokens, TokenTypeView::Else)
                && then_branch.cursor.position > c.position {
                lemma_branch(tokens, then_branch.cursor.step(tokens));
            }
        }
    }
}

/// A block goes forward.
pub proof fn lemma_block(tokens: Seq<TokenView>, c: Cursor)
    ensures
        forward(tokens, c, block(tokens, c)),
    decreases c.left(tokens), 9nat,
{
    let open = consume(tokens, c, TokenTypeView::LeftBrace);
    if open.value is Some {
        lemma_block_tail(tokens, open.cursor, Seq::empty());
    }
}

/// The rest of a block goes forward.
pub proof fn lemma_block_tail(tokens: Seq<TokenView>, c: Cursor, items: Seq<StmtView>)
    ensures
        onward(c, block_tail(tokens, c, items).cursor),
    decreases c.left(tokens), 11nat,
{
    match c.token(tokens) {
        Some(token) => {
            if !(token.token_type is RightBrace) {
                lemma_stmt(tokens, c);
                let next = stmt(tokens, c);
                let resume = match next.value {
                    Some(_) => next.cursor,
                    None => next.cursor.step(tokens),
                };
                let read = match next.value {
                    Some(statement) => items.push(statement),
                    None => items,
                };
                if resume.position > c.position {
                    lemma_block_tail(tokens, resume, read);
                }
            }
        },
        None => {},
    }
}

/// A statement, as declarations use it, goes forward.
pub proof fn lemma_statement(tokens: Seq<TokenView>, c: Cursor)
    ensures
        forward(tokens, c, statement(tokens, c)),
{
    reveal(statement);
    lemma_stmt(tokens, c);
}

/// A parameter goes forward.
pub proof fn lemma_param(tokens: Seq<TokenView>, c: Cursor)
    ensures
        forward(tokens, c, param(tokens, c)),
{
    reveal(param);
}

/// The rest of a parameter list goes forward.
pub proof fn lemma_params_tail(tokens: Seq<TokenView>, c: Cursor, items: Seq<ParamDeclView>)
    ensures
        onward(c, params_tail(tokens, c, items).cursor),
    decreases c.left(tokens),
{
    match c.token(tokens) {
        Some(token) => {
            if !(token.token_type is RightParen) {
                let start = if token.token_type is Comma {
                    c.step(tokens)
                } else {
                    c
                };
                lemma_param(tokens, start);
                let next = param(tokens, start);
                assert(onward(c, start));
                assert(onward(c, next.cursor));
                let resume = match next.value {
                    Some(_) => next.cursor,
                    None => skip_unexpected(tokens, next.cursor),
                };
                assert(onward(next.cursor, resume));
                assert(onward(c, resume));
                let read = match next.value {
                    Some(parameter) => items.push(parameter),
                    None => items,
                };
                lemma_params_tail(tokens, resume, read);
            }
        },
        None => {},
    }
}

/// A parameter list goes forward.
pub proof fn lemma_comma_param_decl(tokens: Seq<TokenView>, c: Cursor)
    ensures
        forward(tokens, c, comma_param_decl(tokens, c)),
{
    reveal(comma_param_decl);
    let open = consume(tokens, c, TokenTypeView::LeftParen);
    lemma_params_tail(tokens, open.cursor, Seq::empty());
}

/// A result type goes forward.
pub proof fn lemma_result_type(tokens: Seq<TokenView>, c: Cursor, symbol: Seq<char>)
    ensures
        onward(c, result_type(tokens, c, symbol).cursor),
{
    reveal(result_type);
}

/// The name of a method goes forward.
pub proof fn lemma_method_name(tokens: Seq<TokenView>, c: Cursor, class_name: Seq<char>)
    ensures
        forward(tokens, c, method_name(tokens, c, class_name)),
{
    reveal(method_name);
}

/// The result type and body of a function or method goes forward.
pub proof fn lemma_signature_rest(tokens: Seq<TokenView>, c: Cursor, name: Seq<char>)
    ensures
        forward(tokens, c, signature_rest(tokens, c, name)),
{
    reveal(signature_rest);
    let arrow = consume(tokens, c, TokenTypeView::Arrow);
    assert(onward(c, arrow.cursor));
    assert(onward(
        arrow.cursor,
        arrow.cursor.note(ParseErrorView::UnexpectedEOF { span: c.span(tokens) }),
    ));
    lemma_result_type(tokens, arrow.cursor, name);
    let result = result_type(tokens, arrow.cursor, name);
    lemma_statement(tokens, result.cursor);
}

/// A method goes forward; one that starts at `meth` reads it.
pub proof fn lemma_method(tokens: Seq<TokenView>, c: Cursor, class_name: Seq<char>)
    ensures
        onward(c, method(tokens, c, class_name).cursor),
        c.at(tokens, TokenTypeView::Meth) ==> method(tokens, c, class_name).cursor.position
            > c.position,
{
    reveal(method);
    let keyword = consume(tokens, c, TokenTypeView::Meth);
    assert(onward(c, keyword.cursor));
    lemma_method_name(tokens, keyword.cursor, class_name);
    let named = method_name(tokens, keyword.cursor, class_name);
    assert(onward(c, named.cursor));
    let name = match named.value {
        Some(name) => name,
        None => Seq::empty(),
    };
    lemma_comma_param_decl(tokens, named.cursor);
    let params = comma_param_decl(tokens, named.cursor);
    assert(onward(c, params.cursor));
    lemma_signature_rest(tokens, params.cursor, name);
    assert(onward(c, signature_rest(tokens, params.cursor, name).cursor));
}

/// A function goes forward; one that starts at `fun` reads it.
pub proof fn lemma_fun(tokens: Seq<TokenView>, c: Cursor)
    ensures
        onward(c, fun(tokens, c).cursor),
        c.at(tokens, TokenTypeView::Fun) ==> fun(tokens, c).cursor.position > c.position,
{
    reveal(fun);
    let keyword = consume(tokens, c, TokenTypeView::Fun);
    assert(onward(c, keyword.cursor));
    let named = consume_identifier(tokens, keyword.cursor, "function name"@);
    assert(onward(keyword.cursor, named.cursor));
    assert(onward(c, named.cursor));
    let name = match named.value {
        Some(name) => name,
        None => Seq::empty(),
    };
    lemma_comma_param_decl(tokens, named.cursor);
    let params = comma_param_decl(tokens, named.cursor);
    assert(onward(c, params.cursor));
    lemma_signature_rest(tokens, params.cursor, name);
    assert(onward(c, signature_rest(tokens, params.cursor, name).cursor));
}

/// The call of the parent's constructor goes forward.
pub proof fn lemma_super_call(tokens: Seq<TokenView>, c: Cursor)
    ensures
        onward(c, super_call(tokens, c).cursor),
{
    reveal(super_call);
    let keyword = consume_optional(tokens, c, TokenTypeView::Super);
    lemma_arguments(tokens, keyword.cursor);
}

/// A constructor goes forward.
pub proof fn lemma_constructor(tokens: Seq<TokenView>, c: Cursor)
    ensures
        forward(tokens, c, constructor(tokens, c)),
{
    reveal(constructor);
    let keyword = consume_optional(tokens, c, TokenTypeView::Init);
    lemma_comma_param_decl(tokens, keyword.cursor);
    let params = comma_param_decl(tokens, keyword.cursor);
    let open = consume(tokens, params.cursor, TokenTypeView::LeftBrace);
    lemma_super_call(tokens, open.cursor);
    let parent = super_call(tokens, open.cursor);
    lemma_statement(tokens, parent.cursor);
}

/// The methods of a class goes forward.
pub proof fn lemma_methods_tail(
    tokens: Seq<TokenView>,
    c: Cursor,
    class_name: Seq<char>,
    items: Seq<MethDefView>,
)
    ensures
        onward(c, methods_tail(tokens, c, class_name, items).cursor),
    decreases c.left(tokens),
{
    match c.token(tokens) {
        Some(token) => {
            if token.token_type is Meth {
                lemma_method(tokens, c, class_name);
                let next = method(tokens, c, class_name);
                match next.value {
                    Some(definition) => {
                        lemma_methods_tail(tokens, next.cursor, class_name, items.push(definition));
                    },
                    None => {
                        let noted = next.cursor.note(
                            ParseErrorView::ExpectedMethName {
                                symbol: class_name,
                                span: token.span,
                            },
                        );
                        assert(onward(next.cursor, noted));
                        assert(onward(c, noted));
                        lemma_synchronize(tokens, noted, SyncPoint::ClassBody);
                        assert(onward(c, synchronize(tokens, noted, SyncPoint::ClassBody)));
                    },
                }
            }
        },
        None => {},
    }
}

/// The head of a class goes forward.
pub proof fn lemma_class_head(tokens: Seq<TokenView>, c: Cursor)
    ensures
        forward(tokens, c, class_head(tokens, c)),
        c.at(tokens, TokenTypeView::Class) ==> class_head(tokens, c).cursor.position > c.position,
{
    reveal(class_head);
}

/// A class goes forward; one that starts at `class` reads it.
pub proof fn lemma_class(tokens: Seq<TokenView>, c: Cursor)
    ensures
        onward(c, class(tokens, c).cursor),
        c.at(tokens, TokenTypeView::Class) ==> class(tokens, c).cursor.position > c.position,
{
    reveal(class);
    lemma_class_head(tokens, c);
    let head = class_head(tokens, c);
    match head.value {
        Some((name, extends)) => {
            lemma_constructor(tokens, head.cursor);
            let built = constructor(tokens, head.cursor);
            lemma_methods_tail(tokens, built.cursor, name, Seq::empty());
        },
        None => {},
    }
}

/// A construct at the top level reads at least one token if one is left.
pub proof fn lemma_top_level(tokens: Seq<TokenView>, c: Cursor, entry: EntryView)
    ensures
        onward(c, top_level(tokens, c, entry).cursor),
        c.position < tokens.len() ==> top_level(tokens, c, entry).cursor.position > c.position,
{
    lemma_class(tokens, c);
    lemma_fun(tokens, c);
    lemma_statement(tokens, c);
}

/// The rest of a program goes forward.
pub proof fn lemma_program_tail(tokens: Seq<TokenView>, c: Cursor, entry: EntryView)
    ensures
        onward(c, program_tail(tokens, c, entry).cursor),
    decreases c.left(tokens),
{
    match c.token(tokens) {
        Some(token) => {
            if !(token.token_type is EOF) {
                lemma_top_level(tokens, c, entry);
                let next = top_level(tokens, c, entry);
                lemma_program_tail(tokens, next.cursor, next.entry);
            }
        },
        None => {},
    }
}

/// The test in `or_expr` never fails: a chain of `||` is its first operand and the rest of the
/// chain behind it.
pub proof fn lemma_or_expr_plain(tokens: Seq<TokenView>, c: Cursor)
    ensures
        or_expr(tokens, c) == (match and_expr(tokens, c).value {
            Some(left) => or_tail(tokens, and_expr(tokens, c).cursor, left),
            None => fail(and_expr(tokens, c).cursor),
        }),
{
    lemma_and_expr(tokens, c);
}

/// The test in `and_expr` never fails: a chain of `&&` is its first operand and the rest of the
/// chain behind it.
pub proof fn lemma_and_expr_plain(tokens: Seq<TokenView>, c: Cursor)
    ensures
        and_expr(tokens, c) == (match comparison_expr(tokens, c).value {
            Some(left) => and_tail(tokens, comparison_expr(tokens, c).cursor, left),
            None => fail(comparison_expr(tokens, c).cursor),
        }),
{
    lemma_comparison_expr(tokens, c);
}

/// The test in `comparison_expr` never fails: a chain of comparisons is its first operand and the rest of the
/// chain behind it.
pub proof fn lemma_comparison_expr_plain(tokens: Seq<TokenView>, c: Cursor)
    ensures
        comparison_expr(tokens, c) == (match add_expr(tokens, c).value {
            Some(left) => comparison_tail(tokens, add_expr(tokens, c).cursor, left),
            None => fail(add_expr(tokens, c).cursor),
        }),
{
    lemma_add_expr(tokens, c);
}

/// The test in `add_expr` never fails: a chain of `+` and `-` is its first operand and the rest of the
/// chain behind it.
pub proof fn lemma_add_expr_plain(tokens: Seq<TokenView>, c: Cursor)
    ensures
        add_expr(tokens, c) == (match mult_expr(tokens, c).value {
            Some(left) => add_tail(tokens, mult_expr(tokens, c).cursor, left),
            None => fail(mult_expr(tokens, c).cursor),
        }),
{
    lemma_mult_expr(tokens, c);
}

/// The test in `mult_expr` never fails: a chain of `*` and `/` is its first operand and the rest of the
/// chain behind it.
pub proof fn lemma_mult_expr_plain(tokens: Seq<TokenView>, c: Cursor)
    ensures
        mult_expr(tokens, c) == (match unary_expr(tokens, c).value {
            Some(left) => mult_tail(tokens, unary_expr(tokens, c).cursor, left),
            None => fail(unary_expr(tokens, c).cursor),
        }),
{
    lemma_unary_expr(tokens, c);
}

/// The test in `call_expr` never fails: a call expression is a primary expression and the
/// method calls and fields behind it.
pub proof fn lemma_call_expr_plain(tokens: Seq<TokenView>, c: Cursor)
    ensures
        call_expr(tokens, c) == (match primary_expr(tokens, c).value {
            Some(object) => call_tail(tokens, primary_expr(tokens, c).cursor, object),
            None => fail(primary_expr(tokens, c).cursor),
        }),
{
    lemma_primary_expr(tokens, c);
}

/// The test in `comma_expr` never fails: an argument list is its `(`, its first argument if
/// it has one, and the rest of the list behind it.
pub proof fn lemma_comma_expr_plain(tokens: Seq<TokenView>, c: Cursor)
    ensures
        comma_expr(tokens, c) == comma_tail(
            tokens,
            expr(tokens, consume(tokens, c, TokenTypeView::LeftParen).cursor).cursor,
            match expr(tokens, consume(tokens, c, TokenTypeView::LeftParen).cursor).value {
                Some(value) => seq![value],
                None => Seq::empty(),
            },
        ),
{
    let open = consume(tokens, c, TokenTypeView::LeftParen);
    lemma_expr(tokens, open.cursor);
}

/// The test in `block_tail` never fails: behind a statement the rest of the block is read,
/// and behind a token at which no statement starts, the rest behind that token.
pub proof fn lemma_block_tail_plain(tokens: Seq<TokenView>, c: Cursor, items: Seq<StmtView>)
    requires
        c.token(tokens) matches Some(token) && !(token.token_type is RightBrace),
    ensures
        block_tail(tokens, c, items) == (match stmt(tokens, c).value {
            Some(statement) => block_tail(tokens, stmt(tokens, c).cursor, items.push(statement)),
            None => block_tail(tokens, stmt(tokens, c).cursor.step(tokens), items),
        }),
{
    lemma_stmt(tokens, c);
}

} // verus!
