use vstd::prelude::*;
use crate::ast::{ExprView, UnaryOp};
use crate::lexer::{Span, TokenTypeView, TokenView};
use crate::parser::error::ParseErrorView;
use crate::parser::grammar::cursor::{
    consume, consume_identifier, done, fail, mismatch, Cursor, Parsed,
};

verus! {

// The rules below read the stream from left to right. After a rule has read a part, the next
// rule starts where that part ended. Where that next rule is one of the rules that call each
// other in a circle, the rule first tests that the part ended further on than the rule
// itself started, or no further back: this is what makes the recursion end. The test never
// fails, since every rule leaves the cursor where it was or further on, as the lemmas of the
// module `forward` show.

/// What an argument list yields: the arguments it read and the state it leaves.
pub struct Listed {
    pub items: Seq<ExprView>,
    pub cursor: Cursor,
}

/// The node for `left operator right`.
pub open spec fn binary(
    left: ExprView,
    operator: TokenTypeView,
    right: ExprView,
    span: Span,
) -> ExprView {
    ExprView::Binary {
        left: Box::new(left),
        operator: operator.binary_op(),
        right: Box::new(right),
        span,
    }
}

/// The prefix operator that a token stands for, if it stands for one.
pub open spec fn unary_op(kind: TokenTypeView) -> Option<UnaryOp> {
    match kind {
        TokenTypeView::Not => Some(UnaryOp::Not),
        TokenTypeView::Minus => Some(UnaryOp::Negate),
        TokenTypeView::Plus => Some(UnaryOp::Plus),
        _ => None,
    }
}

/// An expression: the loosest binding level, a chain of `||`.
pub open spec fn expr(tokens: Seq<TokenView>, c: Cursor) -> Parsed<ExprView>
    decreases c.left(tokens), 19nat,
{
    or_expr(tokens, c)
}

/// A chain of `||`: one operand, then any number of operators each followed by an operand, folded
/// to the left.
pub open spec fn or_expr(tokens: Seq<TokenView>, c: Cursor) -> Parsed<ExprView>
    decreases c.left(tokens), 18nat,
{
    let first = and_expr(tokens, c);
    match first.value {
        Some(left) => if first.cursor.position > c.position {
            or_tail(tokens, first.cursor, left)
        } else {
            fail(c)
        },
        None => fail(first.cursor),
    }
}

/// The rest of a chain of `||` after the operand `left`. An operator without an operand is recorded, and the chain goes on with what it has.
pub open spec fn or_tail(tokens: Seq<TokenView>, c: Cursor, left: ExprView) -> Parsed<ExprView>
    decreases c.left(tokens), 17nat,
{
    match c.token(tokens) {
        Some(token) => if token.token_type is Or {
            let second = and_expr(tokens, c.step(tokens));
            if second.cursor.position <= c.position {
                fail(c)
            } else {
                match second.value {
                    Some(right) => or_tail(
                        tokens,
                        second.cursor,
                        binary(left, token.token_type, right, token.span),
                    ),
                    None => match second.cursor.span(tokens) {
                        Some(span) => or_tail(
                            tokens,
                            second.cursor.note(ParseErrorView::ExpectedExpression { span }),
                            left,
                        ),
                        None => fail(second.cursor),
                    },
                }
            }
        } else {
            done(left, c)
        },
        None => done(left, c),
    }
}

/// A chain of `&&`: one operand, then any number of operators each followed by an operand, folded
/// to the left.
pub open spec fn and_expr(tokens: Seq<TokenView>, c: Cursor) -> Parsed<ExprView>
    decreases c.left(tokens), 16nat,
{
    let first = comparison_expr(tokens, c);
    match first.value {
        Some(left) => if first.cursor.position > c.position {
            and_tail(tokens, first.cursor, left)
        } else {
            fail(c)
        },
        None => fail(first.cursor),
    }
}

/// The rest of a chain of `&&` after the operand `left`. An operator without an operand is recorded, and the chain goes on with what it has.
pub open spec fn and_tail(tokens: Seq<TokenView>, c: Cursor, left: ExprView) -> Parsed<ExprView>
    decreases c.left(tokens), 15nat,
{
    match c.token(tokens) {
        Some(token) => if token.token_type is And {
            let second = comparison_expr(tokens, c.step(tokens));
            if second.cursor.position <= c.position {
                fail(c)
            } else {
                match second.value {
                    Some(right) => and_tail(
                        tokens,
                        second.cursor,
                        binary(left, token.token_type, right, token.span),
                    ),
                    None => match second.cursor.span(tokens) {
                        Some(span) => and_tail(
                            tokens,
                            second.cursor.note(ParseErrorView::ExpectedExpression { span }),
                            left,
                        ),
                        None => fail(second.cursor),
                    },
                }
            }
        } else {
            done(left, c)
        },
        None => done(left, c),
    }
}

/// A chain of comparisons: one operand, then any number of operators each followed by an operand, folded
/// to the left.
pub open spec fn comparison_expr(tokens: Seq<TokenView>, c: Cursor) -> Parsed<ExprView>
    decreases c.left(tokens), 14nat,
{
    let first = add_expr(tokens, c);
    match first.value {
        Some(left) => if first.cursor.position > c.position {
            comparison_tail(tokens, first.cursor, left)
        } else {
            fail(c)
        },
        None => fail(first.cursor),
    }
}

/// The rest of a chain of comparisons after the operand `left`. The node takes the position of the token after the right operand; an operator without an
/// operand ends the chain with a diagnostic and no value.
pub open spec fn comparison_tail(tokens: Seq<TokenView>, c: Cursor, left: ExprView) -> Parsed<ExprView>
    decreases c.left(tokens), 13nat,
{
    match c.token(tokens) {
        Some(token) => if token.token_type.is_comparison() {
            let second = add_expr(tokens, c.step(tokens));
            if second.cursor.position <= c.position {
                fail(c)
            } else {
                match second.cursor.span(tokens) {
                    Some(span) => match second.value {
                        Some(right) => comparison_tail(
                            tokens,
                            second.cursor,
                            binary(left, token.token_type, right, span),
                        ),
                        None => fail(
                            second.cursor.note(ParseErrorView::UnexpectedEOF { span: Some(span) }),
                        ),
                    },
                    None => fail(second.cursor),
                }
            }
        } else {
            done(left, c)
        },
        None => done(left, c),
    }
}

/// A chain of `+` and `-`: one operand, then any number of operators each followed by an operand, folded
/// to the left.
pub open spec fn add_expr(tokens: Seq<TokenView>, c: Cursor) -> Parsed<ExprView>
    decreases c.left(tokens), 12nat,
{
    let first = mult_expr(tokens, c);
    match first.value {
        Some(left) => if first.cursor.position > c.position {
            add_tail(tokens, first.cursor, left)
        } else {
            fail(c)
        },
        None => fail(first.cursor),
    }
}

/// The rest of a chain of `+` and `-` after the operand `left`. The node takes the position of the token after the right operand; an operator without an
/// operand ends the chain with a diagnostic and no value.
pub open spec fn add_tail(tokens: Seq<TokenView>, c: Cursor, left: ExprView) -> Parsed<ExprView>
    decreases c.left(tokens), 11nat,
{
    match c.token(tokens) {
        Some(token) => if token.token_type.is_additive() {
            let second = mult_expr(tokens, c.step(tokens));
            if second.cursor.position <= c.position {
                fail(c)
            } else {
                match second.cursor.span(tokens) {
                    Some(span) => match second.value {
                        Some(right) => add_tail(
                            tokens,
                            second.cursor,
                            binary(left, token.token_type, right, span),
                        ),
                        None => fail(
                            second.cursor.note(ParseErrorView::UnexpectedEOF { span: Some(span) }),
                        ),
                    },
                    None => fail(second.cursor),
                }
            }
        } else {
            done(left, c)
        },
        None => done(left, c),
    }
}

/// A chain of `*` and `/`: one operand, then any number of operators each followed by an operand, folded
/// to the left.
pub open spec fn mult_expr(tokens: Seq<TokenView>, c: Cursor) -> Parsed<ExprView>
    decreases c.left(tokens), 10nat,
{
    let first = unary_expr(tokens, c);
    match first.value {
        Some(left) => if first.cursor.position > c.position {
            mult_tail(tokens, first.cursor, left)
        } else {
            fail(c)
        },
        None => fail(first.cursor),
    }
}

/// The rest of a chain of `*` and `/` after the operand `left`. An operator without an operand ends the chain with a diagnostic and no value.
pub open spec fn mult_tail(tokens: Seq<TokenView>, c: Cursor, left: ExprView) -> Parsed<ExprView>
    decreases c.left(tokens), 9nat,
{
    match c.token(tokens) {
        Some(token) => if token.token_type.is_multiplicative() {
            let second = unary_expr(tokens, c.step(tokens));
            if second.cursor.position <= c.position {
                fail(c)
            } else {
                match second.value {
                    Some(right) => mult_tail(
                        tokens,
                        second.cursor,
                        binary(left, token.token_type, right, token.span),
                    ),
                    None => fail(
                        second.cursor.note(ParseErrorView::UnexpectedEOF { span: Some(token.span) }),
                    ),
                }
            }
        } else {
            done(left, c)
        },
        None => done(left, c),
    }
}

/// A prefix operator applied to a unary expression, or a call expression.
pub open spec fn unary_expr(tokens: Seq<TokenView>, c: Cursor) -> Parsed<ExprView>
    decreases c.left(tokens), 8nat,
{
    match c.token(tokens) {
        Some(token) => match unary_op(token.token_type) {
            Some(operator) => {
                let inner = unary_expr(tokens, c.step(tokens));
                match inner.value {
                    Some(operand) => done(
                        ExprView::Unary { operator, expr: Box::new(operand), span: token.span },
                        inner.cursor,
                    ),
                    None => fail(inner.cursor),
                }
            },
            None => call_expr(tokens, c),
        },
        None => fail(c),
    }
}

/// A primary expression followed by any number of `.name(arguments)` and `.name`.
pub open spec fn call_expr(tokens: Seq<TokenView>, c: Cursor) -> Parsed<ExprView>
    decreases c.left(tokens), 6nat,
{
    let first = primary_expr(tokens, c);
    match first.value {
        Some(object) => if first.cursor.position > c.position {
            call_tail(tokens, first.cursor, object)
        } else {
            fail(c)
        },
        None => fail(first.cursor),
    }
}

/// The rest of a call expression after the receiver `object`: each `.name` followed by `(`
/// is a method call, each other `.name` a field.
pub open spec fn call_tail(tokens: Seq<TokenView>, c: Cursor, object: ExprView) -> Parsed<ExprView>
    decreases c.left(tokens), 5nat,
{
    match c.token(tokens) {
        Some(token) => if token.token_type is Dot {
            let name = consume_identifier(tokens, c.step(tokens), "method name"@);
            match name.value {
                Some(member) => if name.cursor.at(tokens, TokenTypeView::LeftParen) {
                    let args = comma_expr(tokens, name.cursor);
                    if args.cursor.position <= c.position {
                        fail(c)
                    } else {
                        call_tail(
                            tokens,
                            args.cursor,
                            ExprView::MethCall {
                                object: Box::new(object),
                                meth: member,
                                args: args.items,
                                span: token.span,
                            },
                        )
                    }
                } else {
                    call_tail(
                        tokens,
                        name.cursor,
                        ExprView::Field { object: Box::new(object), field: member, span: token.span },
                    )
                },
                None => fail(name.cursor),
            }
        } else {
            done(object, c)
        },
        None => done(object, c),
    }
}

/// The argument of `print` or `println` in its parentheses; `c` is behind the keyword, which
/// stood at `span`.
pub open spec fn print_call(tokens: Seq<TokenView>, c: Cursor, span: Span, line_break: bool) -> Parsed<
    ExprView,
>
    decreases c.left(tokens), 21nat,
{
    let open = consume(tokens, c, TokenTypeView::LeftParen);
    if open.value is None {
        fail(open.cursor)
    } else {
        let arg = expr(tokens, open.cursor);
        match arg.value {
            Some(value) => {
                let close = consume(tokens, arg.cursor, TokenTypeView::RightParen);
                if close.value is None {
                    fail(close.cursor)
                } else if line_break {
                    done(ExprView::Println { arg: Box::new(value), span }, close.cursor)
                } else {
                    done(ExprView::Print { arg: Box::new(value), span }, close.cursor)
                }
            },
            None => fail(arg.cursor),
        }
    }
}

/// The class name and the arguments of a construction; `c` is behind `new`, which stood at
/// `span`.
pub open spec fn new_expr(tokens: Seq<TokenView>, c: Cursor, span: Span) -> Parsed<ExprView>
    decreases c.left(tokens), 21nat,
{
    match c.token(tokens) {
        Some(next) => match next.token_type {
            TokenTypeView::Identifier(class_name) => {
                let args = comma_expr(tokens, c.step(tokens));
                done(ExprView::New { class_name, args: args.items, span }, args.cursor)
            },
            _ => fail(c.note(mismatch(TokenTypeView::Identifier("class name"@).text(), next))),
        },
        None => fail(c.note(ParseErrorView::UnexpectedEOF { span: Some(span) })),
    }
}

/// What follows the identifier `name`, which stood at `span`: an argument list, which makes
/// it a call of a function, or nothing, which makes it a variable. A call takes the position
/// of the token after its argument list.
pub open spec fn name_expr(tokens: Seq<TokenView>, c: Cursor, name: Seq<char>, span: Span) -> Parsed<
    ExprView,
>
    decreases c.left(tokens), 21nat,
{
    if c.at(tokens, TokenTypeView::LeftParen) {
        let args = comma_expr(tokens, c);
        match args.cursor.span(tokens) {
            Some(end) => done(
                ExprView::FunCall { callee: name, args: args.items, span: end },
                args.cursor,
            ),
            None => fail(args.cursor),
        }
    } else {
        done(ExprView::Variable { name, span }, c)
    }
}

/// An expression and the `)` that closes it; `c` is behind the `(`, which stood at `span`.
pub open spec fn grouped_expr(tokens: Seq<TokenView>, c: Cursor, span: Span) -> Parsed<ExprView>
    decreases c.left(tokens), 21nat,
{
    let inner = expr(tokens, c);
    match inner.value {
        Some(value) => if inner.cursor.at(tokens, TokenTypeView::RightParen) {
            done(ExprView::Grouped { inner: Box::new(value), span }, inner.cursor.step(tokens))
        } else {
            fail(
                inner.cursor.note(
                    ParseErrorView::ExpectedButFound {
                        expected: "expression"@,
                        found: TokenTypeView::LeftParen.text(),
                        span: Some(span),
                    },
                ),
            )
        },
        None => fail(inner.cursor),
    }
}

/// A literal, `this`, `new Class(arguments)`, `print(..)`, `println(..)`, a variable, a call
/// of a function, or an expression in parentheses.
pub open spec fn primary_expr(tokens: Seq<TokenView>, c: Cursor) -> Parsed<ExprView>
    decreases c.left(tokens), 4nat,
{
    match c.token(tokens) {
        Some(token) => {
            let span = token.span;
            let rest = c.step(tokens);
            match token.token_type {
                TokenTypeView::StringLiteral(value) => done(
                    ExprView::StringLiteral { value, span },
                    rest,
                ),
                TokenTypeView::IntegerLiteral(value) => done(
                    ExprView::IntegerLiteral { value, span },
                    rest,
                ),
                TokenTypeView::This => done(ExprView::This { span }, rest),
                TokenTypeView::True => done(ExprView::BooleanLiteral { value: true, span }, rest),
                TokenTypeView::False => done(ExprView::BooleanLiteral { value: false, span }, rest),
                TokenTypeView::Println => print_call(tokens, rest, span, true),
                TokenTypeView::Print => print_call(tokens, rest, span, false),
                TokenTypeView::New => new_expr(tokens, rest, span),
                TokenTypeView::Identifier(name) => name_expr(tokens, rest, name, span),
                TokenTypeView::LeftParen => grouped_expr(tokens, rest, span),
                _ => fail(c),
            }
        },
        None => fail(c),
    }
}

/// An expression, as the rules for statements and declarations use it.
#[verifier::opaque]
pub open spec fn expression(tokens: Seq<TokenView>, c: Cursor) -> Parsed<ExprView> {
    expr(tokens, c)
}

/// A call expression, as the rule for the assignment of a field uses it.
#[verifier::opaque]
pub open spec fn chain(tokens: Seq<TokenView>, c: Cursor) -> Parsed<ExprView> {
    call_expr(tokens, c)
}

/// An argument list, as the rule for constructors uses it.
#[verifier::opaque]
pub open spec fn arguments(tokens: Seq<TokenView>, c: Cursor) -> Listed {
    comma_expr(tokens, c)
}

/// An argument list: `(`, expressions separated by commas, `)`. A missing `(` is recorded and
/// the list is read all the same.
pub open spec fn comma_expr(tokens: Seq<TokenView>, c: Cursor) -> Listed
    decreases c.left(tokens), 20nat,
{
    let open = consume(tokens, c, TokenTypeView::LeftParen);
    let first = expr(tokens, open.cursor);
    let items = match first.value {
        Some(value) => seq![value],
        None => Seq::empty(),
    };
    if first.cursor.position < c.position {
        Listed { items: Seq::empty(), cursor: c }
    } else {
        comma_tail(tokens, first.cursor, items)
    }
}

/// The rest of an argument list after the arguments `items`. A `)` ends it; a comma is
/// followed by one more argument, and recorded if it is not; any other token is recorded, and
/// the list ends in front of it.
pub open spec fn comma_tail(tokens: Seq<TokenView>, c: Cursor, items: Seq<ExprView>) -> Listed
    decreases c.left(tokens), 3nat,
{
    match c.token(tokens) {
        Some(token) => match token.token_type {
            TokenTypeView::RightParen => Listed { items, cursor: c.step(tokens) },
            TokenTypeView::Comma => {
                let next = expr(tokens, c.step(tokens));
                if next.cursor.position <= c.position {
                    Listed { items, cursor: c }
                } else {
                    match next.value {
                        Some(value) => comma_tail(tokens, next.cursor, items.push(value)),
                        None => comma_tail(
                            tokens,
                            next.cursor.note(
                                ParseErrorView::ExpectedExpressionAfterComma {
                                    symbol: token.token_type.text(),
                                    span: token.span,
                                },
                            ),
                            items,
                        ),
                    }
                }
            },
            _ => Listed {
                items,
                cursor: c.note(
                    ParseErrorView::UnexpectedToken {
                        symbol: token.token_type.text(),
                        span: token.span,
                    },
                ),
            },
        },
        None => Listed { items, cursor: c },
    }
}

} // verus!
