use vstd::prelude::*;
use crate::ast::{ClassDefView, EntryView, ExprView, MethDefView, StmtView};
use crate::lexer::{TokenTypeView, TokenView};
use crate::parser::error::ParseErrorView;
use crate::parser::grammar::cursor::{done, fail, mismatch, synchronize, Cursor};
use crate::parser::grammar::decl::{
    class, class_head, comma_param_decl, constructor, empty_entry, fun, method, method_name,
    methods_tail, no_constructor, program, program_tail, statement, super_call, top_level,
    Methods, Program,
};
use crate::parser::grammar::expr::{
    add_expr, add_tail, and_expr, and_tail, binary, call_expr, call_tail, chain, comma_expr,
    comma_tail, comparison_expr, comparison_tail, expr, expression, mult_expr, mult_tail,
    name_expr, or_expr, or_tail, primary_expr, unary_expr,
};
use crate::parser::grammar::forward::{
    lemma_class, lemma_class_head, lemma_comma_expr_plain, lemma_constructor, lemma_expr,
    lemma_method,
    lemma_methods_tail, lemma_mult_expr, lemma_synchronize, lemma_top_level, lemma_unary_expr,
    onward, starts,
};
use crate::parser::grammar::stmt::{
    assigned, declared, dotted_name, dotted_stmt, expr_stmt, field_assign, field_path, stmt,
    var_decl,
};
use crate::parser::types::SyncPoint;

verus! {

/// Sums associate to the left, and products bind tighter than sums: behind the operand
/// `left` of a chain of `+` and `-`, the next operator takes a whole product as its right
/// operand, and the two together become the left operand of the rest of the chain.
pub proof fn law_sums_fold_to_the_left(tokens: Seq<TokenView>, c: Cursor, left: ExprView)
    requires
        c.token(tokens) matches Some(token) && token.token_type.is_additive(),
        mult_expr(tokens, c.step(tokens)).value is Some,
        mult_expr(tokens, c.step(tokens)).cursor.span(tokens) is Some,
    ensures
        add_tail(tokens, c, left) == add_tail(
            tokens,
            mult_expr(tokens, c.step(tokens)).cursor,
            binary(
                left,
                c.token(tokens)->0.token_type,
                mult_expr(tokens, c.step(tokens)).value->0,
                mult_expr(tokens, c.step(tokens)).cursor.span(tokens)->0,
            ),
        ),
{
    lemma_mult_expr(tokens, c.step(tokens));
}

/// Products associate to the left: behind the operand `left` of a chain of `*` and `/`,
/// the next operator takes one unary expression as its right operand, and the two together
/// become the left operand of the rest of the chain.
pub proof fn law_products_fold_to_the_left(tokens: Seq<TokenView>, c: Cursor, left: ExprView)
    requires
        c.token(tokens) matches Some(token) && token.token_type.is_multiplicative(),
        unary_expr(tokens, c.step(tokens)).value is Some,
    ensures
        mult_tail(tokens, c, left) == mult_tail(
            tokens,
            unary_expr(tokens, c.step(tokens)).cursor,
            binary(
                left,
                c.token(tokens)->0.token_type,
                unary_expr(tokens, c.step(tokens)).value->0,
                c.token(tokens)->0.span,
            ),
        ),
{
    lemma_unary_expr(tokens, c.step(tokens));
}

/// The integer literal that a token is, as an expression.
pub open spec fn literal(token: TokenView) -> ExprView {
    ExprView::IntegerLiteral { value: token.token_type->IntegerLiteral_0, span: token.span }
}

/// Whether an expression can go on with the token: whether it is a dot or a binary
/// operator.
pub open spec fn continues(token: TokenView) -> bool {
    token.token_type is Dot || token.token_type.is_binary_operator()
}

/// An integer literal that no dot follows is a unary expression of its own.
pub proof fn lemma_literal_is_an_operand(tokens: Seq<TokenView>, c: Cursor)
    requires
        c.token(tokens) matches Some(token) && token.token_type is IntegerLiteral,
        !(c.token_ahead(tokens, 1) matches Some(next) && next.token_type is Dot),
    ensures
        unary_expr(tokens, c) == done(
            literal(c.token(tokens)->0),
            c.step(tokens),
        ),
{
    let value = literal(c.token(tokens)->0);
    let behind = c.step(tokens);
    assert(behind.token(tokens) == c.token_ahead(tokens, 1));
    assert(primary_expr(tokens, c) == done(value, behind));
    assert(call_tail(tokens, behind, value) == done(value, behind));
    assert(call_expr(tokens, c) == done(value, behind));
}

/// Multiplication binds tighter than addition: `a + b * c`, with integer literals for `a`,
/// `b` and `c` and followed by a token with which the expression cannot go on, is the sum
/// of `a` and the product of `b` and `c`.
pub proof fn law_product_binds_tighter_than_sum(tokens: Seq<TokenView>, c: Cursor)
    requires
        c.token(tokens) matches Some(t) && t.token_type is IntegerLiteral,
        c.token_ahead(tokens, 1) matches Some(t) && t.token_type is Plus,
        c.token_ahead(tokens, 2) matches Some(t) && t.token_type is IntegerLiteral,
        c.token_ahead(tokens, 3) matches Some(t) && t.token_type is Star,
        c.token_ahead(tokens, 4) matches Some(t) && t.token_type is IntegerLiteral,
        c.token_ahead(tokens, 5) matches Some(t) && !continues(t),
    ensures
        expr(tokens, c) == done(
            binary(
                literal(c.token(tokens)->0),
                TokenTypeView::Plus,
                binary(
                    literal(c.token_ahead(tokens, 2)->0),
                    TokenTypeView::Star,
                    literal(c.token_ahead(tokens, 4)->0),
                    c.token_ahead(tokens, 3)->0.span,
                ),
                c.token_ahead(tokens, 5)->0.span,
            ),
            Cursor { position: c.position + 5, errors: c.errors },
        ),
{
    let at = |k: nat| Cursor { position: c.position + k, errors: c.errors };
    assert(c == at(0));
    assert(at(0).step(tokens) == at(1));
    assert(at(1).step(tokens) == at(2));
    assert(at(2).step(tokens) == at(3));
    assert(at(3).step(tokens) == at(4));
    assert(at(4).step(tokens) == at(5));
    assert(at(0).token_ahead(tokens, 1) == c.token_ahead(tokens, 1));
    assert(at(2).token_ahead(tokens, 1) == c.token_ahead(tokens, 3));
    assert(at(4).token_ahead(tokens, 1) == c.token_ahead(tokens, 5));
    assert(at(1).token(tokens) == c.token_ahead(tokens, 1));
    assert(at(3).token(tokens) == c.token_ahead(tokens, 3));
    assert(at(5).token(tokens) == c.token_ahead(tokens, 5));
    let a = literal(c.token(tokens)->0);
    let b = literal(c.token_ahead(tokens, 2)->0);
    let d = literal(c.token_ahead(tokens, 4)->0);
    let star = c.token_ahead(tokens, 3)->0;
    let end = c.token_ahead(tokens, 5)->0;
    lemma_literal_is_an_operand(tokens, at(0));
    lemma_literal_is_an_operand(tokens, at(2));
    lemma_literal_is_an_operand(tokens, at(4));
    let product = binary(b, TokenTypeView::Star, d, star.span);
    let sum = binary(a, TokenTypeView::Plus, product, end.span);
    assert(mult_tail(tokens, at(1), a) == done(a, at(1)));
    assert(mult_expr(tokens, at(0)) == done(a, at(1)));
    assert(mult_tail(tokens, at(5), product) == done(product, at(5)));
    assert(mult_tail(tokens, at(3), b) == mult_tail(tokens, at(5), product));
    assert(mult_expr(tokens, at(2)) == done(product, at(5)));
    assert(add_tail(tokens, at(5), sum) == done(sum, at(5)));
    assert(add_tail(tokens, at(1), a) == add_tail(tokens, at(5), sum));
    let whole = done(sum, at(5));
    assert(add_expr(tokens, c) == whole);
    assert(comparison_tail(tokens, at(5), sum) == whole);
    assert(comparison_expr(tokens, c) == whole);
    assert(and_tail(tokens, at(5), sum) == whole);
    assert(and_expr(tokens, c) == whole);
    assert(or_tail(tokens, at(5), sum) == whole);
    assert(or_expr(tokens, c) == whole);
}

/// Subtraction associates to the left: `a - b - c`, with integer literals for `a`, `b` and
/// `c` and followed by a token with which the expression cannot go on, is the difference
/// of the difference of `a` and `b`, and `c`.
pub proof fn law_difference_associates_to_the_left(tokens: Seq<TokenView>, c: Cursor)
    requires
        c.token(tokens) matches Some(t) && t.token_type is IntegerLiteral,
        c.token_ahead(tokens, 1) matches Some(t) && t.token_type is Minus,
        c.token_ahead(tokens, 2) matches Some(t) && t.token_type is IntegerLiteral,
        c.token_ahead(tokens, 3) matches Some(t) && t.token_type is Minus,
        c.token_ahead(tokens, 4) matches Some(t) && t.token_type is IntegerLiteral,
        c.token_ahead(tokens, 5) matches Some(t) && !continues(t),
    ensures
        expr(tokens, c) == done(
            binary(
                binary(
                    literal(c.token(tokens)->0),
                    TokenTypeView::Minus,
                    literal(c.token_ahead(tokens, 2)->0),
                    c.token_ahead(tokens, 3)->0.span,
                ),
                TokenTypeView::Minus,
                literal(c.token_ahead(tokens, 4)->0),
                c.token_ahead(tokens, 5)->0.span,
            ),
            Cursor { position: c.position + 5, errors: c.errors },
        ),
{
    let at = |k: nat| Cursor { position: c.position + k, errors: c.errors };
    assert(c == at(0));
    assert(at(0).step(tokens) == at(1));
    assert(at(1).step(tokens) == at(2));
    assert(at(2).step(tokens) == at(3));
    assert(at(3).step(tokens) == at(4));
    assert(at(4).step(tokens) == at(5));
    assert(at(0).token_ahead(tokens, 1) == c.token_ahead(tokens, 1));
    assert(at(2).token_ahead(tokens, 1) == c.token_ahead(tokens, 3));
    assert(at(4).token_ahead(tokens, 1) == c.token_ahead(tokens, 5));
    assert(at(1).token(tokens) == c.token_ahead(tokens, 1));
    assert(at(3).token(tokens) == c.token_ahead(tokens, 3));
    assert(at(5).token(tokens) == c.token_ahead(tokens, 5));
    let a = literal(c.token(tokens)->0);
    let b = literal(c.token_ahead(tokens, 2)->0);
    let d = literal(c.token_ahead(tokens, 4)->0);
    let second = c.token_ahead(tokens, 3)->0;
    let end = c.token_ahead(tokens, 5)->0;
    lemma_literal_is_an_operand(tokens, at(0));
    lemma_literal_is_an_operand(tokens, at(2));
    lemma_literal_is_an_operand(tokens, at(4));
    let inner = binary(a, TokenTypeView::Minus, b, second.span);
    let outer = binary(inner, TokenTypeView::Minus, d, end.span);
    assert(mult_tail(tokens, at(1), a) == done(a, at(1)));
    assert(mult_expr(tokens, at(0)) == done(a, at(1)));
    assert(mult_tail(tokens, at(3), b) == done(b, at(3)));
    assert(mult_expr(tokens, at(2)) == done(b, at(3)));
    assert(mult_tail(tokens, at(5), d) == done(d, at(5)));
    assert(mult_expr(tokens, at(4)) == done(d, at(5)));
    assert(add_tail(tokens, at(5), outer) == done(outer, at(5)));
    assert(add_tail(tokens, at(3), inner) == add_tail(tokens, at(5), outer));
    assert(add_tail(tokens, at(1), a) == add_tail(tokens, at(3), inner));
    let whole = done(outer, at(5));
    assert(add_expr(tokens, c) == whole);
    assert(comparison_tail(tokens, at(5), outer) == whole);
    assert(comparison_expr(tokens, c) == whole);
    assert(and_tail(tokens, at(5), outer) == whole);
    assert(and_expr(tokens, c) == whole);
    assert(or_tail(tokens, at(5), outer) == whole);
    assert(or_expr(tokens, c) == whole);
}

/// A statement that starts with a name, a dot and a name is told by the token behind them:
/// a `(` makes it an expression, which here is a call of a method.
pub proof fn law_method_call_is_an_expression(tokens: Seq<TokenView>, c: Cursor)
    requires
        c.token(tokens) matches Some(first) && first.token_type is Identifier,
        c.token_ahead(tokens, 1) matches Some(second) && second.token_type is Dot,
        c.token_ahead(tokens, 3) matches Some(fourth) && fourth.token_type is LeftParen,
    ensures
        stmt(tokens, c) == expr_stmt(tokens, c),
{
    reveal(dotted_stmt);
}

/// A statement that starts with a name, a dot, a name and `=` is the assignment of what
/// follows to the field, written down by its dotted name.
pub proof fn law_field_assignment_is_an_assignment(tokens: Seq<TokenView>, c: Cursor)
    requires
        c.token(tokens) matches Some(first) && first.token_type is Identifier,
        c.token_ahead(tokens, 1) matches Some(second) && second.token_type is Dot,
        c.token_ahead(tokens, 2) matches Some(third) && third.token_type is Identifier,
        c.token_ahead(tokens, 3) matches Some(fourth) && fourth.token_type is Assign,
    ensures
        stmt(tokens, c) == assigned(
            tokens,
            Cursor { position: c.position + 4, errors: c.errors },
            c.token(tokens)->0.token_type->Identifier_0 + "."@ + c.token_ahead(
                tokens,
                2,
            )->0.token_type->Identifier_0,
            c.token(tokens)->0.span,
        ),
{
    reveal(dotted_stmt);
    reveal(field_assign);
    reveal(chain);
    let object = c.token(tokens)->0;
    let dot = c.token_ahead(tokens, 1)->0;
    let member = c.token_ahead(tokens, 2)->0;
    let at_dot = c.step(tokens);
    let at_member = at_dot.step(tokens);
    let at_sign = at_member.step(tokens);
    assert(at_dot.token(tokens) == Some(dot));
    assert(at_member.token(tokens) == Some(member));
    assert(at_sign.token(tokens) == c.token_ahead(tokens, 3));
    let variable = ExprView::Variable {
        name: object.token_type->Identifier_0,
        span: object.span,
    };
    assert(name_expr(tokens, at_dot, object.token_type->Identifier_0, object.span)
        == done(variable, at_dot));
    assert(primary_expr(tokens, c) == done(variable, at_dot));
    let field = ExprView::Field {
        object: Box::new(variable),
        field: member.token_type->Identifier_0,
        span: dot.span,
    };
    assert(call_tail(tokens, at_sign, field) == done(field, at_sign));
    assert(call_tail(tokens, at_dot, variable) == call_tail(tokens, at_sign, field));
    assert(call_expr(tokens, c) == done(field, at_sign));
    assert(dotted_name(variable) == Some(object.token_type->Identifier_0));
    assert(field_path(field) == Some(
        object.token_type->Identifier_0 + "."@ + member.token_type->Identifier_0,
    ));
}

/// A statement that starts with a chain of three names joined by dots and `=` is the
/// assignment of what follows to the innermost field, written down by the dotted name of
/// the whole chain.
pub proof fn law_nested_field_assignment_is_an_assignment(tokens: Seq<TokenView>, c: Cursor)
    requires
        c.token(tokens) matches Some(t) && t.token_type is Identifier,
        c.token_ahead(tokens, 1) matches Some(t) && t.token_type is Dot,
        c.token_ahead(tokens, 2) matches Some(t) && t.token_type is Identifier,
        c.token_ahead(tokens, 3) matches Some(t) && t.token_type is Dot,
        c.token_ahead(tokens, 4) matches Some(t) && t.token_type is Identifier,
        c.token_ahead(tokens, 5) matches Some(t) && t.token_type is Assign,
    ensures
        stmt(tokens, c) == assigned(
            tokens,
            Cursor { position: c.position + 6, errors: c.errors },
            c.token(tokens)->0.token_type->Identifier_0 + "."@ + c.token_ahead(
                tokens,
                2,
            )->0.token_type->Identifier_0 + "."@ + c.token_ahead(
                tokens,
                4,
            )->0.token_type->Identifier_0,
            c.token(tokens)->0.span,
        ),
{
    reveal(dotted_stmt);
    reveal(field_assign);
    reveal(chain);
    let at = |k: nat| Cursor { position: c.position + k, errors: c.errors };
    assert(c == at(0));
    assert(at(0).step(tokens) == at(1));
    assert(at(1).step(tokens) == at(2));
    assert(at(2).step(tokens) == at(3));
    assert(at(3).step(tokens) == at(4));
    assert(at(4).step(tokens) == at(5));
    assert(at(5).step(tokens) == at(6));
    assert(at(1).token(tokens) == c.token_ahead(tokens, 1));
    assert(at(2).token(tokens) == c.token_ahead(tokens, 2));
    assert(at(3).token(tokens) == c.token_ahead(tokens, 3));
    assert(at(4).token(tokens) == c.token_ahead(tokens, 4));
    assert(at(5).token(tokens) == c.token_ahead(tokens, 5));
    let first = c.token(tokens)->0;
    let second = c.token_ahead(tokens, 2)->0;
    let third = c.token_ahead(tokens, 4)->0;
    let variable = ExprView::Variable { name: first.token_type->Identifier_0, span: first.span };
    let outer = ExprView::Field {
        object: Box::new(variable),
        field: second.token_type->Identifier_0,
        span: c.token_ahead(tokens, 1)->0.span,
    };
    let inner = ExprView::Field {
        object: Box::new(outer),
        field: third.token_type->Identifier_0,
        span: c.token_ahead(tokens, 3)->0.span,
    };
    assert(name_expr(tokens, at(1), first.token_type->Identifier_0, first.span) == done(
        variable,
        at(1),
    ));
    assert(primary_expr(tokens, c) == done(variable, at(1)));
    assert(call_tail(tokens, at(5), inner) == done(inner, at(5)));
    assert(call_tail(tokens, at(3), outer) == call_tail(tokens, at(5), inner));
    assert(call_tail(tokens, at(1), variable) == call_tail(tokens, at(3), outer));
    assert(call_expr(tokens, c) == done(inner, at(5)));
    assert(dotted_name(variable) == Some(first.token_type->Identifier_0));
    assert(dotted_name(outer) == Some(
        first.token_type->Identifier_0 + "."@ + second.token_type->Identifier_0,
    ));
    assert(field_path(inner) == Some(
        first.token_type->Identifier_0 + "."@ + second.token_type->Identifier_0 + "."@
            + third.token_type->Identifier_0,
    ));
}

/// A method whose name is missing is recorded twice where the name should stand: as a
/// mismatch, and as a method of the class without a name.
pub proof fn law_unnamed_method_is_recorded(tokens: Seq<TokenView>, c: Cursor, class_name: Seq<char>)
    requires
        c.token(tokens) matches Some(t) && !(t.token_type is Identifier),
    ensures
        method_name(tokens, c, class_name) == fail::<Seq<char>>(
            c.note(
                mismatch(TokenTypeView::Identifier("method name"@).text(), c.token(tokens)->0),
            ).note(
                ParseErrorView::ExpectedMethName {
                    symbol: class_name,
                    span: c.token(tokens)->0.span,
                },
            ),
        ),
{
    reveal(method_name);
}

/// A method that cannot be read ends the methods of its class: it is recorded at its
/// `meth` as a method without a name, parsing resumes at the next class-body boundary, and
/// the methods read before are all that is left of the class, which is not complete.
pub proof fn law_unreadable_method_ends_the_class(
    tokens: Seq<TokenView>,
    c: Cursor,
    class_name: Seq<char>,
    items: Seq<MethDefView>,
)
    requires
        c.token(tokens) matches Some(t) && t.token_type is Meth,
        method(tokens, c, class_name).value is None,
    ensures
        methods_tail(tokens, c, class_name, items) == (Methods {
            items,
            cursor: synchronize(
                tokens,
                method(tokens, c, class_name).cursor.note(
                    ParseErrorView::ExpectedMethName {
                        symbol: class_name,
                        span: c.token(tokens)->0.span,
                    },
                ),
                SyncPoint::ClassBody,
            ),
            complete: false,
        }),
{
}

/// A comma in an argument list that no expression follows is recorded at the comma, and
/// the list goes on behind it with the arguments it has.
pub proof fn law_comma_without_expression_is_recorded(
    tokens: Seq<TokenView>,
    c: Cursor,
    items: Seq<ExprView>,
)
    requires
        c.token(tokens) matches Some(comma) && comma.token_type is Comma,
        expr(tokens, c.step(tokens)).value is None,
    ensures
        comma_tail(tokens, c, items) == comma_tail(
            tokens,
            expr(tokens, c.step(tokens)).cursor.note(
                ParseErrorView::ExpectedExpressionAfterComma {
                    symbol: TokenTypeView::Comma.text(),
                    span: c.token(tokens)->0.span,
                },
            ),
            items,
        ),
{
    lemma_expr(tokens, c.step(tokens));
}

/// The diagnostic for the comma `comma` that no expression follows.
pub open spec fn bare_comma(comma: TokenView) -> ParseErrorView {
    ParseErrorView::ExpectedExpressionAfterComma {
        symbol: TokenTypeView::Comma.text(),
        span: comma.span,
    }
}

/// The state behind the comma at `c` and what follows it: behind the expression if one
/// follows, and else where the attempt to read one ended, with the comma recorded.
pub open spec fn behind_comma(tokens: Seq<TokenView>, c: Cursor) -> Cursor {
    let next = expr(tokens, c.step(tokens));
    if next.value is Some {
        next.cursor
    } else {
        next.cursor.note(bare_comma(tokens[c.position as int]))
    }
}

/// The state in front of the token that ends the rest of an argument list from `c` on:
/// the first token behind an argument that is no comma, or the end of the stream.
pub open spec fn list_end(tokens: Seq<TokenView>, c: Cursor) -> Cursor
    decreases c.left(tokens),
{
    match c.token(tokens) {
        Some(token) => if token.token_type is Comma {
            proof {
                lemma_expr(tokens, c.step(tokens));
            }
            list_end(tokens, behind_comma(tokens, c))
        } else {
            c
        },
        None => c,
    }
}

/// The arguments of the rest of an argument list from `c` on: the expressions that follow
/// its commas, in the order of the source.
pub open spec fn list_values(tokens: Seq<TokenView>, c: Cursor) -> Seq<ExprView>
    decreases c.left(tokens),
{
    match c.token(tokens) {
        Some(token) => if token.token_type is Comma {
            proof {
                lemma_expr(tokens, c.step(tokens));
            }
            (match expr(tokens, c.step(tokens)).value {
                Some(value) => seq![value],
                None => Seq::empty(),
            }) + list_values(tokens, behind_comma(tokens, c))
        } else {
            Seq::empty()
        },
        None => Seq::empty(),
    }
}

/// The diagnostics for the commas of the rest of an argument list from `c` on that no
/// expression follows, one for each such comma and none for any other, in the order of the
/// source.
pub open spec fn bare_commas(tokens: Seq<TokenView>, c: Cursor) -> Seq<ParseErrorView>
    decreases c.left(tokens),
{
    match c.token(tokens) {
        Some(token) => if token.token_type is Comma {
            proof {
                lemma_expr(tokens, c.step(tokens));
            }
            (if expr(tokens, c.step(tokens)).value is None {
                seq![bare_comma(token)]
            } else {
                Seq::empty()
            }) + bare_commas(tokens, behind_comma(tokens, c))
        } else {
            Seq::empty()
        },
        None => Seq::empty(),
    }
}

/// Whether the attempts to read the arguments of the rest of an argument list from `c` on
/// record nothing themselves, whether they yield an argument or not.
pub open spec fn arguments_record_nothing(tokens: Seq<TokenView>, c: Cursor) -> bool
    decreases c.left(tokens),
{
    match c.token(tokens) {
        Some(token) => if token.token_type is Comma {
            proof {
                lemma_expr(tokens, c.step(tokens));
            }
            &&& expr(tokens, c.step(tokens)).cursor.errors == c.errors
            &&& arguments_record_nothing(tokens, behind_comma(tokens, c))
        } else {
            true
        },
        None => true,
    }
}

/// The rest of an argument list that a `)` closes yields exactly the arguments read before
/// and the expressions that follow its commas, in the order of the source, and leaves the
/// cursor just behind the `)`. The state in front of the `)` is the one that the commas and
/// their expressions leave, each comma that no expression follows recorded behind what the
/// attempt to read one recorded.
pub proof fn law_rest_of_argument_list(tokens: Seq<TokenView>, c: Cursor, items: Seq<ExprView>)
    requires
        list_end(tokens, c).at(tokens, TokenTypeView::RightParen),
    ensures
        comma_tail(tokens, c, items).items == items + list_values(tokens, c),
        comma_tail(tokens, c, items).cursor == list_end(tokens, c).step(tokens),
    decreases c.left(tokens),
{
    match c.token(tokens) {
        Some(token) => {
            if token.token_type is Comma {
                lemma_expr(tokens, c.step(tokens));
                let next = expr(tokens, c.step(tokens));
                let behind = behind_comma(tokens, c);
                match next.value {
                    Some(value) => {
                        law_rest_of_argument_list(tokens, behind, items.push(value));
                        assert(items.push(value) + list_values(tokens, behind) =~= items + (seq![
                            value,
                        ] + list_values(tokens, behind)));
                    },
                    None => {
                        law_rest_of_argument_list(tokens, behind, items);
                        assert(items + list_values(tokens, behind) =~= items + (Seq::<
                            ExprView,
                        >::empty() + list_values(tokens, behind)));
                    },
                }
            } else {
                assert(items + list_values(tokens, c) =~= items);
            }
        },
        None => {},
    }
}

/// The rest of an argument list that no `)` closes ends in front of the token that is
/// neither a comma nor a `)`, with that token recorded as unexpected, or at the end of the
/// stream; the arguments are those read up to there.
pub proof fn law_rest_of_open_argument_list(
    tokens: Seq<TokenView>,
    c: Cursor,
    items: Seq<ExprView>,
)
    requires
        !list_end(tokens, c).at(tokens, TokenTypeView::RightParen),
    ensures
        comma_tail(tokens, c, items).items == items + list_values(tokens, c),
        comma_tail(tokens, c, items).cursor == (match list_end(tokens, c).token(tokens) {
            Some(token) => list_end(tokens, c).note(
                ParseErrorView::UnexpectedToken {
                    symbol: token.token_type.text(),
                    span: token.span,
                },
            ),
            None => list_end(tokens, c),
        }),
    decreases c.left(tokens),
{
    match c.token(tokens) {
        Some(token) => {
            if token.token_type is Comma {
                lemma_expr(tokens, c.step(tokens));
                let next = expr(tokens, c.step(tokens));
                let behind = behind_comma(tokens, c);
                match next.value {
                    Some(value) => {
                        law_rest_of_open_argument_list(tokens, behind, items.push(value));
                        assert(items.push(value) + list_values(tokens, behind) =~= items + (seq![
                            value,
                        ] + list_values(tokens, behind)));
                    },
                    None => {
                        law_rest_of_open_argument_list(tokens, behind, items);
                        assert(items + list_values(tokens, behind) =~= items + (Seq::<
                            ExprView,
                        >::empty() + list_values(tokens, behind)));
                    },
                }
            } else {
                assert(items + list_values(tokens, c) =~= items);
            }
        },
        None => {
            assert(items + list_values(tokens, c) =~= items);
        },
    }
}

/// Where the attempts to read the arguments record nothing themselves, the rest of an
/// argument list records exactly one diagnostic for each comma that no expression follows,
/// with the position of that comma, and none for any other comma, in the order of the
/// source.
pub proof fn law_bare_commas_are_recorded(tokens: Seq<TokenView>, c: Cursor)
    requires
        arguments_record_nothing(tokens, c),
    ensures
        list_end(tokens, c).errors == c.errors + bare_commas(tokens, c),
    decreases c.left(tokens),
{
    match c.token(tokens) {
        Some(token) => {
            if token.token_type is Comma {
                lemma_expr(tokens, c.step(tokens));
                let next = expr(tokens, c.step(tokens));
                let behind = behind_comma(tokens, c);
                law_bare_commas_are_recorded(tokens, behind);
                if next.value is None {
                    assert(behind.errors =~= c.errors + seq![bare_comma(token)]);
                    assert(behind.errors + bare_commas(tokens, behind) =~= c.errors + (seq![
                        bare_comma(token),
                    ] + bare_commas(tokens, behind)));
                } else {
                    assert(behind.errors + bare_commas(tokens, behind) =~= c.errors + (Seq::<
                        ParseErrorView,
                    >::empty() + bare_commas(tokens, behind)));
                }
            } else {
                assert(c.errors + bare_commas(tokens, c) =~= c.errors);
            }
        },
        None => {
            assert(c.errors + bare_commas(tokens, c) =~= c.errors);
        },
    }
}

/// An argument list that starts at its `(` and that a `)` closes yields exactly its first
/// argument, if it has one, and the expressions that follow its commas, in the order of
/// the source, and leaves the cursor just behind the `)`.
pub proof fn law_argument_list(tokens: Seq<TokenView>, c: Cursor)
    requires
        c.at(tokens, TokenTypeView::LeftParen),
        list_end(tokens, expr(tokens, c.step(tokens)).cursor).at(tokens, TokenTypeView::RightParen),
    ensures
        comma_expr(tokens, c).items == (match expr(tokens, c.step(tokens)).value {
            Some(first) => seq![first],
            None => Seq::empty(),
        }) + list_values(tokens, expr(tokens, c.step(tokens)).cursor),
        comma_expr(tokens, c).cursor == list_end(tokens, expr(tokens, c.step(tokens)).cursor).step(
            tokens,
        ),
{
    lemma_comma_expr_plain(tokens, c);
    let first = expr(tokens, c.step(tokens));
    law_rest_of_argument_list(
        tokens,
        first.cursor,
        match first.value {
            Some(value) => seq![value],
            None => Seq::empty(),
        },
    );
}

/// `class Name extends Parent {` is the head of a class of that name with that parent, and
/// records nothing.
pub proof fn law_inheritance_clause(tokens: Seq<TokenView>, c: Cursor)
    requires
        c.token(tokens) matches Some(t) && t.token_type is Class,
        c.token_ahead(tokens, 1) matches Some(t) && t.token_type is Identifier,
        c.token_ahead(tokens, 2) matches Some(t) && t.token_type is Extends,
        c.token_ahead(tokens, 3) matches Some(t) && t.token_type is Identifier,
        c.token_ahead(tokens, 4) matches Some(t) && t.token_type is LeftBrace,
    ensures
        class_head(tokens, c).value == Some(
            (
                c.token_ahead(tokens, 1)->0.token_type->Identifier_0,
                Some(c.token_ahead(tokens, 3)->0.token_type->Identifier_0),
            ),
        ),
        class_head(tokens, c).cursor == (Cursor { position: c.position + 5, errors: c.errors }),
{
    reveal(class_head);
    let at = |k: nat| Cursor { position: c.position + k, errors: c.errors };
    assert(c == at(0));
    assert(at(0).step(tokens) == at(1));
    assert(at(1).step(tokens) == at(2));
    assert(at(2).step(tokens) == at(3));
    assert(at(3).step(tokens) == at(4));
    assert(at(4).step(tokens) == at(5));
}

/// `super();` at the start of a constructor's body hands the empty expression alone to the
/// parent's constructor, and records nothing.
pub proof fn law_bare_super_call(tokens: Seq<TokenView>, c: Cursor)
    requires
        c.token(tokens) matches Some(first) && first.token_type is Super,
        c.token_ahead(tokens, 1) matches Some(second) && second.token_type is LeftParen,
        c.token_ahead(tokens, 2) matches Some(third) && third.token_type is RightParen,
        c.token_ahead(tokens, 3) matches Some(fourth) && fourth.token_type is Semicolon,
    ensures
        super_call(tokens, c).value == Some(Some(seq![ExprView::Empty])),
        super_call(tokens, c).cursor == (Cursor { position: c.position + 4, errors: c.errors }),
{
    reveal(super_call);
    let at_open = c.step(tokens);
    assert(at_open.token(tokens) == c.token_ahead(tokens, 1));
    assert(at_open.token_ahead(tokens, 1) == c.token_ahead(tokens, 2));
    let at_end = at_open.step(tokens).step(tokens);
    assert(at_end.token(tokens) == c.token_ahead(tokens, 3));
}

/// No statement starts at a `}` that another `}` follows: nothing is read and nothing
/// recorded.
pub proof fn lemma_no_statement_at_closing_brace(tokens: Seq<TokenView>, c: Cursor)
    requires
        c.token(tokens) matches Some(first) && first.token_type is RightBrace,
        c.token_ahead(tokens, 1) is Some,
    ensures
        statement(tokens, c) == fail::<StmtView>(c),
{
    reveal(statement);
    reveal(expr_stmt);
    reveal(expression);
    let nothing = fail::<ExprView>(c);
    assert(primary_expr(tokens, c) == nothing);
    assert(call_expr(tokens, c) == nothing);
    assert(unary_expr(tokens, c) == nothing);
    assert(mult_expr(tokens, c) == nothing);
    assert(add_expr(tokens, c) == nothing);
    assert(comparison_expr(tokens, c) == nothing);
    assert(and_expr(tokens, c) == nothing);
    assert(or_expr(tokens, c) == nothing);
    assert(expr(tokens, c) == nothing);
}

/// The smallest class, `class Name { init() {} }`, is read as a class of that name without
/// a parent, without fields and methods, and with a constructor without parameters, call
/// of the parent's constructor and body; nothing is recorded.
pub proof fn law_minimal_class(tokens: Seq<TokenView>, c: Cursor)
    requires
        c.token(tokens) matches Some(t) && t.token_type is Class,
        c.token_ahead(tokens, 1) matches Some(t) && t.token_type is Identifier,
        c.token_ahead(tokens, 2) matches Some(t) && t.token_type is LeftBrace,
        c.token_ahead(tokens, 3) matches Some(t) && t.token_type is Init,
        c.token_ahead(tokens, 4) matches Some(t) && t.token_type is LeftParen,
        c.token_ahead(tokens, 5) matches Some(t) && t.token_type is RightParen,
        c.token_ahead(tokens, 6) matches Some(t) && t.token_type is LeftBrace,
        c.token_ahead(tokens, 7) matches Some(t) && t.token_type is RightBrace,
        c.token_ahead(tokens, 8) matches Some(t) && t.token_type is RightBrace,
    ensures
        class(tokens, c).value == Some(
            ClassDefView {
                name: c.token_ahead(tokens, 1)->0.token_type->Identifier_0,
                extends: None,
                vars: Seq::empty(),
                constructor: no_constructor(),
                methods: Seq::empty(),
            },
        ),
        class(tokens, c).cursor == (Cursor { position: c.position + 9, errors: c.errors }),
{
    reveal(class);
    reveal(class_head);
    reveal(constructor);
    reveal(comma_param_decl);
    reveal(super_call);
    let at = |k: nat| Cursor { position: c.position + k, errors: c.errors };
    assert(c == at(0));
    assert(at(0).step(tokens) == at(1));
    assert(at(1).step(tokens) == at(2));
    assert(at(2).step(tokens) == at(3));
    assert(at(3).step(tokens) == at(4));
    assert(at(4).step(tokens) == at(5));
    assert(at(5).step(tokens) == at(6));
    assert(at(6).step(tokens) == at(7));
    assert(at(7).step(tokens) == at(8));
    assert(at(8).step(tokens) == at(9));
    assert(at(4).token_ahead(tokens, 1) == c.token_ahead(tokens, 5));
    assert(at(7).token_ahead(tokens, 1) == c.token_ahead(tokens, 8));
    assert(class_head(tokens, c).cursor == at(3));
    lemma_no_statement_at_closing_brace(tokens, at(7));
    assert(constructor(tokens, at(3)) == done(
        no_constructor(),
        at(8),
    ));
    let name = c.token_ahead(tokens, 1)->0.token_type->Identifier_0;
    assert(methods_tail(tokens, at(8), name, Seq::empty()) == (Methods {
        items: Seq::empty(),
        cursor: at(8),
        complete: true,
    }));
}

/// `let name: Type;` at the top level is one statement, the declaration of that name with
/// that type, and records nothing.
pub proof fn law_declaration_is_one_statement(tokens: Seq<TokenView>, c: Cursor, entry: EntryView)
    requires
        c.token(tokens) matches Some(t) && t.token_type is Let,
        c.token_ahead(tokens, 1) matches Some(t) && t.token_type is Identifier,
        c.token_ahead(tokens, 2) matches Some(t) && t.token_type is Colon,
        c.token_ahead(tokens, 3) matches Some(t) && t.token_type is Type,
        c.token_ahead(tokens, 4) matches Some(t) && t.token_type is Semicolon,
    ensures
        top_level(tokens, c, entry).cursor == (Cursor {
            position: c.position + 5,
            errors: c.errors,
        }),
        top_level(tokens, c, entry).entry == (EntryView {
            statements: entry.statements.push(
                StmtView::VarDecl {
                    name: c.token_ahead(tokens, 1)->0.token_type->Identifier_0,
                    var_type: c.token_ahead(tokens, 3)->0.token_type->Type_0,
                    span: c.token_ahead(tokens, 4)->0.span,
                },
            ),
            ..entry
        }),
{
    reveal(statement);
    reveal(var_decl);
    reveal(declared);
    let at = |k: nat| Cursor { position: c.position + k, errors: c.errors };
    assert(c == at(0));
    assert(at(0).step(tokens) == at(1));
    assert(at(1).step(tokens) == at(2));
    assert(at(2).step(tokens) == at(3));
    assert(at(3).step(tokens) == at(4));
    assert(at(4).step(tokens) == at(5));
    assert(at(0).token_ahead(tokens, 1) == c.token_ahead(tokens, 1));
}

/// Whether the five tokens from index `from` on are `let name: Type;`.
pub open spec fn declaration_at(tokens: Seq<TokenView>, from: int) -> bool {
    &&& 0 <= from
    &&& from + 5 <= tokens.len()
    &&& tokens[from].token_type is Let
    &&& tokens[from + 1].token_type is Identifier
    &&& tokens[from + 2].token_type is Colon
    &&& tokens[from + 3].token_type is Type
    &&& tokens[from + 4].token_type is Semicolon
}

/// A program of two declarations, `let a: A; let b: B;`, is read as exactly two statements,
/// no class and no function, without a diagnostic.
pub proof fn law_two_declarations_are_two_statements(tokens: Seq<TokenView>)
    requires
        declaration_at(tokens, 0),
        declaration_at(tokens, 5),
        tokens.len() == 11,
        tokens[10].token_type is EOF,
    ensures
        program(tokens, Cursor::start()).entry.statements.len() == 2,
        program(tokens, Cursor::start()).entry.class_defs.len() == 0,
        program(tokens, Cursor::start()).entry.fun_defs.len() == 0,
        program(tokens, Cursor::start()).cursor.errors.len() == 0,
{
    let start = Cursor::start();
    let second = Cursor { position: 5, errors: start.errors };
    let end = Cursor { position: 10, errors: start.errors };
    law_declaration_is_one_statement(tokens, start, empty_entry());
    let first_read = top_level(tokens, start, empty_entry());
    assert(first_read.cursor == second);
    law_declaration_is_one_statement(tokens, second, first_read.entry);
    let second_read = top_level(tokens, second, first_read.entry);
    assert(second_read.cursor == end);
    assert(program_tail(tokens, end, second_read.entry) == (Program {
        entry: second_read.entry,
        cursor: end,
    }));
    assert(program_tail(tokens, second, first_read.entry) == program_tail(
        tokens,
        end,
        second_read.entry,
    ));
    assert(program_tail(tokens, start, empty_entry()) == program_tail(
        tokens,
        second,
        first_read.entry,
    ));
}

/// Parsing never stops at a fault: whatever the stream holds and however many diagnostics
/// are recorded on the way, the whole program is read, up to the end-of-input token or to
/// the end of the stream, and the diagnostics recorded before are still there, unchanged
/// and in front of the new ones.
pub proof fn law_program_is_read_to_its_end(tokens: Seq<TokenView>, c: Cursor)
    ensures
        onward(c, program(tokens, c).cursor),
        match program(tokens, c).cursor.token(tokens) {
            Some(token) => token.token_type is EOF,
            None => true,
        },
{
    lemma_read_to_end(tokens, c, empty_entry());
}

/// The rest of a program is read to its end, whatever was read before.
proof fn lemma_read_to_end(tokens: Seq<TokenView>, c: Cursor, entry: EntryView)
    ensures
        onward(c, program_tail(tokens, c, entry).cursor),
        match program_tail(tokens, c, entry).cursor.token(tokens) {
            Some(token) => token.token_type is EOF,
            None => true,
        },
    decreases c.left(tokens),
{
    match c.token(tokens) {
        Some(token) => {
            if !(token.token_type is EOF) {
                lemma_top_level(tokens, c, entry);
                let next = top_level(tokens, c, entry);
                lemma_read_to_end(tokens, next.cursor, next.entry);
            }
        },
        None => {},
    }
}

/// Whether the program `later` holds all that the program `earlier` holds, in the same
/// places.
pub open spec fn extends(earlier: EntryView, later: EntryView) -> bool {
    &&& starts(earlier.statements, later.statements)
    &&& starts(earlier.class_defs, later.class_defs)
    &&& starts(earlier.fun_defs, later.fun_defs)
}

/// What has been read stays read: the rest of a program only adds to the statements,
/// classes and functions read before, and leaves them in the order of the source.
pub proof fn law_constructs_are_kept(tokens: Seq<TokenView>, c: Cursor, entry: EntryView)
    ensures
        extends(entry, program_tail(tokens, c, entry).entry),
    decreases c.left(tokens),
{
    match c.token(tokens) {
        Some(token) => {
            if !(token.token_type is EOF) {
                lemma_top_level(tokens, c, entry);
                let next = top_level(tokens, c, entry);
                assert(extends(entry, next.entry));
                law_constructs_are_kept(tokens, next.cursor, next.entry);
                let rest = program_tail(tokens, next.cursor, next.entry).entry;
                assert(starts(entry.statements, rest.statements));
                assert(starts(entry.class_defs, rest.class_defs));
                assert(starts(entry.fun_defs, rest.fun_defs));
            }
        },
        None => {},
    }
}

/// A function that can be read where the parser stands is part of the program, whatever
/// was read or recorded before it and whatever follows it.
pub proof fn law_function_is_kept(tokens: Seq<TokenView>, c: Cursor, entry: EntryView)
    requires
        c.at(tokens, TokenTypeView::Fun),
        fun(tokens, c).value is Some,
    ensures
        program_tail(tokens, c, entry).entry.fun_defs.len() > entry.fun_defs.len(),
        program_tail(tokens, c, entry).entry.fun_defs[entry.fun_defs.len() as int] == fun(
            tokens,
            c,
        ).value->0,
{
    lemma_top_level(tokens, c, entry);
    let next = top_level(tokens, c, entry);
    let read = fun(tokens, c).value->0;
    assert(next.entry.fun_defs == entry.fun_defs.push(read));
    assert(next.entry.fun_defs[entry.fun_defs.len() as int] == read);
    law_constructs_are_kept(tokens, next.cursor, next.entry);
}

/// A class that cannot be read leaves at least one diagnostic, adds nothing to the program,
/// and does not keep the parser from reading what follows it.
pub proof fn law_failed_class_is_recorded_and_passed(
    tokens: Seq<TokenView>,
    c: Cursor,
    entry: EntryView,
)
    requires
        c.at(tokens, TokenTypeView::Class),
        class(tokens, c).value is None,
    ensures
        class(tokens, c).cursor.errors.len() > c.errors.len(),
        class(tokens, c).cursor.position > c.position,
        program_tail(tokens, c, entry) == program_tail(tokens, class(tokens, c).cursor, entry),
{
    lemma_class(tokens, c);
    lemma_failed_class(tokens, c);
}

/// A class that cannot be read does not hide a function that follows it: where the class
/// leaves the cursor at a function that can be read, the program holds that function, and
/// at least one diagnostic more than before is recorded at its end.
pub proof fn law_function_behind_failed_class_is_kept(
    tokens: Seq<TokenView>,
    c: Cursor,
    entry: EntryView,
)
    requires
        c.at(tokens, TokenTypeView::Class),
        class(tokens, c).value is None,
        class(tokens, c).cursor.at(tokens, TokenTypeView::Fun),
        fun(tokens, class(tokens, c).cursor).value is Some,
    ensures
        program_tail(tokens, c, entry).entry.fun_defs.len() > entry.fun_defs.len(),
        program_tail(tokens, c, entry).entry.fun_defs[entry.fun_defs.len() as int] == fun(
            tokens,
            class(tokens, c).cursor,
        ).value->0,
        program_tail(tokens, c, entry).entry.class_defs.len() >= entry.class_defs.len(),
        program_tail(tokens, c, entry).cursor.errors.len() > c.errors.len(),
{
    let behind = class(tokens, c).cursor;
    law_failed_class_is_recorded_and_passed(tokens, c, entry);
    law_function_is_kept(tokens, behind, entry);
    law_constructs_are_kept(tokens, behind, entry);
    lemma_read_to_end(tokens, behind, entry);
}

/// Two functions one behind the other are both part of the program, in the order of the
/// source.
pub proof fn law_two_functions_are_kept(tokens: Seq<TokenView>, c: Cursor, entry: EntryView)
    requires
        c.at(tokens, TokenTypeView::Fun),
        fun(tokens, c).value is Some,
        fun(tokens, c).cursor.at(tokens, TokenTypeView::Fun),
        fun(tokens, fun(tokens, c).cursor).value is Some,
    ensures
        program_tail(tokens, c, entry).entry.fun_defs.len() >= entry.fun_defs.len() + 2,
        program_tail(tokens, c, entry).entry.fun_defs[entry.fun_defs.len() as int] == fun(
            tokens,
            c,
        ).value->0,
        program_tail(tokens, c, entry).entry.fun_defs[(entry.fun_defs.len() + 1) as int] == fun(
            tokens,
            fun(tokens, c).cursor,
        ).value->0,
{
    lemma_top_level(tokens, c, entry);
    let next = top_level(tokens, c, entry);
    let first = fun(tokens, c).value->0;
    assert(next.entry.fun_defs == entry.fun_defs.push(first));
    assert(next.entry.fun_defs[entry.fun_defs.len() as int] == first);
    law_function_is_kept(tokens, next.cursor, next.entry);
    law_constructs_are_kept(tokens, next.cursor, next.entry);
}

/// Methods that end with one that cannot be read leave at least one diagnostic.
proof fn lemma_incomplete_methods(
    tokens: Seq<TokenView>,
    c: Cursor,
    class_name: Seq<char>,
    items: Seq<MethDefView>,
)
    ensures
        !methods_tail(tokens, c, class_name, items).complete ==> methods_tail(
            tokens,
            c,
            class_name,
            items,
        ).cursor.errors.len() > c.errors.len(),
    decreases c.left(tokens),
{
    match c.token(tokens) {
        Some(token) => {
            if token.token_type is Meth {
                lemma_method(tokens, c, class_name);
                let next = method(tokens, c, class_name);
                match next.value {
                    Some(definition) => {
                        lemma_incomplete_methods(
                            tokens,
                            next.cursor,
                            class_name,
                            items.push(definition),
                        );
                    },
                    None => {
                        lemma_synchronize(
                            tokens,
                            next.cursor.note(
                                ParseErrorView::ExpectedMethName {
                                    symbol: class_name,
                                    span: token.span,
                                },
                            ),
                            SyncPoint::ClassBody,
                        );
                    },
                }
            }
        },
        None => {},
    }
}

/// A class that cannot be read leaves at least one diagnostic.
proof fn lemma_failed_class(tokens: Seq<TokenView>, c: Cursor)
    ensures
        class(tokens, c).value is None ==> class(tokens, c).cursor.errors.len() > c.errors.len(),
{
    reveal(class);
    reveal(class_head);
    lemma_class_head(tokens, c);
    let head = class_head(tokens, c);
    match head.value {
        Some((name, extends)) => {
            lemma_constructor(tokens, head.cursor);
            let built = constructor(tokens, head.cursor);
            lemma_methods_tail(tokens, built.cursor, name, Seq::empty());
            lemma_incomplete_methods(tokens, built.cursor, name, Seq::empty());
        },
        None => {},
    }
}

/// A class whose body does not start with `init` is no class: the first token of the body
/// is recorded as the place of the missing constructor, with the name of the class, and
/// nothing more is read.
pub proof fn law_missing_constructor(tokens: Seq<TokenView>, c: Cursor)
    requires
        class_head(tokens, c).value is Some,
        class_head(tokens, c).cursor.token(tokens) is Some,
        !(class_head(tokens, c).cursor.token(tokens)->0.token_type is Init),
    ensures
        class(tokens, c).value is None,
        match (class_head(tokens, c).value, class_head(tokens, c).cursor.token(tokens)) {
            (Some((name, parent)), Some(token)) => class(tokens, c).cursor == class_head(
                tokens,
                c,
            ).cursor.note(ParseErrorView::MissingClassInit { symbol: name, span: token.span }),
            _ => true,
        },
{
    reveal(class);
}

/// How many statements, classes and functions a program holds.
pub struct Counts {
    pub statements: nat,
    pub classes: nat,
    pub functions: nat,
}

/// How many constructs a program holds in all.
pub open spec fn constructs(entry: EntryView) -> nat {
    entry.statements.len() + entry.class_defs.len() + entry.fun_defs.len()
}

/// The stream from `c` on is a program without a fault: every construct up to the
/// end-of-input token can be read, and none records a diagnostic.
pub open spec fn reads_cleanly(tokens: Seq<TokenView>, c: Cursor) -> bool
    decreases c.left(tokens),
{
    match c.token(tokens) {
        Some(token) => token.token_type is EOF || {
            let next = top_level(tokens, c, empty_entry());
            proof {
                lemma_top_level(tokens, c, empty_entry());
            }
            &&& constructs(next.entry) == 1
            &&& next.cursor.errors == c.errors
            &&& reads_cleanly(tokens, next.cursor)
        },
        None => true,
    }
}

/// The constructs of the stream from `c` on, counted by how each starts: `class` starts a
/// class, `fun` a function, and any other token a statement.
pub open spec fn construct_counts(tokens: Seq<TokenView>, c: Cursor) -> Counts
    decreases c.left(tokens),
{
    match c.token(tokens) {
        Some(token) => if token.token_type is EOF {
            Counts { statements: 0, classes: 0, functions: 0 }
        } else {
            let next = top_level(tokens, c, empty_entry());
            proof {
                lemma_top_level(tokens, c, empty_entry());
            }
            let rest = construct_counts(tokens, next.cursor);
            if token.token_type is Class {
                Counts { classes: rest.classes + 1, ..rest }
            } else if token.token_type is Fun {
                Counts { functions: rest.functions + 1, ..rest }
            } else {
                Counts { statements: rest.statements + 1, ..rest }
            }
        },
        None => Counts { statements: 0, classes: 0, functions: 0 },
    }
}

/// A program without a fault is read without a diagnostic, and the result holds exactly as
/// many statements, classes and functions as the source has constructs of each kind.
pub proof fn law_clean_program(tokens: Seq<TokenView>, c: Cursor)
    requires
        reads_cleanly(tokens, c),
    ensures
        program(tokens, c).cursor.errors == c.errors,
        program(tokens, c).entry.statements.len() == construct_counts(tokens, c).statements,
        program(tokens, c).entry.class_defs.len() == construct_counts(tokens, c).classes,
        program(tokens, c).entry.fun_defs.len() == construct_counts(tokens, c).functions,
{
    lemma_clean_rest(tokens, c, empty_entry());
}

/// The rest of a program without a fault adds one construct for each construct of the
/// source, in its kind, and no diagnostic.
proof fn lemma_clean_rest(tokens: Seq<TokenView>, c: Cursor, entry: EntryView)
    requires
        reads_cleanly(tokens, c),
    ensures
        program_tail(tokens, c, entry).cursor.errors == c.errors,
        program_tail(tokens, c, entry).entry.statements.len() == entry.statements.len()
            + construct_counts(tokens, c).statements,
        program_tail(tokens, c, entry).entry.class_defs.len() == entry.class_defs.len()
            + construct_counts(tokens, c).classes,
        program_tail(tokens, c, entry).entry.fun_defs.len() == entry.fun_defs.len()
            + construct_counts(tokens, c).functions,
    decreases c.left(tokens),
{
    match c.token(tokens) {
        Some(token) => {
            if !(token.token_type is EOF) {
                lemma_top_level(tokens, c, entry);
                let next = top_level(tokens, c, entry);
                let alone = top_level(tokens, c, empty_entry());
                assert(next.cursor == alone.cursor);
                lemma_clean_rest(tokens, next.cursor, next.entry);
            }
        },
        None => {},
    }
}

} // verus!
