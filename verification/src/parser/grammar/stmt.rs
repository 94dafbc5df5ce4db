use vstd::prelude::*;
use crate::ast::{ExprView, StmtView};
use crate::lexer::{Span, TokenTypeView, TokenView};
use crate::parser::error::ParseErrorView;
use crate::parser::grammar::cursor::{
    consume, consume_identifier, consume_optional, consume_type, done, fail, mismatch, missing,
    Cursor, Parsed,
};
use crate::parser::grammar::expr::{chain, expression};
use crate::parser::grammar::forward::lemma_condition;

verus! {

/// What the inside of a block yields: the statements it read and the state it leaves.
pub struct Sequence {
    pub items: Seq<StmtView>,
    pub cursor: Cursor,
}

/// The dotted name of a chain of fields: `a.b.c` for the field `c` of the field `b` of the
/// variable `a`; the chain may start at `this`. Anything else has no such name.
pub open spec fn dotted_name(target: ExprView) -> Option<Seq<char>>
    decreases target,
{
    match target {
        ExprView::Variable { name, .. } => Some(name),
        ExprView::This { .. } => Some("this"@),
        ExprView::Field { object, field, .. } => match dotted_name(*object) {
            Some(prefix) => Some(prefix + "."@ + field),
            None => None,
        },
        _ => None,
    }
}

/// The dotted name of the target of a field assignment: the target has to be a field.
pub open spec fn field_path(target: ExprView) -> Option<Seq<char>> {
    if target is Field {
        dotted_name(target)
    } else {
        None
    }
}

/// An expression standing as a statement. It takes the position of the token after it, so
/// one must follow.
#[verifier::opaque]
pub open spec fn expr_stmt(tokens: Seq<TokenView>, c: Cursor) -> Parsed<StmtView> {
    let value = expression(tokens, c);
    match (value.value, value.cursor.span(tokens)) {
        (Some(e), Some(span)) => done(StmtView::Expr { expr: Box::new(e), span }, value.cursor),
        _ => fail(value.cursor),
    }
}

/// The value of an assignment to `name` and the statement it makes; `start` is where the
/// statement began. A missing value is recorded at `start`.
#[verifier::opaque]
pub open spec fn assigned(tokens: Seq<TokenView>, c: Cursor, name: Seq<char>, start: Span) -> Parsed<
    StmtView,
> {
    let value = expression(tokens, c);
    match value.value {
        Some(e) => match value.cursor.span(tokens) {
            Some(span) => done(StmtView::Assign { name, expr: Box::new(e), span }, value.cursor),
            None => fail(value.cursor),
        },
        None => fail(value.cursor.note(missing("expression"@, Some(start)))),
    }
}

/// `name = value`.
#[verifier::opaque]
pub open spec fn var_assign(tokens: Seq<TokenView>, c: Cursor) -> Parsed<StmtView> {
    match c.token(tokens) {
        Some(token) => {
            let name = consume_identifier(tokens, c, "var_name"@);
            match name.value {
                Some(target) => {
                    let sign = consume(tokens, name.cursor, TokenTypeView::Assign);
                    if sign.value is None {
                        fail(sign.cursor)
                    } else {
                        assigned(tokens, sign.cursor, target, token.span)
                    }
                },
                None => fail(name.cursor),
            }
        },
        None => fail(c),
    }
}

/// `a.b.c = value`: the target is read as a chain of fields and written down as its dotted
/// name.
#[verifier::opaque]
pub open spec fn field_assign(tokens: Seq<TokenView>, c: Cursor) -> Parsed<StmtView> {
    match c.token(tokens) {
        Some(token) => {
            let target = chain(tokens, c);
            match target.value {
                Some(chain) => match field_path(chain) {
                    Some(name) => {
                        let sign = consume(tokens, target.cursor, TokenTypeView::Assign);
                        if sign.value is None {
                            fail(sign.cursor)
                        } else {
                            assigned(tokens, sign.cursor, name, token.span)
                        }
                    },
                    None => fail(target.cursor),
                },
                None => fail(target.cursor),
            }
        },
        None => fail(c),
    }
}

/// `return;` or `return value;`.
#[verifier::opaque]
pub open spec fn return_stmt(tokens: Seq<TokenView>, c: Cursor) -> Parsed<StmtView> {
    match c.span(tokens) {
        Some(span) => {
            let keyword = consume(tokens, c, TokenTypeView::Return);
            if keyword.value is None {
                fail(keyword.cursor)
            } else {
                let bare = consume_optional(tokens, keyword.cursor, TokenTypeView::Semicolon);
                match bare.value {
                    Some(end) => done(StmtView::Return { value: None, span: end.span }, bare.cursor),
                    None => {
                        let value = expression(tokens, bare.cursor);
                        match value.value {
                            Some(e) => {
                                let end = consume(tokens, value.cursor, TokenTypeView::Semicolon);
                                if end.value is None {
                                    fail(end.cursor)
                                } else {
                                    done(
                                        StmtView::Return { value: Some(Box::new(e)), span },
                                        end.cursor,
                                    )
                                }
                            },
                            None => fail(value.cursor),
                        }
                    },
                }
            }
        },
        None => fail(c),
    }
}

/// `break`. The token is passed over whatever it is: the rule is used where it is `break`.
#[verifier::opaque]
pub open spec fn break_stmt(tokens: Seq<TokenView>, c: Cursor) -> Parsed<StmtView> {
    match c.span(tokens) {
        Some(span) => done(StmtView::Break { span }, c.step(tokens)),
        None => fail(c),
    }
}

/// What follows the type in a declaration of `name`: `;`, or `=`, a value and `;`. The
/// statement takes the position of that `;` or `=`. A `=` directly followed by `;` is an
/// error.
#[verifier::opaque]
pub open spec fn declared(
    tokens: Seq<TokenView>,
    c: Cursor,
    name: Seq<char>,
    var_type: crate::lexer::TypeNameView,
) -> Parsed<StmtView> {
    match c.token(tokens) {
        Some(token) => match token.token_type {
            TokenTypeView::Semicolon => done(
                StmtView::VarDecl { name, var_type, span: token.span },
                c.step(tokens),
            ),
            TokenTypeView::Assign => {
                let rest = c.step(tokens);
                match rest.token(tokens) {
                    Some(next) => if next.token_type is Semicolon {
                        fail(
                            rest.note(
                                ParseErrorView::ExpectedButFound {
                                    expected: "expression"@,
                                    found: "semicolon"@,
                                    span: Some(next.span),
                                },
                            ),
                        )
                    } else {
                        let value = expression(tokens, rest);
                        match value.value {
                            Some(e) => {
                                let end = consume(tokens, value.cursor, TokenTypeView::Semicolon);
                                if end.value is None {
                                    fail(end.cursor)
                                } else {
                                    done(
                                        StmtView::VarDeclWithAssign {
                                            name,
                                            var_type,
                                            expr: Box::new(e),
                                            span: token.span,
                                        },
                                        end.cursor,
                                    )
                                }
                            },
                            None => fail(value.cursor),
                        }
                    },
                    None => fail(rest),
                }
            },
            _ => fail(c.note(mismatch("semicolon or assign"@, token))),
        },
        None => fail(c),
    }
}

/// `let name: Type;` or `let name: Type = value;`.
#[verifier::opaque]
pub open spec fn var_decl(tokens: Seq<TokenView>, c: Cursor) -> Parsed<StmtView> {
    let keyword = consume(tokens, c, TokenTypeView::Let);
    if keyword.value is None {
        fail(keyword.cursor)
    } else {
        let name = consume_identifier(tokens, keyword.cursor, "var_name"@);
        match name.value {
            Some(variable) => {
                let colon = consume(tokens, name.cursor, TokenTypeView::Colon);
                if colon.value is None {
                    fail(colon.cursor)
                } else {
                    let var_type = consume_type(tokens, colon.cursor);
                    match var_type.value {
                        Some(declared_type) => declared(
                            tokens,
                            var_type.cursor,
                            variable,
                            declared_type,
                        ),
                        None => fail(var_type.cursor),
                    }
                }
            },
            None => fail(name.cursor),
        }
    }
}

/// The condition of a `while` or an `if` in its parentheses; `c` is behind the keyword. A
/// missing condition is recorded where it should stand.
#[verifier::opaque]
pub open spec fn condition(tokens: Seq<TokenView>, c: Cursor) -> Parsed<ExprView> {
    let open = consume(tokens, c, TokenTypeView::LeftParen);
    if open.value is None {
        fail(open.cursor)
    } else {
        let value = expression(tokens, open.cursor);
        match value.value {
            Some(e) => {
                let close = consume(tokens, value.cursor, TokenTypeView::RightParen);
                if close.value is None {
                    fail(close.cursor)
                } else {
                    done(e, close.cursor)
                }
            },
            None => fail(
                value.cursor.note(missing("expression"@, value.cursor.span(tokens))),
            ),
        }
    }
}

/// A statement. The kind is told from the next token, and after an identifier or `this`
/// from the tokens behind it: `name =` is an assignment; `name .` or `this .` is the
/// assignment of a field unless the third token after the first is `(`, which makes it an
/// expression. A statement needs two tokens to be left.
pub open spec fn stmt(tokens: Seq<TokenView>, c: Cursor) -> Parsed<StmtView>
    decreases c.left(tokens), 10nat,
{
    match (c.token(tokens), c.token_ahead(tokens, 1)) {
        (Some(token), Some(next)) => match token.token_type {
            TokenTypeView::Let => var_decl(tokens, c),
            TokenTypeView::Break => break_stmt(tokens, c),
            TokenTypeView::Return => return_stmt(tokens, c),
            TokenTypeView::If => if_stmt(tokens, c),
            TokenTypeView::While => while_stmt(tokens, c),
            TokenTypeView::LeftBrace => block(tokens, c),
            TokenTypeView::Identifier(_) => if next.token_type is Assign {
                var_assign(tokens, c)
            } else if next.token_type is Dot {
                dotted_stmt(tokens, c)
            } else {
                expr_stmt(tokens, c)
            },
            TokenTypeView::This => if next.token_type is Dot {
                dotted_stmt(tokens, c)
            } else {
                expr_stmt(tokens, c)
            },
            _ => expr_stmt(tokens, c),
        },
        _ => fail(c),
    }
}

/// A statement that starts with a name or `this` and a dot: the assignment of a field,
/// unless the third token after the first is `(`.
#[verifier::opaque]
pub open spec fn dotted_stmt(tokens: Seq<TokenView>, c: Cursor) -> Parsed<StmtView> {
    match c.token_ahead(tokens, 3) {
        Some(third) => if third.token_type is LeftParen {
            expr_stmt(tokens, c)
        } else {
            field_assign(tokens, c)
        },
        None => fail(c),
    }
}

/// `while (condition) body`; the body is any one statement. The statement takes the
/// position of the token after the body.
pub open spec fn while_stmt(tokens: Seq<TokenView>, c: Cursor) -> Parsed<StmtView>
    decreases c.left(tokens), 9nat,
{
    let keyword = consume(tokens, c, TokenTypeView::While);
    if keyword.value is None {
        fail(keyword.cursor)
    } else {
        let head = condition(tokens, keyword.cursor);
        proof {
            lemma_condition(tokens, keyword.cursor);
        }
        match head.value {
            Some(test) => {
                let body = stmt(tokens, head.cursor);
                match body.value {
                    Some(inner) => match body.cursor.span(tokens) {
                        Some(span) => done(
                            StmtView::While {
                                condition: Box::new(test),
                                body: Box::new(inner),
                                span,
                            },
                            body.cursor,
                        ),
                        None => fail(body.cursor),
                    },
                    None => fail(
                        body.cursor.note(missing("expression"@, body.cursor.span(tokens))),
                    ),
                }
            },
            None => fail(head.cursor),
        }
    }
}

/// One statement between braces, as the branches of an `if` are written. A missing
/// statement is recorded where it should stand.
pub open spec fn branch(tokens: Seq<TokenView>, c: Cursor) -> Parsed<StmtView>
    decreases c.left(tokens), 11nat,
{
    let open = consume(tokens, c, TokenTypeView::LeftBrace);
    if open.value is None {
        fail(open.cursor)
    } else {
        let body = stmt(tokens, open.cursor);
        match body.value {
            Some(inner) => {
                let close = consume(tokens, body.cursor, TokenTypeView::RightBrace);
                if close.value is None {
                    fail(close.cursor)
                } else {
                    done(inner, close.cursor)
                }
            },
            None => fail(body.cursor.note(missing("statement"@, body.cursor.span(tokens)))),
        }
    }
}

/// `if (condition) { statement }`, then `else { statement }` if `else` follows. The
/// statement takes the position of the token after it.
pub open spec fn if_stmt(tokens: Seq<TokenView>, c: Cursor) -> Parsed<StmtView>
    decreases c.left(tokens), 9nat,
{
    let keyword = consume(tokens, c, TokenTypeView::If);
    if keyword.value is None {
        fail(keyword.cursor)
    } else {
        let head = condition(tokens, keyword.cursor);
        proof {
            lemma_condition(tokens, keyword.cursor);
        }
        match head.value {
            Some(test) => {
                let then_branch = branch(tokens, head.cursor);
                match then_branch.value {
                    Some(then_stmt) => if then_branch.cursor.at(tokens, TokenTypeView::Else) {
                        if then_branch.cursor.position <= c.position {
                            fail(c)
                        } else {
                            let else_branch = branch(tokens, then_branch.cursor.step(tokens));
                            match (else_branch.value, else_branch.cursor.span(tokens)) {
                                (Some(else_stmt), Some(span)) => done(
                                    StmtView::If {
                                        condition: Box::new(test),
                                        then_branch: Box::new(then_stmt),
                                        else_branch: Some(Box::new(else_stmt)),
                                        span,
                                    },
                                    else_branch.cursor,
                                ),
                                _ => fail(else_branch.cursor),
                            }
                        }
                    } else {
                        match then_branch.cursor.span(tokens) {
                            Some(span) => done(
                                StmtView::If {
                                    condition: Box::new(test),
                                    then_branch: Box::new(then_stmt),
                                    else_branch: None,
                                    span,
                                },
                                then_branch.cursor,
                            ),
                            None => fail(then_branch.cursor),
                        }
                    },
                    None => fail(then_branch.cursor),
                }
            },
            None => fail(head.cursor),
        }
    }
}

/// `{`, statements, `}`. The block takes the position of the token after the `}`, so one
/// must follow.
pub open spec fn block(tokens: Seq<TokenView>, c: Cursor) -> Parsed<StmtView>
    decreases c.left(tokens), 9nat,
{
    let open = consume(tokens, c, TokenTypeView::LeftBrace);
    if open.value is None {
        fail(open.cursor)
    } else {
        let inside = block_tail(tokens, open.cursor, Seq::empty());
        let close = consume(tokens, inside.cursor, TokenTypeView::RightBrace);
        match (close.value, close.cursor.span(tokens)) {
            (Some(_), Some(span)) => done(
                StmtView::Block { statements: inside.items, span },
                close.cursor,
            ),
            _ => fail(close.cursor),
        }
    }
}

/// The rest of the inside of a block after the statements `items`, up to a `}` or the end of
/// the stream. Where no statement can be read, one token is passed over.
pub open spec fn block_tail(tokens: Seq<TokenView>, c: Cursor, items: Seq<StmtView>) -> Sequence
    decreases c.left(tokens), 11nat,
{
    match c.token(tokens) {
        Some(token) => if token.token_type is RightBrace {
            Sequence { items, cursor: c }
        } else {
            let next = stmt(tokens, c);
            let resume = match next.value {
                Some(_) => next.cursor,
                None => next.cursor.step(tokens),
            };
            let read = match next.value {
                Some(statement) => items.push(statement),
                None => items,
            };
            if resume.position <= c.position {
                Sequence { items, cursor: c }
            } else {
                block_tail(tokens, resume, read)
            }
        },
        None => Sequence { items, cursor: c },
    }
}

} // verus!
