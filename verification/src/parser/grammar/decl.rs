use vstd::prelude::*;
use crate::ast::{
    ClassDefView, ConstructorView, EntryView, ExprView, FunDefView, MethDefView, ParamDeclView,
    StmtView,
};
use crate::lexer::{TokenTypeView, TokenView, TypeNameView};
use crate::parser::error::ParseErrorView;
use crate::parser::grammar::cursor::{
    consume, consume_identifier, consume_optional, consume_two_optionals, consume_type, done, fail,
    synchronize, Cursor, Parsed,
};
use crate::parser::grammar::expr::arguments;
use crate::parser::grammar::forward::{lemma_method, lemma_param, lemma_top_level};
use crate::parser::grammar::stmt::stmt;
use crate::parser::types::SyncPoint;

verus! {

/// A statement, as the rules for declarations and for the whole program use it.
#[verifier::opaque]
pub open spec fn statement(tokens: Seq<TokenView>, c: Cursor) -> Parsed<StmtView> {
    stmt(tokens, c)
}

/// What the inside of a parameter list yields.
pub struct Params {
    pub items: Seq<ParamDeclView>,
    pub cursor: Cursor,
}

/// What the methods of a class yield: the methods read, the state left, and whether the
/// methods ended without one that could not be read.
pub struct Methods {
    pub items: Seq<MethDefView>,
    pub cursor: Cursor,
    pub complete: bool,
}

/// What a result type yields: the type, which is `Void` where none could be read.
pub struct Typed {
    pub value: TypeNameView,
    pub cursor: Cursor,
}

/// What a whole program yields.
pub struct Program {
    pub entry: EntryView,
    pub cursor: Cursor,
}

/// `name: Type`.
#[verifier::opaque]
pub open spec fn param(tokens: Seq<TokenView>, c: Cursor) -> Parsed<ParamDeclView> {
    let name = consume_identifier(tokens, c, "Expected parameter name"@);
    match name.value {
        Some(parameter) => {
            let colon = consume(tokens, name.cursor, TokenTypeView::Colon);
            if colon.value is None {
                fail(colon.cursor)
            } else {
                let param_type = consume_type(tokens, colon.cursor);
                match param_type.value {
                    Some(declared) => done(
                        ParamDeclView { name: parameter, param_type: declared },
                        param_type.cursor,
                    ),
                    None => fail(param_type.cursor),
                }
            }
        },
        None => fail(name.cursor),
    }
}

/// The state after the token that stands where a parameter could not be read was recorded
/// and passed over. At the end of the stream nothing is recorded.
pub open spec fn skip_unexpected(tokens: Seq<TokenView>, c: Cursor) -> Cursor {
    match c.token(tokens) {
        Some(token) => c.note(
            ParseErrorView::UnexpectedToken {
                symbol: token.token_type.text(),
                span: token.span,
            },
        ).step(tokens),
        None => c,
    }
}

/// The rest of a parameter list after the parameters `items`. A `)` ends it; a comma is
/// passed over; then a parameter is read, and where none can be read, one token is recorded
/// and passed over.
pub open spec fn params_tail(tokens: Seq<TokenView>, c: Cursor, items: Seq<ParamDeclView>) -> Params
    decreases c.left(tokens),
{
    match c.token(tokens) {
        Some(token) => if token.token_type is RightParen {
            Params { items, cursor: c.step(tokens) }
        } else {
            let start = if token.token_type is Comma {
                c.step(tokens)
            } else {
                c
            };
            let next = param(tokens, start);
            let resume = match next.value {
                Some(_) => next.cursor,
                None => skip_unexpected(tokens, next.cursor),
            };
            let read = match next.value {
                Some(parameter) => items.push(parameter),
                None => items,
            };
            proof {
                lemma_param(tokens, start);
            }
            params_tail(tokens, resume, read)
        },
        None => Params { items, cursor: c },
    }
}

/// A parameter list: `()`, or `(`, parameters separated by commas, `)`.
#[verifier::opaque]
pub open spec fn comma_param_decl(tokens: Seq<TokenView>, c: Cursor) -> Parsed<Seq<ParamDeclView>> {
    let empty = consume_two_optionals(
        tokens,
        c,
        TokenTypeView::LeftParen,
        TokenTypeView::RightParen,
    );
    if empty.value is Some {
        done(Seq::empty(), empty.cursor)
    } else {
        let open = consume(tokens, c, TokenTypeView::LeftParen);
        if open.value is None {
            fail(open.cursor)
        } else {
            let rest = params_tail(tokens, open.cursor, Seq::empty());
            done(rest.items, rest.cursor)
        }
    }
}

/// The type behind the arrow of function or method `symbol`. Where none can be read the
/// result is `Void`, and the missing type is recorded if a token stands in its place.
#[verifier::opaque]
pub open spec fn result_type(tokens: Seq<TokenView>, c: Cursor, symbol: Seq<char>) -> Typed {
    let declared = consume_type(tokens, c);
    match declared.value {
        Some(value) => Typed { value, cursor: declared.cursor },
        None => Typed {
            value: TypeNameView::Void,
            cursor: match c.span(tokens) {
                Some(span) => declared.cursor.note(
                    ParseErrorView::ExpectedReturnType { symbol, span },
                ),
                None => declared.cursor,
            },
        },
    }
}

/// The name of a method of class `class_name`. A missing name is recorded twice, as a
/// mismatch and as a method without a name, and the method goes on with the empty name.
#[verifier::opaque]
pub open spec fn method_name(tokens: Seq<TokenView>, c: Cursor, class_name: Seq<char>) -> Parsed<
    Seq<char>,
> {
    let name = consume_identifier(tokens, c, "method name"@);
    match (name.value, c.span(tokens)) {
        (None, Some(span)) => fail(
            name.cursor.note(ParseErrorView::ExpectedMethName { symbol: class_name, span }),
        ),
        _ => name,
    }
}

/// What follows the parameter list of function or method `name`: `->`, the result type and
/// the body, which is one statement. The arrow is required; the body may be missing. Where
/// the end-of-input token stands in place of the arrow, the end of input is recorded
/// besides the mismatch.
#[verifier::opaque]
pub open spec fn signature_rest(tokens: Seq<TokenView>, c: Cursor, name: Seq<char>) -> Parsed<
    (TypeNameView, Option<StmtView>),
> {
    let arrow = consume(tokens, c, TokenTypeView::Arrow);
    if arrow.value is None {
        if c.at(tokens, TokenTypeView::EOF) {
            fail(arrow.cursor.note(ParseErrorView::UnexpectedEOF { span: c.span(tokens) }))
        } else {
            fail(arrow.cursor)
        }
    } else {
        let result = result_type(tokens, arrow.cursor, name);
        let body = statement(tokens, result.cursor);
        done((result.value, body.value), body.cursor)
    }
}

/// A method of class `class_name`: `meth`, name, parameter list, `->`, result type, body. A
/// missing `meth` is recorded and the method is read all the same.
#[verifier::opaque]
pub open spec fn method(tokens: Seq<TokenView>, c: Cursor, class_name: Seq<char>) -> Parsed<
    MethDefView,
> {
    let keyword = consume(tokens, c, TokenTypeView::Meth);
    let named = method_name(tokens, keyword.cursor, class_name);
    let name = match named.value {
        Some(name) => name,
        None => Seq::empty(),
    };
    let params = comma_param_decl(tokens, named.cursor);
    match params.value {
        Some(parameters) => {
            let rest = signature_rest(tokens, params.cursor, name);
            match rest.value {
                Some((return_type, statements)) => done(
                    MethDefView { name, params: parameters, return_type, statements },
                    rest.cursor,
                ),
                None => fail(rest.cursor),
            }
        },
        None => fail(params.cursor),
    }
}

/// A function: `fun`, name, parameter list, `->`, result type, body. A missing `fun`, a
/// missing name and an unreadable parameter list are recorded and the function is read all
/// the same, with the empty name and without parameters.
#[verifier::opaque]
pub open spec fn fun(tokens: Seq<TokenView>, c: Cursor) -> Parsed<FunDefView> {
    let keyword = consume(tokens, c, TokenTypeView::Fun);
    let named = consume_identifier(tokens, keyword.cursor, "function name"@);
    let name = match named.value {
        Some(name) => name,
        None => Seq::empty(),
    };
    let params = comma_param_decl(tokens, named.cursor);
    let parameters = match params.value {
        Some(parameters) => parameters,
        None => Seq::empty(),
    };
    let rest = signature_rest(tokens, params.cursor, name);
    match rest.value {
        Some((return_type, statements)) => done(
            FunDefView { name, params: parameters, return_type, statements },
            rest.cursor,
        ),
        None => fail(rest.cursor),
    }
}

/// The call of the parent's constructor at the start of a constructor's body, if there is
/// one: `super();`, which hands on the empty expression alone, or `super` and an argument
/// list and `;`. The value is the arguments handed on, if `super` is there.
#[verifier::opaque]
pub open spec fn super_call(tokens: Seq<TokenView>, c: Cursor) -> Parsed<Option<Seq<ExprView>>> {
    let keyword = consume_optional(tokens, c, TokenTypeView::Super);
    if keyword.value is None {
        done(None, keyword.cursor)
    } else {
        let empty = consume_two_optionals(
            tokens,
            keyword.cursor,
            TokenTypeView::LeftParen,
            TokenTypeView::RightParen,
        );
        let listed = arguments(tokens, keyword.cursor);
        let args = if empty.value is Some {
            seq![ExprView::Empty]
        } else {
            listed.items
        };
        let after = if empty.value is Some {
            empty.cursor
        } else {
            listed.cursor
        };
        let end = consume(tokens, after, TokenTypeView::Semicolon);
        if end.value is None {
            fail(end.cursor)
        } else {
            done(Some(args), end.cursor)
        }
    }
}

/// A constructor: `init`, parameter list, `{`, the call of the parent's constructor if
/// there is one, a body of one statement, `}`. Without `init` nothing is read and nothing
/// recorded. An unreadable parameter list leaves the constructor without parameters.
#[verifier::opaque]
pub open spec fn constructor(tokens: Seq<TokenView>, c: Cursor) -> Parsed<ConstructorView> {
    let keyword = consume_optional(tokens, c, TokenTypeView::Init);
    if keyword.value is None {
        fail(keyword.cursor)
    } else {
        let params = comma_param_decl(tokens, keyword.cursor);
        let parameters = match params.value {
            Some(parameters) => parameters,
            None => Seq::empty(),
        };
        let open = consume(tokens, params.cursor, TokenTypeView::LeftBrace);
        if open.value is None {
            fail(open.cursor)
        } else {
            let parent = super_call(tokens, open.cursor);
            match parent.value {
                Some(super_call) => {
                    let body = statement(tokens, parent.cursor);
                    let close = consume(tokens, body.cursor, TokenTypeView::RightBrace);
                    if close.value is None {
                        fail(close.cursor)
                    } else {
                        done(
                            ConstructorView {
                                params: parameters,
                                super_call,
                                statements: body.value,
                            },
                            close.cursor,
                        )
                    }
                },
                None => fail(parent.cursor),
            }
        }
    }
}

/// The rest of the methods of class `class_name` after the methods `items`: methods as long
/// as `meth` follows. A method that cannot be read is recorded at its `meth` as a method
/// without a name, parsing resumes at the next class-body boundary, and the methods are
/// not complete.
pub open spec fn methods_tail(
    tokens: Seq<TokenView>,
    c: Cursor,
    class_name: Seq<char>,
    items: Seq<MethDefView>,
) -> Methods
    decreases c.left(tokens),
{
    match c.token(tokens) {
        Some(token) => if token.token_type is Meth {
            let next = method(tokens, c, class_name);
            proof {
                lemma_method(tokens, c, class_name);
            }
            match next.value {
                Some(definition) => methods_tail(
                    tokens,
                    next.cursor,
                    class_name,
                    items.push(definition),
                ),
                None => Methods {
                    items,
                    cursor: synchronize(
                        tokens,
                        next.cursor.note(
                            ParseErrorView::ExpectedMethName {
                                symbol: class_name,
                                span: token.span,
                            },
                        ),
                        SyncPoint::ClassBody,
                    ),
                    complete: false,
                },
            }
        } else {
            Methods { items, cursor: c, complete: true }
        },
        None => Methods { items, cursor: c, complete: true },
    }
}

/// The head of a class: `class`, name, and `extends` with the parent's name if `extends`
/// follows, then `{`. The value is the name and the parent's name. A missing name after
/// `extends` is recorded and leaves the class without a parent.
#[verifier::opaque]
pub open spec fn class_head(tokens: Seq<TokenView>, c: Cursor) -> Parsed<
    (Seq<char>, Option<Seq<char>>),
> {
    let keyword = consume(tokens, c, TokenTypeView::Class);
    if keyword.value is None {
        fail(keyword.cursor)
    } else {
        let name = consume_identifier(tokens, keyword.cursor, "class name"@);
        match name.value {
            Some(class_name) => {
                let extends = consume_optional(tokens, name.cursor, TokenTypeView::Extends);
                let parent = consume_identifier(tokens, extends.cursor, "parent class name"@);
                let parent_name = if extends.value is Some {
                    parent.value
                } else {
                    None
                };
                let after = if extends.value is Some {
                    parent.cursor
                } else {
                    extends.cursor
                };
                let open = consume(tokens, after, TokenTypeView::LeftBrace);
                if open.value is None {
                    fail(open.cursor)
                } else {
                    done((class_name, parent_name), open.cursor)
                }
            },
            None => fail(name.cursor),
        }
    }
}

/// The constructor that a class has whose own could not be read.
pub open spec fn no_constructor() -> ConstructorView {
    ConstructorView { params: Seq::empty(), super_call: None, statements: None }
}

/// A class: head, constructor, methods, `}`. The body has to start with the constructor:
/// a token other than `init` in its place is recorded as a missing constructor, and the
/// class yields nothing. A constructor that starts with `init` and cannot be read leaves
/// the class with the constructor without parameters and body. A method that cannot be read
/// ends the class without a value.
#[verifier::opaque]
pub open spec fn class(tokens: Seq<TokenView>, c: Cursor) -> Parsed<ClassDefView> {
    let head = class_head(tokens, c);
    match head.value {
        Some((name, extends)) => match head.cursor.token(tokens) {
            Some(token) if !(token.token_type is Init) => fail(
                head.cursor.note(
                    ParseErrorView::MissingClassInit { symbol: name, span: token.span },
                ),
            ),
            _ => {
                let built = constructor(tokens, head.cursor);
                let methods = methods_tail(tokens, built.cursor, name, Seq::empty());
                let close = consume(tokens, methods.cursor, TokenTypeView::RightBrace);
                if !methods.complete {
                    fail(methods.cursor)
                } else if close.value is None {
                    fail(close.cursor)
                } else {
                    done(
                        ClassDefView {
                            name,
                            extends,
                            vars: Seq::empty(),
                            constructor: match built.value {
                                Some(constructor) => constructor,
                                None => no_constructor(),
                            },
                            methods: methods.items,
                        },
                        close.cursor,
                    )
                }
            },
        },
        None => fail(head.cursor),
    }
}

/// The program without anything in it.
pub open spec fn empty_entry() -> EntryView {
    EntryView { statements: Seq::empty(), class_defs: Seq::empty(), fun_defs: Seq::empty() }
}

/// The rest of a program after what `entry` holds. `class` starts a class and `fun` a
/// function, the end-of-input token ends the program, and anything else starts a
/// statement. A class or a function or a statement that cannot be read adds nothing; after
/// a statement that cannot be read one token is passed over.
pub open spec fn program_tail(tokens: Seq<TokenView>, c: Cursor, entry: EntryView) -> Program
    decreases c.left(tokens),
{
    match c.token(tokens) {
        Some(token) => if token.token_type is EOF {
            Program { entry, cursor: c }
        } else {
            let next = top_level(tokens, c, entry);
            proof {
                lemma_top_level(tokens, c, entry);
            }
            program_tail(tokens, next.cursor, next.entry)
        },
        None => Program { entry, cursor: c },
    }
}

/// One construct at the top level of a program, added to `entry` if it could be read.
pub open spec fn top_level(tokens: Seq<TokenView>, c: Cursor, entry: EntryView) -> Program {
    if c.at(tokens, TokenTypeView::Class) {
        let next = class(tokens, c);
        Program {
            entry: match next.value {
                Some(definition) => EntryView {
                    class_defs: entry.class_defs.push(definition),
                    ..entry
                },
                None => entry,
            },
            cursor: next.cursor,
        }
    } else if c.at(tokens, TokenTypeView::Fun) {
        let next = fun(tokens, c);
        Program {
            entry: match next.value {
                Some(definition) => EntryView { fun_defs: entry.fun_defs.push(definition), ..entry },
                None => entry,
            },
            cursor: next.cursor,
        }
    } else {
        let next = statement(tokens, c);
        match next.value {
            Some(value) => Program {
                entry: EntryView { statements: entry.statements.push(value), ..entry },
                cursor: next.cursor,
            },
            None => Program { entry, cursor: next.cursor.step(tokens) },
        }
    }
}

/// A whole program: constructs up to the end-of-input token or the end of the stream.
pub open spec fn program(tokens: Seq<TokenView>, c: Cursor) -> Program {
    program_tail(tokens, c, empty_entry())
}

} // verus!
