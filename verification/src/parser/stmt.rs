use vstd::prelude::*;
use vstd::string::*;
use crate::ast::{
    AssignStmt, BlockStmt, BreakStmt, Expr, ExprStmt, IfStmt, ReturnStmt, Stmt, VarDeclStmt,
    VarDeclWithAssign, WhileStmt,
};
use crate::lexer::{Span, TokenType, TypeName};
use crate::parser::engine::Parser;
use crate::views::viewed;
use crate::parser::error::ParseError;
use crate::parser::grammar;

verus! {

/// The statement rules of the grammar.
pub trait ParserStmt {
    /// Reads an assignment to a field.
    fn parse_field_assign(&mut self) -> Option<Stmt>;

    /// Reads a declaration of a variable.
    fn parse_var_decl(&mut self) -> Option<Stmt>;

    /// Reads an assignment to a variable.
    fn parse_var_assign(&mut self) -> Option<Stmt>;

    /// Reads a statement.
    fn parse_stmt(&mut self) -> Option<Stmt>;

    /// Reads a `break`.
    fn parse_break(&mut self) -> Option<Stmt>;

    /// Reads a `return`.
    fn parse_return(&mut self) -> Option<Stmt>;

    /// Reads an `if`.
    fn parse_if(&mut self) -> Option<Stmt>;

    /// Reads a `while`.
    fn parse_while(&mut self) -> Option<Stmt>;

    /// Reads an expression standing as a statement.
    fn parse_expr_stmt(&mut self) -> Option<Stmt>;

    /// Reads a block.
    fn parse_block(&mut self) -> Option<Stmt>;
}

/// The dotted name of a chain of fields, if `target` is one.
pub fn dotted_name(target: &Expr) -> (name: Option<String>)
    ensures
        viewed(name) == grammar::dotted_name(target@),
    decreases target,
{
    match target {
        Expr::Variable(variable) => Some(variable.name.clone()),
        Expr::This(_) => Some(String::from_str("this")),
        Expr::Field(field) => match dotted_name(&field.object) {
            Some(mut name) => {
                name.append(".");
                name.append(field.field.as_str());
                Some(name)
            },
            None => None,
        },
        _ => None,
    }
}

/// The dotted name of the target of a field assignment, if `target` is a field.
pub fn field_path(target: &Expr) -> (name: Option<String>)
    ensures
        viewed(name) == grammar::field_path(target@),
{
    match target {
        Expr::Field(_) => dotted_name(target),
        _ => None,
    }
}

impl Parser {
    /// Reads the value of an assignment to `name`; `start` is where the statement began.
    pub fn parse_assigned(&mut self, name: String, start: Span) -> (r: Option<Stmt>)
        ensures
            final(self).follows(
                *old(self),
                grammar::assigned(old(self).stream(), old(self).cursor(), name@, start),
                viewed(r),
            ),
    {
        proof {
            reveal(grammar::assigned);
        }
        match self.parse_expression() {
            Some(expr) => match self.current_span() {
                Some(span) => Some(Stmt::Assign(AssignStmt { name, expr: Box::new(expr), span })),
                None => None,
            },
            None => {
                self.record(
                    ParseError::expected_but_found(
                        String::from_str("expression"),
                        None,
                        Some(start),
                    ),
                );
                None
            },
        }
    }

    /// Reads what follows the type in a declaration of `name`.
    pub fn parse_declared(&mut self, name: String, var_type: TypeName) -> (r: Option<Stmt>)
        ensures
            final(self).follows(
                *old(self),
                grammar::declared(old(self).stream(), old(self).cursor(), name@, var_type@),
                viewed(r),
            ),
            r is Some ==> final(self).moved(*old(self)),
    {
        proof {
            reveal(grammar::declared);
        }
        let token = match self.peek() {
            Some(token) => token,
            None => {
                return None;
            },
        };
        match token.token_type {
            TokenType::Semicolon => {
                self.advance();
                Some(Stmt::VarDecl(VarDeclStmt { name, var_type, span: token.span }))
            },
            TokenType::Assign => {
                self.advance();
                let next = match self.peek() {
                    Some(next) => next,
                    None => {
                        return None;
                    },
                };
                if next.token_type.is_kind(TokenType::Semicolon) {
                    self.record(
                        ParseError::expected_but_found(
                            String::from_str("expression"),
                            Some(String::from_str("semicolon")),
                            Some(next.span),
                        ),
                    );
                    return None;
                }
                let expr = match self.parse_expression() {
                    Some(expr) => expr,
                    None => {
                        return None;
                    },
                };
                if self.consume(TokenType::Semicolon).is_none() {
                    return None;
                }
                Some(
                    Stmt::VarDeclWithAssign(
                        VarDeclWithAssign { name, var_type, expr: Box::new(expr), span: token.span },
                    ),
                )
            },
            other => {
                self.record(
                    ParseError::expected_but_found(
                        String::from_str("semicolon or assign"),
                        Some(other.to_string()),
                        Some(token.span),
                    ),
                );
                None
            },
        }
    }

    /// Reads the condition of a `while` or an `if` in its parentheses.
    pub fn parse_condition(&mut self) -> (r: Option<Expr>)
        ensures
            final(self).follows(
                *old(self),
                grammar::condition(old(self).stream(), old(self).cursor()),
                viewed(r),
            ),
            r is Some ==> final(self).moved(*old(self)),
    {
        proof {
            reveal(grammar::condition);
        }
        if self.consume(TokenType::LeftParen).is_none() {
            return None;
        }
        let expr = match self.parse_expression() {
            Some(expr) => expr,
            None => {
                let span = self.current_span();
                self.record(
                    ParseError::expected_but_found(String::from_str("expression"), None, span),
                );
                return None;
            },
        };
        if self.consume(TokenType::RightParen).is_none() {
            return None;
        }
        Some(expr)
    }

    /// Reads a statement that starts with a name or `this` and a dot.
    pub fn parse_dotted_stmt(&mut self) -> (r: Option<Stmt>)
        ensures
            final(self).follows(
                *old(self),
                grammar::dotted_stmt(old(self).stream(), old(self).cursor()),
                viewed(r),
            ),
            r is Some ==> final(self).moved(*old(self)),
    {
        proof {
            reveal(grammar::dotted_stmt);
        }
        let third = match self.peek_ahead_amount(3) {
            Some(third) => third,
            None => {
                return None;
            },
        };
        if third.token_type.is_kind(TokenType::LeftParen) {
            self.parse_expr_stmt()
        } else {
            self.parse_field_assign()
        }
    }

    /// Reads one statement between braces.
    pub fn parse_branch(&mut self) -> (r: Option<Stmt>)
        ensures
            final(self).follows(
                *old(self),
                grammar::branch(old(self).stream(), old(self).cursor()),
                viewed(r),
            ),
            r is Some ==> final(self).moved(*old(self)),
        decreases old(self).cursor().left(old(self).stream()), 11nat,
    {
        if self.consume(TokenType::LeftBrace).is_none() {
            return None;
        }
        let stmt = match self.parse_stmt() {
            Some(stmt) => stmt,
            None => {
                let span = self.current_span();
                self.record(
                    ParseError::expected_but_found(String::from_str("statement"), None, span),
                );
                return None;
            },
        };
        if self.consume(TokenType::RightBrace).is_none() {
            return None;
        }
        Some(stmt)
    }
}

impl ParserStmt for Parser {
    /// Reads a statement.
    fn parse_stmt(&mut self) -> (r: Option<Stmt>)
        ensures
            final(self).follows(
                *old(self),
                grammar::stmt(old(self).stream(), old(self).cursor()),
                viewed(r),
            ),
            r is Some ==> final(self).moved(*old(self)),
        decreases old(self).cursor().left(old(self).stream()), 10nat,
    {
        let token = match self.peek() {
            Some(token) => token,
            None => {
                return None;
            },
        };
        let next_token = match self.peek_ahead() {
            Some(token) => token,
            None => {
                return None;
            },
        };
        match token.token_type {
            TokenType::Let => self.parse_var_decl(),
            TokenType::Break => self.parse_break(),
            TokenType::Return => self.parse_return(),
            TokenType::If => self.parse_if(),
            TokenType::While => self.parse_while(),
            TokenType::LeftBrace => self.parse_block(),
            TokenType::Identifier(_) => {
                if next_token.token_type.is_kind(TokenType::Assign) {
                    self.parse_var_assign()
                } else if next_token.token_type.is_kind(TokenType::Dot) {
                    self.parse_dotted_stmt()
                } else {
                    self.parse_expr_stmt()
                }
            },
            TokenType::This => {
                if next_token.token_type.is_kind(TokenType::Dot) {
                    self.parse_dotted_stmt()
                } else {
                    self.parse_expr_stmt()
                }
            },
            _ => self.parse_expr_stmt(),
        }
    }

    /// Reads an expression standing as a statement.
    fn parse_expr_stmt(&mut self) -> (r: Option<Stmt>)
        ensures
            final(self).follows(
                *old(self),
                grammar::expr_stmt(old(self).stream(), old(self).cursor()),
                viewed(r),
            ),
            r is Some ==> final(self).moved(*old(self)),
    {
        proof {
            reveal(grammar::expr_stmt);
        }
        let expr = match self.parse_expression() {
            Some(expr) => expr,
            None => {
                return None;
            },
        };
        match self.current_span() {
            Some(span) => Some(Stmt::Expr(ExprStmt { expr: Box::new(expr), span })),
            None => None,
        }
    }

    /// Reads a `while`.
    fn parse_while(&mut self) -> (r: Option<Stmt>)
        ensures
            final(self).follows(
                *old(self),
                grammar::while_stmt(old(self).stream(), old(self).cursor()),
                viewed(r),
            ),
            r is Some ==> final(self).moved(*old(self)),
        decreases old(self).cursor().left(old(self).stream()), 9nat,
    {
        if self.consume(TokenType::While).is_none() {
            return None;
        }
        let condition = match self.parse_condition() {
            Some(condition) => condition,
            None => {
                return None;
            },
        };
        match self.parse_stmt() {
            Some(body) => match self.current_span() {
                Some(span) => Some(
                    Stmt::While(
                        WhileStmt { condition: Box::new(condition), body: Box::new(body), span },
                    ),
                ),
                None => None,
            },
            None => {
                let span = self.current_span();
                self.record(
                    ParseError::expected_but_found(String::from_str("expression"), None, span),
                );
                None
            },
        }
    }

    /// Reads an `if`.
    fn parse_if(&mut self) -> (r: Option<Stmt>)
        ensures
            final(self).follows(
                *old(self),
                grammar::if_stmt(old(self).stream(), old(self).cursor()),
                viewed(r),
            ),
            r is Some ==> final(self).moved(*old(self)),
        decreases old(self).cursor().left(old(self).stream()), 9nat,
    {
        if self.consume(TokenType::If).is_none() {
            return None;
        }
        let condition = match self.parse_condition() {
            Some(condition) => condition,
            None => {
                return None;
            },
        };
        let then_stmt = match self.parse_branch() {
            Some(stmt) => stmt,
            None => {
                return None;
            },
        };
        let has_else = match self.peek() {
            Some(token) => token.token_type.is_kind(TokenType::Else),
            None => false,
        };
        let mut else_branch: Option<Box<Stmt>> = None;
        if has_else {
            self.advance();
            match self.parse_branch() {
                Some(else_stmt) => {
                    else_branch = Some(Box::new(else_stmt));
                },
                None => {
                    return None;
                },
            }
        }
        match self.current_span() {
            Some(span) => Some(
                Stmt::If(
                    IfStmt {
                        condition: Box::new(condition),
                        then_branch: Box::new(then_stmt),
                        else_branch,
                        span,
                    },
                ),
            ),
            None => None,
        }
    }

    /// Reads an assignment to a variable.
    fn parse_var_assign(&mut self) -> (r: Option<Stmt>)
        ensures
            final(self).follows(
                *old(self),
                grammar::var_assign(old(self).stream(), old(self).cursor()),
                viewed(r),
            ),
            r is Some ==> final(self).moved(*old(self)),
    {
        proof {
            reveal(grammar::var_assign);
        }
        let token = match self.peek() {
            Some(token) => token,
            None => {
                return None;
            },
        };
        let var_name = match self.consume_identifier("var_name") {
            Some(name) => name,
            None => {
                return None;
            },
        };
        if self.consume(TokenType::Assign).is_none() {
            return None;
        }
        self.parse_assigned(var_name, token.span)
    }

    /// Reads an assignment to a field.
    fn parse_field_assign(&mut self) -> (r: Option<Stmt>)
        ensures
            final(self).follows(
                *old(self),
                grammar::field_assign(old(self).stream(), old(self).cursor()),
                viewed(r),
            ),
            r is Some ==> final(self).moved(*old(self)),
    {
        proof {
            reveal(grammar::field_assign);
        }
        let token = match self.peek() {
            Some(token) => token,
            None => {
                return None;
            },
        };
        let target = match self.parse_chain() {
            Some(target) => target,
            None => {
                return None;
            },
        };
        let full_name = match field_path(&target) {
            Some(name) => name,
            None => {
                return None;
            },
        };
        if self.consume(TokenType::Assign).is_none() {
            return None;
        }
        self.parse_assigned(full_name, token.span)
    }

    /// Reads a `return`.
    fn parse_return(&mut self) -> (r: Option<Stmt>)
        ensures
            final(self).follows(
                *old(self),
                grammar::return_stmt(old(self).stream(), old(self).cursor()),
                viewed(r),
            ),
            r is Some ==> final(self).moved(*old(self)),
    {
        proof {
            reveal(grammar::return_stmt);
        }
        let span = match self.current_span() {
            Some(span) => span,
            None => {
                return None;
            },
        };
        if self.consume(TokenType::Return).is_none() {
            return None;
        }
        match self.consume_optional(TokenType::Semicolon) {
            Some(token) => {
                return Some(Stmt::Return(ReturnStmt { value: None, span: token.span }));
            },
            None => {},
        }
        let expr = match self.parse_expression() {
            Some(expr) => expr,
            None => {
                return None;
            },
        };
        if self.consume(TokenType::Semicolon).is_none() {
            return None;
        }
        Some(Stmt::Return(ReturnStmt { value: Some(Box::new(expr)), span }))
    }

    /// Reads a `break`.
    fn parse_break(&mut self) -> (r: Option<Stmt>)
        ensures
            final(self).follows(
                *old(self),
                grammar::break_stmt(old(self).stream(), old(self).cursor()),
                viewed(r),
            ),
            r is Some ==> final(self).moved(*old(self)),
    {
        proof {
            reveal(grammar::break_stmt);
        }
        let span = match self.current_span() {
            Some(span) => span,
            None => {
                return None;
            },
        };
        self.advance();
        Some(Stmt::Break(BreakStmt { span }))
    }

    /// Reads a declaration of a variable.
    fn parse_var_decl(&mut self) -> (r: Option<Stmt>)
        ensures
            final(self).follows(
                *old(self),
                grammar::var_decl(old(self).stream(), old(self).cursor()),
                viewed(r),
            ),
            r is Some ==> final(self).moved(*old(self)),
    {
        proof {
            reveal(grammar::var_decl);
        }
        if self.consume(TokenType::Let).is_none() {
            return None;
        }
        let var_name = match self.consume_identifier("var_name") {
            Some(name) => name,
            None => {
                return None;
            },
        };
        if self.consume(TokenType::Colon).is_none() {
            return None;
        }
        let var_type = match self.consume_type() {
            Some(var_type) => var_type,
            None => {
                return None;
            },
        };
        self.parse_declared(var_name, var_type)
    }

    /// Reads a block.
    fn parse_block(&mut self) -> (r: Option<Stmt>)
        ensures
            final(self).follows(
                *old(self),
                grammar::block(old(self).stream(), old(self).cursor()),
                viewed(r),
            ),
            r is Some ==> final(self).moved(*old(self)),
        decreases old(self).cursor().left(old(self).stream()), 9nat,
    {
        if self.consume(TokenType::LeftBrace).is_none() {
            return None;
        }
        let mut statements: Vec<Stmt> = Vec::new();
        let ghost inside = grammar::block_tail(self.stream(), self.cursor(), Seq::empty());
        assert(Stmt::models(statements@) =~= Seq::empty());
        loop
            invariant
                self.tokens == old(self).tokens,
                self.moved(*old(self)),
                grammar::block_tail(self.stream(), self.cursor(), Stmt::models(statements@))
                    == inside,
            ensures
                inside == (grammar::Sequence {
                    items: Stmt::models(statements@),
                    cursor: self.cursor(),
                }),
            decreases self.cursor().left(self.stream()),
        {
            let token = match self.peek() {
                Some(token) => token,
                None => {
                    break ;
                },
            };
            if token.token_type.is_kind(TokenType::RightBrace) {
                break ;
            }
            match self.parse_stmt() {
                Some(stmt) => {
                    let ghost before = Stmt::models(statements@);
                    statements.push(stmt);
                    assert(Stmt::models(statements@) =~= before.push(stmt@));
                },
                None => {
                    self.advance();
                },
            }
        }
        if self.consume(TokenType::RightBrace).is_none() {
            return None;
        }
        match self.current_span() {
            Some(span) => Some(Stmt::Block(BlockStmt { statements, span })),
            None => None,
        }
    }
}

} // verus!
