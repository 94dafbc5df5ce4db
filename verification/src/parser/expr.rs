use vstd::prelude::*;
use vstd::string::*;
use crate::ast::{
    BinaryExpr, BooleanLiteral, Expr, Field, FunCall, IntegerLiteral, MethCall, NewExpr, PrintExpr,
    PrintlnExpr, StringLiteral, ThisExpr, UnaryExpr, UnaryOp, Variable,
};
use crate::lexer::{Span, TokenType};
use crate::parser::engine::Parser;
use crate::views::viewed;
use crate::parser::error::ParseError;
use crate::parser::grammar;

verus! {

/// The expression rules of the grammar, from the loosest binding level to the tightest.
pub trait ParserExpr {
    /// Reads an expression.
    fn parse_expr(&mut self) -> Option<Expr>;

    /// Reads an argument list.
    fn parse_comma_expr(&mut self) -> Vec<Expr>;

    /// Reads a chain of `*` and `/`.
    fn parse_mult_expr(&mut self) -> Option<Expr>;

    /// Reads a chain of `+` and `-`.
    fn parse_add_expr(&mut self) -> Option<Expr>;

    /// Reads a primary expression and the method calls and fields behind it.
    fn parse_call_expr(&mut self) -> Option<Expr>;

    /// Reads a literal, `this`, a construction, a print, a variable, a call of a
    /// function, or an expression in parentheses.
    fn parse_primary_expr(&mut self) -> Option<Expr>;

    /// Reads a chain of `||`.
    fn parse_or_expr(&mut self) -> Option<Expr>;

    /// Reads a chain of `&&`.
    fn parse_and_expr(&mut self) -> Option<Expr>;

    /// Reads a chain of comparisons.
    fn parse_comparison_expr(&mut self) -> Option<Expr>;

    /// Reads a prefix operator and its operand, or a call expression.
    fn parse_unary_expr(&mut self) -> Option<Expr>;
}

impl Parser {
    /// Reads the argument of `print` or `println` in its parentheses; the keyword, which
    /// stood at `span`, is already read.
    #[verifier::rlimit(60)]
    pub fn parse_print_call(&mut self, span: Span, line_break: bool) -> (r: Option<Expr>)
        ensures
            final(self).follows(
                *old(self),
                grammar::print_call(old(self).stream(), old(self).cursor(), span, line_break),
                viewed(r),
            ),
        decreases old(self).cursor().left(old(self).stream()), 21nat,
    {
        if self.consume(TokenType::LeftParen).is_none() {
            return None;
        }
        let arg = match self.parse_expr() {
            Some(arg) => arg,
            None => {
                return None;
            },
        };
        if self.consume(TokenType::RightParen).is_none() {
            return None;
        }
        if line_break {
            Some(Expr::Println(PrintlnExpr { arg: Box::new(arg), span }))
        } else {
            Some(Expr::Print(PrintExpr { arg: Box::new(arg), span }))
        }
    }
}

impl Parser {
    /// Reads the class name and the arguments of a construction; `new`, which stood at
    /// `span`, is already read.
    #[verifier::rlimit(60)]
    pub fn parse_new_expr(&mut self, span: Span) -> (r: Option<Expr>)
        ensures
            final(self).follows(
                *old(self),
                grammar::new_expr(old(self).stream(), old(self).cursor(), span),
                viewed(r),
            ),
        decreases old(self).cursor().left(old(self).stream()), 21nat,
    {
        match self.peek() {
            Some(next) => match next.token_type {
                TokenType::Identifier(class_name) => {
                    self.advance();
                    let args = self.parse_comma_expr();
                    Some(Expr::New(NewExpr { class_name, args, span }))
                },
                other => {
                    let expected = TokenType::Identifier(String::from_str("class name")).to_string();
                    self.record(
                        ParseError::ExpectedButFound {
                            expected,
                            found: other.to_string(),
                            span: Some(next.span),
                        },
                    );
                    None
                },
            },
            None => {
                self.record(ParseError::UnexpectedEOF { span: Some(span) });
                None
            },
        }
    }

    /// Reads what follows the identifier `name`, which stood at `span` and is already read.
    #[verifier::rlimit(60)]
    pub fn parse_name_expr(&mut self, name: String, span: Span) -> (r: Option<Expr>)
        ensures
            final(self).follows(
                *old(self),
                grammar::name_expr(old(self).stream(), old(self).cursor(), name@, span),
                viewed(r),
            ),
        decreases old(self).cursor().left(old(self).stream()), 21nat,
    {
        let call = match self.peek() {
            Some(next) => next.token_type.is_kind(TokenType::LeftParen),
            None => false,
        };
        if call {
            let args = self.parse_comma_expr();
            match self.current_span() {
                Some(end) => Some(Expr::FunCall(FunCall { callee: name, args, span: end })),
                None => None,
            }
        } else {
            Some(Expr::Variable(Variable { name, span }))
        }
    }

    /// Reads an expression and the `)` that closes it; the `(`, which stood at `span`, is
    /// already read.
    #[verifier::rlimit(60)]
    pub fn parse_grouped_expr(&mut self, span: Span) -> (r: Option<Expr>)
        ensures
            final(self).follows(
                *old(self),
                grammar::grouped_expr(old(self).stream(), old(self).cursor(), span),
                viewed(r),
            ),
        decreases old(self).cursor().left(old(self).stream()), 21nat,
    {
        let inner = match self.parse_expr() {
            Some(inner) => inner,
            None => {
                return None;
            },
        };
        let closed = match self.peek() {
            Some(next) => next.token_type.is_kind(TokenType::RightParen),
            None => false,
        };
        if closed {
            self.advance();
            Some(Expr::Grouped(Box::new(inner), span))
        } else {
            self.record(
                ParseError::ExpectedButFound {
                    expected: String::from_str("expression"),
                    found: TokenType::LeftParen.to_string(),
                    span: Some(span),
                },
            );
            None
        }
    }
}

impl Parser {
    /// Reads an expression, for the rules for statements and declarations.
    pub fn parse_expression(&mut self) -> (r: Option<Expr>)
        ensures
            final(self).follows(
                *old(self),
                grammar::expression(old(self).stream(), old(self).cursor()),
                viewed(r),
            ),
            r is Some ==> final(self).moved(*old(self)),
    {
        proof {
            reveal(grammar::expression);
        }
        self.parse_expr()
    }

    /// Reads a call expression, for the rule for the assignment of a field.
    pub fn parse_chain(&mut self) -> (r: Option<Expr>)
        ensures
            final(self).follows(
                *old(self),
                grammar::chain(old(self).stream(), old(self).cursor()),
                viewed(r),
            ),
            r is Some ==> final(self).moved(*old(self)),
    {
        proof {
            reveal(grammar::chain);
        }
        self.parse_call_expr()
    }

    /// Reads an argument list, for the rule for constructors.
    pub fn parse_arguments(&mut self) -> (exprs: Vec<Expr>)
        ensures
            final(self).after(
                *old(self),
                grammar::arguments(old(self).stream(), old(self).cursor()).cursor,
            ),
            Expr::models(exprs@) == grammar::arguments(
                old(self).stream(),
                old(self).cursor(),
            ).items,
    {
        proof {
            reveal(grammar::arguments);
        }
        self.parse_comma_expr()
    }
}

impl ParserExpr for Parser {
    /// Reads an expression.
    #[verifier::rlimit(60)]
    fn parse_expr(&mut self) -> (r: Option<Expr>)
        ensures
            final(self).follows(
                *old(self),
                grammar::expr(old(self).stream(), old(self).cursor()),
                viewed(r),
            ),
            r is Some ==> final(self).moved(*old(self)),
        decreases old(self).cursor().left(old(self).stream()), 19nat,
    {
        self.parse_or_expr()
    }

    /// Reads a chain of `||`.
    #[verifier::rlimit(60)]
    fn parse_or_expr(&mut self) -> (r: Option<Expr>)
        ensures
            final(self).follows(
                *old(self),
                grammar::or_expr(old(self).stream(), old(self).cursor()),
                viewed(r),
            ),
            r is Some ==> final(self).moved(*old(self)),
        decreases old(self).cursor().left(old(self).stream()), 18nat,
    {
        let mut left = match self.parse_and_expr() {
            Some(left) => left,
            None => {
                return None;
            },
        };
        let ghost goal = grammar::or_expr(old(self).stream(), old(self).cursor());
        loop
            invariant
                self.tokens == old(self).tokens,
                self.moved(*old(self)),
                grammar::or_tail(self.stream(), self.cursor(), left@) == goal,
                goal == grammar::or_expr(old(self).stream(), old(self).cursor()),
            decreases self.cursor().left(self.stream()),
        {
            let token = match self.peek() {
                Some(token) => token,
                None => {
                    return Some(left);
                },
            };
            if !token.token_type.is_kind(TokenType::Or) {
                return Some(left);
            }
            self.advance();
            match self.parse_and_expr() {
                    Some(right) => {
                        left = Expr::Binary(
                            BinaryExpr {
                                left: Box::new(left),
                                operator: token.token_type.which_binary_op(),
                                right: Box::new(right),
                                span: token.span,
                            },
                        );
                    },
                    None => {
                        let span = match self.current_span() {
                            Some(span) => span,
                            None => {
                                return None;
                            },
                        };
                        self.record(ParseError::ExpectedExpression { span });
                    },
                }
        }
    }

    /// Reads a chain of `&&`.
    #[verifier::rlimit(60)]
    fn parse_and_expr(&mut self) -> (r: Option<Expr>)
        ensures
            final(self).follows(
                *old(self),
                grammar::and_expr(old(self).stream(), old(self).cursor()),
                viewed(r),
            ),
            r is Some ==> final(self).moved(*old(self)),
        decreases old(self).cursor().left(old(self).stream()), 16nat,
    {
        let mut left = match self.parse_comparison_expr() {
            Some(left) => left,
            None => {
                return None;
            },
        };
        let ghost goal = grammar::and_expr(old(self).stream(), old(self).cursor());
        loop
            invariant
                self.tokens == old(self).tokens,
                self.moved(*old(self)),
                grammar::and_tail(self.stream(), self.cursor(), left@) == goal,
                goal == grammar::and_expr(old(self).stream(), old(self).cursor()),
            decreases self.cursor().left(self.stream()),
        {
            let token = match self.peek() {
                Some(token) => token,
                None => {
                    return Some(left);
                },
            };
            if !token.token_type.is_kind(TokenType::And) {
                return Some(left);
            }
            self.advance();
            match self.parse_comparison_expr() {
                    Some(right) => {
                        left = Expr::Binary(
                            BinaryExpr {
                                left: Box::new(left),
                                operator: token.token_type.which_binary_op(),
                                right: Box::new(right),
                                span: token.span,
                            },
                        );
                    },
                    None => {
                        let span = match self.current_span() {
                            Some(span) => span,
                            None => {
                                return None;
                            },
                        };
                        self.record(ParseError::ExpectedExpression { span });
                    },
                }
        }
    }

    /// Reads a chain of comparisons.
    #[verifier::rlimit(60)]
    fn parse_comparison_expr(&mut self) -> (r: Option<Expr>)
        ensures
            final(self).follows(
                *old(self),
                grammar::comparison_expr(old(self).stream(), old(self).cursor()),
                viewed(r),
            ),
            r is Some ==> final(self).moved(*old(self)),
        decreases old(self).cursor().left(old(self).stream()), 14nat,
    {
        let mut left = match self.parse_add_expr() {
            Some(left) => left,
            None => {
                return None;
            },
        };
        let ghost goal = grammar::comparison_expr(old(self).stream(), old(self).cursor());
        loop
            invariant
                self.tokens == old(self).tokens,
                self.moved(*old(self)),
                grammar::comparison_tail(self.stream(), self.cursor(), left@) == goal,
                goal == grammar::comparison_expr(old(self).stream(), old(self).cursor()),
            decreases self.cursor().left(self.stream()),
        {
            let token = match self.peek() {
                Some(token) => token,
                None => {
                    return Some(left);
                },
            };
            if !token.token_type.is_comparison() {
                return Some(left);
            }
            self.advance();
            let right = self.parse_add_expr();
                let span = match self.current_span() {
                    Some(span) => span,
                    None => {
                        return None;
                    },
                };
                match right {
                    Some(right) => {
                        left = Expr::Binary(
                            BinaryExpr {
                                left: Box::new(left),
                                operator: token.token_type.which_binary_op(),
                                right: Box::new(right),
                                span,
                            },
                        );
                    },
                    None => {
                        self.record(ParseError::UnexpectedEOF { span: Some(span) });
                        return None;
                    },
                }
        }
    }

    /// Reads a chain of `+` and `-`.
    #[verifier::rlimit(60)]
    fn parse_add_expr(&mut self) -> (r: Option<Expr>)
        ensures
            final(self).follows(
                *old(self),
                grammar::add_expr(old(self).stream(), old(self).cursor()),
                viewed(r),
            ),
            r is Some ==> final(self).moved(*old(self)),
        decreases old(self).cursor().left(old(self).stream()), 12nat,
    {
        let mut left = match self.parse_mult_expr() {
            Some(left) => left,
            None => {
                return None;
            },
        };
        let ghost goal = grammar::add_expr(old(self).stream(), old(self).cursor());
        loop
            invariant
                self.tokens == old(self).tokens,
                self.moved(*old(self)),
                grammar::add_tail(self.stream(), self.cursor(), left@) == goal,
                goal == grammar::add_expr(old(self).stream(), old(self).cursor()),
            decreases self.cursor().left(self.stream()),
        {
            let token = match self.peek() {
                Some(token) => token,
                None => {
                    return Some(left);
                },
            };
            if !token.token_type.is_additive() {
                return Some(left);
            }
            self.advance();
            let right = self.parse_mult_expr();
                let span = match self.current_span() {
                    Some(span) => span,
                    None => {
                        return None;
                    },
                };
                match right {
                    Some(right) => {
                        left = Expr::Binary(
                            BinaryExpr {
                                left: Box::new(left),
                                operator: token.token_type.which_binary_op(),
                                right: Box::new(right),
                                span,
                            },
                        );
                    },
                    None => {
                        self.record(ParseError::UnexpectedEOF { span: Some(span) });
                        return None;
                    },
                }
        }
    }

    /// Reads a chain of `*` and `/`.
    #[verifier::rlimit(60)]
    fn parse_mult_expr(&mut self) -> (r: Option<Expr>)
        ensures
            final(self).follows(
                *old(self),
                grammar::mult_expr(old(self).stream(), old(self).cursor()),
                viewed(r),
            ),
            r is Some ==> final(self).moved(*old(self)),
        decreases old(self).cursor().left(old(self).stream()), 10nat,
    {
        let mut left = match self.parse_unary_expr() {
            Some(left) => left,
            None => {
                return None;
            },
        };
        let ghost goal = grammar::mult_expr(old(self).stream(), old(self).cursor());
        loop
            invariant
                self.tokens == old(self).tokens,
                self.moved(*old(self)),
                grammar::mult_tail(self.stream(), self.cursor(), left@) == goal,
                goal == grammar::mult_expr(old(self).stream(), old(self).cursor()),
            decreases self.cursor().left(self.stream()),
        {
            let token = match self.peek() {
                Some(token) => token,
                None => {
                    return Some(left);
                },
            };
            if !token.token_type.is_multiplicative() {
                return Some(left);
            }
            self.advance();
            match self.parse_unary_expr() {
                    Some(right) => {
                        left = Expr::Binary(
                            BinaryExpr {
                                left: Box::new(left),
                                operator: token.token_type.which_binary_op(),
                                right: Box::new(right),
                                span: token.span,
                            },
                        );
                    },
                    None => {
                        self.record(ParseError::UnexpectedEOF { span: Some(token.span) });
                        return None;
                    },
                }
        }
    }

    /// Reads a prefix operator and its operand, or a call expression.
    #[verifier::rlimit(60)]
    fn parse_unary_expr(&mut self) -> (r: Option<Expr>)
        ensures
            final(self).follows(
                *old(self),
                grammar::unary_expr(old(self).stream(), old(self).cursor()),
                viewed(r),
            ),
            r is Some ==> final(self).moved(*old(self)),
        decreases old(self).cursor().left(old(self).stream()), 8nat,
    {
        let token = match self.peek() {
            Some(token) => token,
            None => {
                return None;
            },
        };
        let operator = match token.token_type {
            TokenType::Not => UnaryOp::Not,
            TokenType::Minus => UnaryOp::Negate,
            TokenType::Plus => UnaryOp::Plus,
            _ => {
                return self.parse_call_expr();
            },
        };
        self.advance();
        match self.parse_unary_expr() {
            Some(operand) => Some(
                Expr::Unary(UnaryExpr { operator, expr: Box::new(operand), span: token.span }),
            ),
            None => None,
        }
    }

    /// Reads a primary expression and the method calls and fields behind it.
    #[verifier::rlimit(60)]
    fn parse_call_expr(&mut self) -> (r: Option<Expr>)
        ensures
            final(self).follows(
                *old(self),
                grammar::call_expr(old(self).stream(), old(self).cursor()),
                viewed(r),
            ),
            r is Some ==> final(self).moved(*old(self)),
        decreases old(self).cursor().left(old(self).stream()), 6nat,
    {
        let mut object = match self.parse_primary_expr() {
            Some(object) => object,
            None => {
                return None;
            },
        };
        let ghost goal = grammar::call_expr(old(self).stream(), old(self).cursor());
        loop
            invariant
                self.tokens == old(self).tokens,
                self.moved(*old(self)),
                grammar::call_tail(self.stream(), self.cursor(), object@) == goal,
                goal == grammar::call_expr(old(self).stream(), old(self).cursor()),
            decreases self.cursor().left(self.stream()),
        {
            let token = match self.peek() {
                Some(token) => token,
                None => {
                    return Some(object);
                },
            };
            if !token.token_type.is_kind(TokenType::Dot) {
                return Some(object);
            }
            self.advance();
            let member = match self.consume_identifier("method name") {
                Some(member) => member,
                None => {
                    return None;
                },
            };
            let call = match self.peek() {
                Some(next) => next.token_type.is_kind(TokenType::LeftParen),
                None => false,
            };
            if call {
                let args = self.parse_comma_expr();
                object = Expr::MethCall(
                    MethCall { object: Box::new(object), meth: member, args, span: token.span },
                );
            } else {
                object = Expr::Field(
                    Field { object: Box::new(object), field: member, span: token.span },
                );
            }
        }
    }

    /// Reads a literal, `this`, a construction, a print, a variable, a call of a
    /// function, or an expression in parentheses.
    #[verifier::rlimit(60)]
    fn parse_primary_expr(&mut self) -> (r: Option<Expr>)
        ensures
            final(self).follows(
                *old(self),
                grammar::primary_expr(old(self).stream(), old(self).cursor()),
                viewed(r),
            ),
            r is Some ==> final(self).moved(*old(self)),
        decreases old(self).cursor().left(old(self).stream()), 4nat,
    {
        let token = match self.peek() {
            Some(token) => token,
            None => {
                return None;
            },
        };
        let span = token.span;
        match token.token_type {
            TokenType::StringLiteral(value) => {
                self.advance();
                Some(Expr::StringLiteral(StringLiteral { value, span }))
            },
            TokenType::IntegerLiteral(value) => {
                self.advance();
                Some(Expr::IntegerLiteral(IntegerLiteral { value, span }))
            },
            TokenType::This => {
                self.advance();
                Some(Expr::This(ThisExpr { span }))
            },
            TokenType::True => {
                self.advance();
                Some(Expr::BooleanLiteral(BooleanLiteral { value: true, span }))
            },
            TokenType::False => {
                self.advance();
                Some(Expr::BooleanLiteral(BooleanLiteral { value: false, span }))
            },
            TokenType::Println => {
                self.advance();
                self.parse_print_call(span, true)
            },
            TokenType::Print => {
                self.advance();
                self.parse_print_call(span, false)
            },
            TokenType::New => {
                self.advance();
                self.parse_new_expr(span)
            },
            TokenType::Identifier(name) => {
                self.advance();
                self.parse_name_expr(name, span)
            },
            TokenType::LeftParen => {
                self.advance();
                self.parse_grouped_expr(span)
            },
            _ => None,
        }
    }

    /// Reads an argument list.
    #[verifier::rlimit(60)]
    fn parse_comma_expr(&mut self) -> (exprs: Vec<Expr>)
        ensures
            final(self).after(
                *old(self),
                grammar::comma_expr(old(self).stream(), old(self).cursor()).cursor,
            ),
            Expr::models(exprs@) == grammar::comma_expr(
                old(self).stream(),
                old(self).cursor(),
            ).items,
            old(self).cursor().at(old(self).stream(), crate::lexer::TokenTypeView::LeftParen)
                ==> final(self).moved(*old(self)),
        decreases old(self).cursor().left(old(self).stream()), 20nat,
    {
        let mut exprs: Vec<Expr> = Vec::new();
        let _ = self.consume(TokenType::LeftParen);
        match self.parse_expr() {
            Some(first) => {
                exprs.push(first);
                assert(Expr::models(exprs@) =~= seq![first@]);
            },
            None => {
                assert(Expr::models(exprs@) =~= Seq::empty());
            },
        }
        let ghost goal = grammar::comma_expr(old(self).stream(), old(self).cursor());
        loop
            invariant
                self.tokens == old(self).tokens,
                self.position >= old(self).position,
                old(self).cursor().at(old(self).stream(), crate::lexer::TokenTypeView::LeftParen)
                    ==> self.moved(*old(self)),
                grammar::comma_tail(self.stream(), self.cursor(), Expr::models(exprs@)) == goal,
                goal == grammar::comma_expr(old(self).stream(), old(self).cursor()),
            decreases self.cursor().left(self.stream()),
        {
            let token = match self.peek() {
                Some(token) => token,
                None => {
                    return exprs;
                },
            };
            match token.token_type {
                TokenType::RightParen => {
                    self.advance();
                    return exprs;
                },
                TokenType::Comma => {
                    self.advance();
                    match self.parse_expr() {
                        Some(next) => {
                            let ghost before = Expr::models(exprs@);
                            exprs.push(next);
                            assert(Expr::models(exprs@) =~= before.push(next@));
                        },
                        None => {
                            self.record(
                                ParseError::ExpectedExpressionAfterComma {
                                    symbol: TokenType::Comma.to_string(),
                                    span: token.span,
                                },
                            );
                        },
                    }
                },
                other => {
                    self.record(
                        ParseError::UnexpectedToken { symbol: other.to_string(), span: token.span },
                    );
                    return exprs;
                },
            }
        }
    }
}

} // verus!
