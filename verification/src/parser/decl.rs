use vstd::prelude::*;
use vstd::string::*;
use crate::ast::{
    class_views, fun_views, method_views, param_views, var_views, ClassDef, Constructor, Entry,
    Expr, FunDef, MethDef, ParamDecl, Stmt, VarDeclStmt,
};
use crate::lexer::{Span, TokenType, TokenTypeView, TypeName};
use crate::parser::engine::Parser;
use crate::views::viewed;
use crate::parser::error::ParseError;
use crate::parser::grammar;
use crate::parser::stmt::ParserStmt;
use crate::parser::types::SyncPoint;

verus! {

/// The declaration rules of the grammar.
pub trait ParserDecl {
    /// Reads a class.
    fn parse_class(&mut self) -> Option<ClassDef>;

    /// Reads the constructor of a class.
    fn parse_constructor(&mut self, class_name: &str) -> Option<Constructor>;

    /// Reads a method of class `class_name`.
    fn parse_method(&mut self, class_name: &str) -> Option<MethDef>;

    /// Reads a parameter list.
    fn parse_comma_param_decl(&mut self, parent_name: &str) -> Option<Vec<ParamDecl>>;

    /// Reads one parameter.
    fn parse_param(&mut self, parent_name: &str, parent_span: Span) -> Option<ParamDecl>;

    /// Reads a function.
    fn parse_fun(&mut self) -> Option<FunDef>;
}

impl Parser {
    /// Reads a statement, for the rules for declarations and for the whole program.
    pub fn parse_statement(&mut self) -> (r: Option<Stmt>)
        ensures
            final(self).follows(
                *old(self),
                grammar::statement(old(self).stream(), old(self).cursor()),
                viewed(r),
            ),
            r is Some ==> final(self).moved(*old(self)),
    {
        proof {
            reveal(grammar::statement);
        }
        self.parse_stmt()
    }

    /// Records the token that stands where a parameter could not be read, and passes over
    /// it.
    pub fn skip_unexpected(&mut self)
        ensures
            final(self).after(
                *old(self),
                grammar::skip_unexpected(old(self).stream(), old(self).cursor()),
            ),
            old(self).position < old(self).stream().len() ==> final(self).position > old(
                self,
            ).position,
    {
        match self.peek() {
            Some(token) => {
                self.record(
                    ParseError::UnexpectedToken {
                        symbol: token.token_type.to_string(),
                        span: token.span,
                    },
                );
                self.advance();
            },
            None => {},
        }
    }

    /// Reads the type behind the arrow of function or method `symbol`.
    pub fn parse_result_type(&mut self, symbol: &str) -> (r: TypeName)
        ensures
            final(self).after(
                *old(self),
                grammar::result_type(old(self).stream(), old(self).cursor(), symbol@).cursor,
            ),
            r@ == grammar::result_type(old(self).stream(), old(self).cursor(), symbol@).value,
    {
        proof {
            reveal(grammar::result_type);
        }
        let span = self.current_span();
        match self.consume_type() {
            Some(declared) => declared,
            None => {
                match span {
                    Some(span) => {
                        self.record(
                            ParseError::ExpectedReturnType {
                                symbol: String::from_str(symbol),
                                span,
                            },
                        );
                    },
                    None => {},
                }
                TypeName::Void
            },
        }
    }

    /// Reads the name of a method of class `class_name`.
    pub fn parse_method_name(&mut self, class_name: &str) -> (r: Option<String>)
        ensures
            final(self).follows(
                *old(self),
                grammar::method_name(old(self).stream(), old(self).cursor(), class_name@),
                viewed(r),
            ),
    {
        proof {
            reveal(grammar::method_name);
        }
        let span = self.current_span();
        match self.consume_identifier("method name") {
            Some(name) => Some(name),
            None => {
                match span {
                    Some(span) => {
                        self.record(
                            ParseError::ExpectedMethName {
                                symbol: String::from_str(class_name),
                                span,
                            },
                        );
                    },
                    None => {},
                }
                None
            },
        }
    }

    /// Reads what follows the parameter list of function or method `name`.
    pub fn parse_signature_rest(&mut self, name: &str) -> (r: Option<(TypeName, Option<Stmt>)>)
        ensures
            final(self).after(
                *old(self),
                grammar::signature_rest(old(self).stream(), old(self).cursor(), name@).cursor,
            ),
            match r {
                Some((return_type, statements)) => grammar::signature_rest(
                    old(self).stream(),
                    old(self).cursor(),
                    name@,
                ).value == Some((return_type@, viewed(statements))),
                None => grammar::signature_rest(
                    old(self).stream(),
                    old(self).cursor(),
                    name@,
                ).value is None,
            },
    {
        proof {
            reveal(grammar::signature_rest);
        }
        let at_end = match self.peek() {
            Some(token) => token.token_type.is_kind(TokenType::EOF),
            None => false,
        };
        let span = self.current_span();
        if self.consume(TokenType::Arrow).is_none() {
            if at_end {
                self.record(ParseError::UnexpectedEOF { span });
            }
            return None;
        }
        let return_type = self.parse_result_type(name);
        let statements = self.parse_statement();
        Some((return_type, statements))
    }

    /// Reads the call of the parent's constructor at the start of a constructor's body, if
    /// there is one.
    pub fn parse_super_call(&mut self) -> (r: Option<Option<Vec<Expr>>>)
        ensures
            final(self).after(
                *old(self),
                grammar::super_call(old(self).stream(), old(self).cursor()).cursor,
            ),
            match r {
                Some(Some(args)) => grammar::super_call(
                    old(self).stream(),
                    old(self).cursor(),
                ).value == Some(Some(Expr::models(args@))),
                Some(None) => grammar::super_call(old(self).stream(), old(self).cursor()).value
                    == Some(None::<Seq<crate::ast::ExprView>>),
                None => grammar::super_call(old(self).stream(), old(self).cursor()).value is None,
            },
    {
        proof {
            reveal(grammar::super_call);
        }
        if self.consume_optional(TokenType::Super).is_none() {
            return Some(None);
        }
        let args = match self.consume_two_optionals(TokenType::LeftParen, TokenType::RightParen) {
            Some(_) => {
                let mut args: Vec<Expr> = Vec::new();
                args.push(Expr::Empty);
                assert(Expr::models(args@) =~= seq![crate::ast::ExprView::Empty]);
                args
            },
            None => self.parse_arguments(),
        };
        if self.consume(TokenType::Semicolon).is_none() {
            return None;
        }
        Some(Some(args))
    }

    /// Reads the head of a class.
    pub fn parse_class_head(&mut self) -> (r: Option<(String, Option<String>)>)
        ensures
            final(self).after(
                *old(self),
                grammar::class_head(old(self).stream(), old(self).cursor()).cursor,
            ),
            match r {
                Some((name, extends)) => grammar::class_head(
                    old(self).stream(),
                    old(self).cursor(),
                ).value == Some((name@, viewed(extends))),
                None => grammar::class_head(old(self).stream(), old(self).cursor()).value is None,
            },
            old(self).cursor().at(old(self).stream(), TokenTypeView::Class) ==> final(self).moved(
                *old(self),
            ),
    {
        proof {
            reveal(grammar::class_head);
        }
        if self.consume(TokenType::Class).is_none() {
            return None;
        }
        let name = match self.consume_identifier("class name") {
            Some(name) => name,
            None => {
                return None;
            },
        };
        let mut extends: Option<String> = None;
        if self.consume_optional(TokenType::Extends).is_some() {
            extends = self.consume_identifier("parent class name");
        }
        if self.consume(TokenType::LeftBrace).is_none() {
            return None;
        }
        Some((name, extends))
    }

    /// Reads the methods of class `class_name`. The flag tells whether they ended without
    /// one that could not be read.
    pub fn parse_methods(&mut self, class_name: &str) -> (r: (Vec<MethDef>, bool))
        ensures
            final(self).after(
                *old(self),
                grammar::methods_tail(
                    old(self).stream(),
                    old(self).cursor(),
                    class_name@,
                    Seq::empty(),
                ).cursor,
            ),
            method_views(r.0@) == grammar::methods_tail(
                old(self).stream(),
                old(self).cursor(),
                class_name@,
                Seq::empty(),
            ).items,
            r.1 == grammar::methods_tail(
                old(self).stream(),
                old(self).cursor(),
                class_name@,
                Seq::empty(),
            ).complete,
    {
        let mut methods: Vec<MethDef> = Vec::new();
        let ghost goal = grammar::methods_tail(
            old(self).stream(),
            old(self).cursor(),
            class_name@,
            Seq::empty(),
        );
        assert(method_views(methods@) =~= Seq::empty());
        loop
            invariant
                self.tokens == old(self).tokens,
                self.position >= old(self).position,
                grammar::methods_tail(
                    self.stream(),
                    self.cursor(),
                    class_name@,
                    method_views(methods@),
                ) == goal,
                goal == grammar::methods_tail(
                    old(self).stream(),
                    old(self).cursor(),
                    class_name@,
                    Seq::empty(),
                ),
            decreases self.cursor().left(self.stream()),
        {
            let token = match self.peek() {
                Some(token) => token,
                None => {
                    return (methods, true);
                },
            };
            if !token.token_type.is_kind(TokenType::Meth) {
                return (methods, true);
            }
            match self.parse_method(class_name) {
                Some(method) => {
                    let ghost before = method_views(methods@);
                    methods.push(method);
                    assert(method_views(methods@) =~= before.push(method@));
                },
                None => {
                    self.record(
                        ParseError::ExpectedMethName {
                            symbol: String::from_str(class_name),
                            span: token.span,
                        },
                    );
                    self.synchronize(SyncPoint::ClassBody);
                    return (methods, false);
                },
            }
        }
    }

    /// Reads one construct at the top level of a program and adds it to `program` if it
    /// could be read.
    pub fn parse_top_level(&mut self, program: &mut Entry)
        ensures
            final(self).after(
                *old(self),
                grammar::top_level(old(self).stream(), old(self).cursor(), old(program)@).cursor,
            ),
            final(program)@ == grammar::top_level(
                old(self).stream(),
                old(self).cursor(),
                old(program)@,
            ).entry,
            old(self).position < old(self).stream().len() ==> final(self).position > old(
                self,
            ).position,
    {
        let token = match self.peek() {
            Some(token) => token,
            None => {
                let _ = self.parse_statement();
                self.advance();
                return ;
            },
        };
        if token.token_type.is_kind(TokenType::Class) {
            match self.parse_class() {
                Some(class) => {
                    let ghost before = class_views(program.class_defs@);
                    program.class_defs.push(class);
                    assert(class_views(program.class_defs@) =~= before.push(class@));
                },
                None => {},
            }
        } else if token.token_type.is_kind(TokenType::Fun) {
            match self.parse_fun() {
                Some(fun) => {
                    let ghost before = fun_views(program.fun_defs@);
                    program.fun_defs.push(fun);
                    assert(fun_views(program.fun_defs@) =~= before.push(fun@));
                },
                None => {},
            }
        } else {
            match self.parse_statement() {
                Some(stmt) => {
                    let ghost before = Stmt::models(program.statements@);
                    program.statements.push(stmt);
                    assert(Stmt::models(program.statements@) =~= before.push(stmt@));
                },
                None => {
                    self.advance();
                },
            }
        }
    }

    /// Reads a whole program. Reading never fails as a whole: what cannot be read is
    /// recorded and left out, and the result holds everything else.
    pub fn parse(&mut self) -> (r: Option<Entry>)
        ensures
            final(self).after(
                *old(self),
                grammar::program(old(self).stream(), old(self).cursor()).cursor,
            ),
            r matches Some(entry) && entry@ == grammar::program(
                old(self).stream(),
                old(self).cursor(),
            ).entry,
    {
        let mut program = Entry {
            statements: Vec::new(),
            class_defs: Vec::new(),
            fun_defs: Vec::new(),
        };
        assert(program@ =~= grammar::empty_entry()) by {
            assert(Stmt::models(program.statements@) =~= Seq::empty());
            assert(class_views(program.class_defs@) =~= Seq::empty());
            assert(fun_views(program.fun_defs@) =~= Seq::empty());
        }
        let ghost goal = grammar::program(old(self).stream(), old(self).cursor());
        loop
            invariant
                self.tokens == old(self).tokens,
                self.position >= old(self).position,
                grammar::program_tail(self.stream(), self.cursor(), program@) == goal,
                goal == grammar::program(old(self).stream(), old(self).cursor()),
            decreases self.cursor().left(self.stream()),
        {
            let token = match self.peek() {
                Some(token) => token,
                None => {
                    return Some(program);
                },
            };
            if token.token_type.is_kind(TokenType::EOF) {
                return Some(program);
            }
            self.parse_top_level(&mut program);
        }
    }
}

impl ParserDecl for Parser {
    /// Reads a class.
    fn parse_class(&mut self) -> (r: Option<ClassDef>)
        ensures
            final(self).follows(
                *old(self),
                grammar::class(old(self).stream(), old(self).cursor()),
                viewed(r),
            ),
            old(self).cursor().at(old(self).stream(), TokenTypeView::Class) ==> final(self).moved(
                *old(self),
            ),
    {
        proof {
            reveal(grammar::class);
        }
        let (name, extends) = match self.parse_class_head() {
            Some(head) => head,
            None => {
                return None;
            },
        };
        match self.peek() {
            Some(token) => {
                if !token.token_type.is_kind(TokenType::Init) {
                    self.record(ParseError::MissingClassInit { symbol: name, span: token.span });
                    return None;
                }
            },
            None => {},
        }
        let constructor = match self.parse_constructor(name.as_str()) {
            Some(constructor) => constructor,
            None => {
                let constructor = Constructor {
                    params: Vec::new(),
                    super_call: None,
                    statements: None,
                };
                assert(param_views(constructor.params@) =~= Seq::empty());
                constructor
            },
        };
        let (methods, complete) = self.parse_methods(name.as_str());
        if !complete {
            return None;
        }
        if self.consume(TokenType::RightBrace).is_none() {
            return None;
        }
        let vars: Vec<VarDeclStmt> = Vec::new();
        assert(var_views(vars@) =~= Seq::empty());
        Some(ClassDef { name, extends, vars, constructor, methods })
    }

    /// Reads the constructor of a class.
    fn parse_constructor(&mut self, class_name: &str) -> (r: Option<Constructor>)
        ensures
            final(self).follows(
                *old(self),
                grammar::constructor(old(self).stream(), old(self).cursor()),
                viewed(r),
            ),
    {
        proof {
            reveal(grammar::constructor);
        }
        if self.consume_optional(TokenType::Init).is_none() {
            return None;
        }
        let params = match self.parse_comma_param_decl(class_name) {
            Some(params) => params,
            None => {
                let params: Vec<ParamDecl> = Vec::new();
                assert(param_views(params@) =~= Seq::empty());
                params
            },
        };
        if self.consume(TokenType::LeftBrace).is_none() {
            return None;
        }
        let super_call = match self.parse_super_call() {
            Some(super_call) => super_call,
            None => {
                return None;
            },
        };
        let statements = self.parse_statement();
        if self.consume(TokenType::RightBrace).is_none() {
            return None;
        }
        Some(Constructor { params, super_call, statements })
    }

    /// Reads a method of class `class_name`.
    fn parse_method(&mut self, class_name: &str) -> (r: Option<MethDef>)
        ensures
            final(self).follows(
                *old(self),
                grammar::method(old(self).stream(), old(self).cursor(), class_name@),
                viewed(r),
            ),
            old(self).cursor().at(old(self).stream(), TokenTypeView::Meth) ==> final(self).moved(
                *old(self),
            ),
    {
        proof {
            reveal(grammar::method);
        }
        let _ = self.consume(TokenType::Meth);
        let name = match self.parse_method_name(class_name) {
            Some(name) => name,
            None => String::new(),
        };
        let params = match self.parse_comma_param_decl(name.as_str()) {
            Some(params) => params,
            None => {
                return None;
            },
        };
        match self.parse_signature_rest(name.as_str()) {
            Some((return_type, statements)) => Some(
                MethDef { name, params, return_type, statements },
            ),
            None => None,
        }
    }

    /// Reads a parameter list.
    fn parse_comma_param_decl(&mut self, parent_name: &str) -> (r: Option<Vec<ParamDecl>>)
        ensures
            final(self).after(
                *old(self),
                grammar::comma_param_decl(old(self).stream(), old(self).cursor()).cursor,
            ),
            match r {
                Some(params) => grammar::comma_param_decl(
                    old(self).stream(),
                    old(self).cursor(),
                ).value == Some(param_views(params@)),
                None => grammar::comma_param_decl(old(self).stream(), old(self).cursor()).value
                    is None,
            },
    {
        proof {
            reveal(grammar::comma_param_decl);
        }
        let mut params: Vec<ParamDecl> = Vec::new();
        assert(param_views(params@) =~= Seq::empty());
        if self.consume_two_optionals(TokenType::LeftParen, TokenType::RightParen).is_some() {
            return Some(params);
        }
        if self.consume(TokenType::LeftParen).is_none() {
            return None;
        }
        let ghost inside = grammar::params_tail(self.stream(), self.cursor(), Seq::empty());
        loop
            invariant
                self.tokens == old(self).tokens,
                self.position >= old(self).position,
                grammar::params_tail(self.stream(), self.cursor(), param_views(params@)) == inside,
                grammar::comma_param_decl(old(self).stream(), old(self).cursor()) == grammar::done(
                    inside.items,
                    inside.cursor,
                ),
            decreases self.cursor().left(self.stream()),
        {
            let token = match self.peek() {
                Some(token) => token,
                None => {
                    return Some(params);
                },
            };
            if token.token_type.is_kind(TokenType::RightParen) {
                self.advance();
                return Some(params);
            }
            if token.token_type.is_kind(TokenType::Comma) {
                self.advance();
            }
            match self.parse_param(parent_name, token.span) {
                Some(param) => {
                    let ghost before = param_views(params@);
                    params.push(param);
                    assert(param_views(params@) =~= before.push(param@));
                },
                None => {
                    self.skip_unexpected();
                },
            }
        }
    }

    /// Reads one parameter.
    fn parse_param(&mut self, parent_name: &str, parent_span: Span) -> (r: Option<ParamDecl>)
        ensures
            final(self).follows(
                *old(self),
                grammar::param(old(self).stream(), old(self).cursor()),
                viewed(r),
            ),
            r is Some ==> final(self).moved(*old(self)),
    {
        proof {
            reveal(grammar::param);
        }
        let name = match self.consume_identifier("Expected parameter name") {
            Some(name) => name,
            None => {
                return None;
            },
        };
        if self.consume(TokenType::Colon).is_none() {
            return None;
        }
        let param_type = match self.consume_type() {
            Some(param_type) => param_type,
            None => {
                return None;
            },
        };
        Some(ParamDecl { name, param_type })
    }

    /// Reads a function.
    fn parse_fun(&mut self) -> (r: Option<FunDef>)
        ensures
            final(self).follows(
                *old(self),
                grammar::fun(old(self).stream(), old(self).cursor()),
                viewed(r),
            ),
            old(self).cursor().at(old(self).stream(), TokenTypeView::Fun) ==> final(self).moved(
                *old(self),
            ),
    {
        proof {
            reveal(grammar::fun);
        }
        let _ = self.consume(TokenType::Fun);
        let name = match self.consume_identifier("function name") {
            Some(name) => name,
            None => String::new(),
        };
        let params = match self.parse_comma_param_decl(name.as_str()) {
            Some(params) => params,
            None => {
                let params: Vec<ParamDecl> = Vec::new();
                assert(param_views(params@) =~= Seq::empty());
                params
            },
        };
        match self.parse_signature_rest(name.as_str()) {
            Some((return_type, statements)) => Some(
                FunDef { name, params, return_type, statements },
            ),
            None => None,
        }
    }
}

} // verus!
