use classlang::ast::{
    AssignStmt, BinaryExpr, BinaryOp, Entry, Expr, ExprStmt, FunCall, IntegerLiteral, MethCall,
    Stmt, Variable,
};
use classlang::codegen::CodeGenerator;
use classlang::lexer::{LexicalError, Lexer, Span, Token, TokenType};
use classlang::parser::{
    plain_text, render_errors, ParseError, Parser, ParserDecl, ParserExpr, ParserStmt, Style,
    SyncPoint,
};

fn tokens_of(input: &str) -> Vec<Token> {
    Lexer::new(input).tokenize().unwrap()
}

fn parse_program(input: &str) -> (Entry, Vec<ParseError>) {
    let mut parser = Parser::new(tokens_of(input));
    let entry = parser.parse().unwrap();
    (entry, parser.get_errors().to_vec())
}

fn integer(expr: &Expr) -> i64 {
    match expr {
        Expr::IntegerLiteral(IntegerLiteral { value, .. }) => *value,
        other => panic!("expected an integer literal, found {:?}", other),
    }
}

#[test]
fn clean_program_has_no_diagnostics_and_exact_counts() {
    let source = "let a: Int = 1; let b: Str; class A { init() {} } fun f() -> Int { return 1; }";
    let mut parser = Parser::new(tokens_of(source));
    assert!(!parser.has_errors());
    let entry = parser.parse().unwrap();
    assert!(!parser.has_errors());
    assert_eq!(parser.get_errors().len(), 0);
    assert_eq!(entry.statements.len(), 2);
    assert_eq!(entry.class_defs.len(), 1);
    assert_eq!(entry.fun_defs.len(), 1);
    assert_eq!(parser.position, parser.tokens.len() - 1);
}

#[test]
fn multiplication_binds_tighter_than_addition() {
    let mut parser = Parser::new(tokens_of("1 + 2 * 3"));
    match parser.parse_expr().unwrap() {
        Expr::Binary(BinaryExpr { left, operator: BinaryOp::Add, right, .. }) => {
            assert_eq!(integer(&left), 1);
            match *right {
                Expr::Binary(BinaryExpr { left, operator: BinaryOp::Multiply, right, .. }) => {
                    assert_eq!(integer(&left), 2);
                    assert_eq!(integer(&right), 3);
                },
                other => panic!("expected a product, found {:?}", other),
            }
        },
        other => panic!("expected a sum, found {:?}", other),
    }
}

#[test]
fn subtraction_associates_to_the_left() {
    let mut parser = Parser::new(tokens_of("5 - 3 - 1"));
    match parser.parse_expr().unwrap() {
        Expr::Binary(BinaryExpr { left, operator: BinaryOp::Subtract, right, .. }) => {
            assert_eq!(integer(&right), 1);
            match *left {
                Expr::Binary(BinaryExpr { left, operator: BinaryOp::Subtract, right, .. }) => {
                    assert_eq!(integer(&left), 5);
                    assert_eq!(integer(&right), 3);
                },
                other => panic!("expected a difference, found {:?}", other),
            }
        },
        other => panic!("expected a difference, found {:?}", other),
    }
}

#[test]
fn minimal_class_has_the_expected_shape() {
    let (entry, errors) = parse_program("class Animal { init() {} }");
    assert!(errors.is_empty());
    assert_eq!(entry.class_defs.len(), 1);
    let class = &entry.class_defs[0];
    assert_eq!(class.name, "Animal");
    assert_eq!(class.extends, None);
    assert_eq!(class.methods.len(), 0);
    assert_eq!(class.constructor.params.len(), 0);
    assert!(class.constructor.super_call.is_none());
}

#[test]
fn inheritance_clause_and_bare_super_call() {
    let (entry, errors) = parse_program("class Cat extends Animal { init() { super(); } }");
    assert!(errors.is_empty());
    let class = &entry.class_defs[0];
    assert_eq!(class.extends, Some("Animal".to_string()));
    assert_eq!(class.constructor.super_call, Some(vec![Expr::Empty]));
}

#[test]
fn super_call_with_arguments_keeps_them() {
    let (entry, _) = parse_program("class Cat extends Animal { init() { super(1, 2); } }");
    let args = entry.class_defs[0].constructor.super_call.clone().unwrap();
    assert_eq!(args.len(), 2);
    assert_eq!(integer(&args[0]), 1);
    assert_eq!(integer(&args[1]), 2);
}

#[test]
fn missing_constructor_is_recorded_and_the_class_dropped() {
    let (entry, errors) = parse_program("class Animal {}");
    assert_eq!(entry.class_defs.len(), 0);
    let found = errors.iter().find(|e| matches!(e, ParseError::MissingClassInit { .. })).unwrap();
    assert_eq!(found.get_code(), "E007");
    assert_eq!(found.get_span(), Some(&Span::new(1, 15)));
    assert!(matches!(found, ParseError::MissingClassInit { symbol, .. } if symbol == "Animal"));
    assert_eq!(found.to_string(), "Missing constructor for class 'Animal' at line 1:15");
}

#[test]
fn malformed_class_does_not_hide_a_later_function() {
    let (entry, errors) = parse_program("class Broken { } fun ok() -> Int { return 1; }");
    assert_eq!(entry.class_defs.len(), 0);
    assert_eq!(entry.fun_defs.len(), 1);
    assert_eq!(entry.fun_defs[0].name, "ok");
    assert!(!errors.is_empty());
}

#[test]
fn malformed_method_abandons_the_class_only() {
    let source = "class Zero { init() {} meth -> Int { return 0; } }\nfun ok() -> Int { return 1; }";
    let (entry, errors) = parse_program(source);
    assert_eq!(entry.class_defs.len(), 0);
    assert_eq!(entry.fun_defs.len(), 1);
    assert!(errors.iter().any(|e| matches!(e, ParseError::ExpectedMethName { symbol, .. } if symbol == "Zero")));
}

#[test]
fn field_assignment_and_method_call_are_told_apart() {
    let mut parser = Parser::new(tokens_of("object.field = 5;"));
    match parser.parse_stmt().unwrap() {
        Stmt::Assign(AssignStmt { name, expr, .. }) => {
            assert_eq!(name, "object.field");
            assert_eq!(integer(&expr), 5);
        },
        other => panic!("expected an assignment, found {:?}", other),
    }
    let mut parser = Parser::new(tokens_of("object.method();"));
    match parser.parse_stmt().unwrap() {
        Stmt::Expr(ExprStmt { expr, .. }) => match *expr {
            Expr::MethCall(MethCall { object, meth, args, .. }) => {
                assert!(matches!(*object, Expr::Variable(Variable { ref name, .. }) if name == "object"));
                assert_eq!(meth, "method");
                assert!(args.is_empty());
            },
            other => panic!("expected a method call, found {:?}", other),
        },
        other => panic!("expected an expression statement, found {:?}", other),
    }
}

#[test]
fn field_chain_folds_to_the_left() {
    let mut parser = Parser::new(tokens_of("a.b().c.d() "));
    match parser.parse_expr().unwrap() {
        Expr::MethCall(MethCall { object, meth, .. }) => {
            assert_eq!(meth, "d");
            match *object {
                Expr::Field(field) => {
                    assert_eq!(field.field, "c");
                    assert!(matches!(*field.object, Expr::MethCall(MethCall { ref meth, .. }) if meth == "b"));
                },
                other => panic!("expected a field, found {:?}", other),
            }
        },
        other => panic!("expected a method call, found {:?}", other),
    }
}

#[test]
fn trailing_comma_is_recorded_with_its_place() {
    let mut parser = Parser::new(tokens_of("bar(1,)"));
    let expr = parser.parse_expr().unwrap();
    assert!(matches!(expr, Expr::FunCall(FunCall { ref callee, ref args, .. }) if callee == "bar" && args.len() == 1));
    let errors = parser.get_errors().to_vec();
    assert_eq!(errors.len(), 1);
    assert_eq!(
        errors[0],
        ParseError::ExpectedExpressionAfterComma { symbol: ",".to_string(), span: Span::new(1, 6) }
    );
    assert_eq!(errors[0].get_code(), "E024");
}

#[test]
fn unexpected_token_ends_an_argument_list() {
    let mut parser = Parser::new(tokens_of("bar(1 2)"));
    let _ = parser.parse_expr();
    assert!(parser.get_errors().iter().any(|e| matches!(e, ParseError::UnexpectedToken { symbol, .. } if symbol == "IntegerLiteral(2)")));
}

#[test]
fn cursor_primitives_follow_their_rules() {
    let mut parser = Parser::new(tokens_of("a b"));
    assert_eq!(parser.tokens.len(), 3);
    assert_eq!(parser.peek().unwrap().token_type, TokenType::Identifier("a".to_string()));
    assert_eq!(parser.peek_ahead().unwrap().token_type, TokenType::Identifier("b".to_string()));
    assert_eq!(parser.peek_ahead_amount(2).unwrap().token_type, TokenType::EOF);
    assert!(parser.peek_ahead_amount(3).is_none());
    assert!(parser.peek_ahead_amount(usize::MAX).is_none());
    assert_eq!(parser.current_span(), Some(Span::new(1, 1)));
    assert!(parser.consume(TokenType::LeftParen).is_none());
    assert_eq!(parser.position, 0);
    assert_eq!(
        parser.get_errors()[0],
        ParseError::ExpectedButFound {
            expected: "(".to_string(),
            found: "Identifier(a)".to_string(),
            span: Some(Span::new(1, 1)),
        }
    );
    assert!(parser.consume_optional(TokenType::LeftParen).is_none());
    assert_eq!(parser.get_errors().len(), 1);
    assert_eq!(parser.consume_identifier("name"), Some("a".to_string()));
    assert_eq!(parser.position, 1);
    assert!(parser.consume_two_optionals(TokenType::LeftParen, TokenType::RightParen).is_none());
    assert_eq!(parser.consume_type(), Some(classlang::lexer::TypeName::Class("b".to_string())));
    assert!(parser.consume(TokenType::EOF).is_some());
    assert_eq!(parser.position, 3);
    parser.advance();
    assert_eq!(parser.position, 3);
    assert!(parser.peek().is_none());
    assert!(parser.consume(TokenType::EOF).is_none());
    assert_eq!(parser.get_errors().last(), Some(&ParseError::UnexpectedEOF { span: None }));
    assert!(parser.consume_optional(TokenType::EOF).is_none());
    assert_eq!(parser.get_errors().len(), 3);
}

#[test]
fn synchronize_resumes_at_a_class_body_boundary() {
    let mut parser = Parser::new(tokens_of("a b class c { d"));
    parser.synchronize(SyncPoint::Statement);
    assert_eq!(parser.position, 0);
    parser.synchronize(SyncPoint::ClassBody);
    assert_eq!(parser.position, 2);
    parser.advance();
    parser.synchronize(SyncPoint::ClassBody);
    assert_eq!(parser.position, 4);
    parser.advance();
    parser.synchronize(SyncPoint::ClassBody);
    assert_eq!(parser.position, 7);
}

#[test]
fn unexpected_parameter_token_is_recorded_and_skipped() {
    let mut parser = Parser::new(tokens_of("(x: Int, 5, y: Str)"));
    let params = parser.parse_comma_param_decl("f").unwrap();
    assert_eq!(params.len(), 2);
    assert_eq!(params[0].name, "x");
    assert_eq!(params[1].name, "y");
    assert!(parser.get_errors().iter().any(|e| matches!(e, ParseError::UnexpectedToken { symbol, .. } if symbol == "IntegerLiteral(5)")));
}

#[test]
fn missing_return_type_is_recorded_with_the_name() {
    let mut parser = Parser::new(tokens_of("fun f() -> { }"));
    let fun = parser.parse_fun().unwrap();
    assert_eq!(fun.name, "f");
    assert!(parser.get_errors().iter().any(|e| matches!(e, ParseError::ExpectedReturnType { symbol, .. } if symbol == "f")));
    let found = parser.get_errors().iter().find(|e| matches!(e, ParseError::ExpectedReturnType { .. })).unwrap();
    assert_eq!(found.get_code(), "E013");
}

#[test]
fn lexer_tells_not_equal_from_not() {
    let tokens = tokens_of("a != b ! c");
    assert_eq!(tokens[1].token_type, TokenType::NotEqual);
    assert_eq!(tokens[3].token_type, TokenType::Not);
}

#[test]
fn lexer_positions_count_lines_and_columns() {
    let tokens = tokens_of("a\n  bb /* x\ny */ c // d\n\"s\"");
    let places: Vec<(usize, usize)> = tokens.iter().map(|t| (t.span.line, t.span.column)).collect();
    assert_eq!(places, vec![(1, 1), (2, 3), (3, 6), (4, 1), (4, 4)]);
}

#[test]
fn lexer_rejects_numbers_that_do_not_fit() {
    assert_eq!(
        tokens_of("9223372036854775807")[0].token_type,
        TokenType::IntegerLiteral(9223372036854775807)
    );
    let result = Lexer::new("9223372036854775808").tokenize();
    assert!(matches!(
        result,
        Err(LexicalError::InvalidNumber { value, span })
        if value == "9223372036854775808" && span == Span::new(1, 1)
    ));
    assert_eq!(tokens_of("007")[0].token_type, TokenType::IntegerLiteral(7));
}

#[test]
fn lexer_faults_read_as_messages() {
    let fault = Lexer::new("let $ = 1").tokenize().unwrap_err();
    assert_eq!(fault.to_string(), "Invalid character '$' at line 1:5");
    let fault = Lexer::new("\"abc").tokenize().unwrap_err();
    assert_eq!(fault.to_string(), "Unterminated string literal at line 1:1");
    let fault = Lexer::new("12ab").tokenize().unwrap_err();
    assert_eq!(fault.to_string(), "Invalid number format '12a' at line 1:1");
    let fault = Lexer::new("\"a\\q\"").tokenize().unwrap_err();
    assert_eq!(fault.to_string(), "Invalid escape sequence '\\q' at line 1:1");
    let fault = Lexer::new("\"a\\").tokenize().unwrap_err();
    assert_eq!(fault.to_string(), "Unexpected end of file at line 1:1");
    let fault = Lexer::new("a & b").tokenize().unwrap_err();
    assert!(matches!(fault, LexicalError::InvalidChar { character: '&', .. }));
}

#[test]
fn token_kinds_read_as_in_diagnostics() {
    assert_eq!(TokenType::IntegerLiteral(-12).to_string(), "IntegerLiteral(-12)");
    assert_eq!(TokenType::IntegerLiteral(i64::MIN).to_string(), "IntegerLiteral(-9223372036854775808)");
    assert_eq!(TokenType::IntegerLiteral(0).to_string(), "IntegerLiteral(0)");
    assert_eq!(TokenType::Identifier("x".to_string()).to_string(), "Identifier(x)");
    assert_eq!(TokenType::StringLiteral("s".to_string()).to_string(), "StringLiteral(s)");
    assert_eq!(TokenType::LeftBrace.to_string(), "{");
    assert_eq!(TokenType::Arrow.to_string(), "->");
    assert_eq!(TokenType::EOF.to_string(), "EOF");
}

#[test]
fn diagnostics_read_as_messages() {
    let at = Span::new(3, 7);
    assert_eq!(
        ParseError::ExpectedMethName { symbol: "A".to_string(), span: at }.to_string(),
        "Expected method name for class 'A' at line 3:7"
    );
    assert_eq!(
        ParseError::expected_but_found("x".to_string(), None, None).to_string(),
        "Expected 'x' but found 'unknown' at unknown location"
    );
    assert_eq!(
        ParseError::expected_but_found("x".to_string(), Some("y".to_string()), Some(at)).to_string(),
        "Expected 'x' but found 'y' at line 3:7"
    );
    assert_eq!(
        ParseError::ExpectedExpressionAfterComma { symbol: ",".to_string(), span: at }.to_string(),
        "Expected expression after comma , at line 3:7"
    );
    assert_eq!(ParseError::ExpectedExpression { span: at }.to_string(), "Expected expression at line 3:7");
    assert_eq!(
        ParseError::UnexpectedToken { symbol: "}".to_string(), span: at }.to_string(),
        "Unexpected token at } at line 3:7"
    );
    assert_eq!(
        ParseError::UnexpectedEOF { span: Some(at) }.to_string(),
        "Unexpected EOF at Some(Span { line: 3, column: 7 })"
    );
    assert_eq!(ParseError::UnexpectedEOF { span: None }.to_string(), "Unexpected EOF at None");
    assert_eq!(
        ParseError::ExpectedReturnType { symbol: "f".to_string(), span: at }.to_string(),
        "Expected return type for 'f' at line 3:7"
    );
}

#[test]
fn rendered_diagnostic_shows_the_source_around_it() {
    let error = ParseError::ExpectedButFound {
        expected: "expected".to_string(),
        found: "found".to_string(),
        span: Some(Span::new(2, 7)),
    };
    let lines = error.with_context("test\nmulti-line\nerror");
    let texts: Vec<String> = lines.iter().map(plain_text).collect();
    assert_eq!(
        texts,
        vec![
            "error: E012 Expected 'expected' but found 'found' at line 2:7",
            "--> input:2:7",
            "    |",
            "  1 | test",
            "  2 | multi-line",
            "    |       ^",
            "  3 | error",
            "",
        ]
    );
    assert_eq!(lines[0][0].style, Style::RedBold);
    assert_eq!(lines[0][2].style, Style::Yellow);
    assert_eq!(lines[0][4].style, Style::WhiteBold);
    assert_eq!(lines[1][0].style, Style::BlueBold);
    assert_eq!(lines[1][2].style, Style::Cyan);
    assert_eq!(lines[5][2].style, Style::RedBold);
}

#[test]
fn rendered_diagnostic_without_a_place_is_its_headline() {
    let error = ParseError::ExpectedButFound {
        expected: "expected".to_string(),
        found: "found".to_string(),
        span: None,
    };
    let texts: Vec<String> = error.with_context("test").iter().map(plain_text).collect();
    assert_eq!(texts, vec!["error: E012 Expected 'expected' but found 'found' at unknown location", ""]);
    let outside = ParseError::ExpectedExpression { span: Span::new(9, 1) };
    assert_eq!(outside.with_context("test").len(), 2);
    let first = ParseError::ExpectedExpression { span: Span::new(1, 0) };
    let texts: Vec<String> = first.with_context("one\ntwo").iter().map(plain_text).collect();
    assert_eq!(
        texts,
        vec!["error: E025 Expected expression at line 1:0", "--> input:1:0", "    |", "  1 | one", "    | ^", "  2 | two", ""]
    );
}

#[test]
fn report_counts_and_summarises() {
    let error1 = ParseError::ExpectedButFound {
        expected: "expected".to_string(),
        found: "found".to_string(),
        span: Some(Span { line: 0, column: 0 }),
    };
    let error2 = ParseError::UnexpectedEOF { span: None };
    assert!(render_errors(&[], "test").is_empty());
    let texts: Vec<String> = render_errors(&[error1.clone(), error2], "test").iter().map(plain_text).collect();
    assert_eq!(
        texts,
        vec![
            "",
            "Found 2 errors",
            "error: E012 Expected 'expected' but found 'found' at line 0:0",
            "",
            "error: E009 Unexpected EOF at None",
            "",
            "error: aborting due to 2 errors \u{1F61E}",
            "",
        ]
    );
    let texts: Vec<String> = render_errors(&[error1], "test").iter().map(plain_text).collect();
    assert_eq!(texts[1], "Found 1 error");
    assert_eq!(texts[4], "error: aborting due to 1 error \u{1F61E}");
}

#[test]
fn lines_are_split_as_the_standard_library_splits_them() {
    for source in ["", "a", "a\n", "a\nb", "a\r\nb\r\n", "a\n\nb", "\n", "\r\n", "a\r", "a\rb\n", "x\n\r\ny\r", "\n\n"] {
        let error = ParseError::ExpectedExpression { span: Span::new(1, 1) };
        let expected: Vec<&str> = source.lines().collect();
        let rendered = error.with_context(source);
        if expected.is_empty() {
            assert_eq!(rendered.len(), 2);
        } else {
            assert_eq!(plain_text(&rendered[3]), format!("  1 | {}", expected[0]));
            if expected.len() > 1 {
                assert_eq!(plain_text(&rendered[5]), format!("  2 | {}", expected[1]));
            } else {
                assert_eq!(rendered.len(), 6);
            }
        }
    }
}

#[test]
fn generated_program_joins_classes_functions_and_statements() {
    let source = "let x: Int = -5; class A extends B { init(a: Int) { super(a); } meth m() -> Int { return 1; } } fun f(p: Int, q: Str) -> Int { return p; } x = (x + 1) * 2;";
    let (entry, errors) = parse_program(source);
    assert!(errors.is_empty());
    let program = CodeGenerator::new(entry).generate();
    assert_eq!(
        program,
        "class A extends B{\nconstructor(a) {super(a)}\nm(){ return 1 }\n}\nfunction f(p,q){ return p }\nlet x = -5; \nx = (x + 1) * 2"
    );
}

#[test]
fn generated_function_without_body_is_its_head() {
    let (entry, _) = parse_program("fun f() -> Int");
    assert_eq!(entry.fun_defs.len(), 1);
    assert!(entry.fun_defs[0].statements.is_none());
    assert_eq!(CodeGenerator::new(entry).generate(), "\nfunction f()\n");
}

#[test]
fn copies_are_equal_to_what_they_copy() {
    let (entry, _) = parse_program("if (a < 1) { b.c = f(1, \"s\"); } else { while (true) { break; } }");
    let copy = entry.statements.clone();
    assert_eq!(copy, entry.statements);
    let tokens = tokens_of("a \"b\" 1 Int C");
    let copies: Vec<TokenType> = tokens.iter().map(|t| t.clone().token_type).collect();
    let kinds: Vec<TokenType> = tokens.into_iter().map(|t| t.token_type).collect();
    assert_eq!(copies, kinds);
}

#[test]
fn compiling_joins_lexer_parser_and_generator() {
    let done = classlang::compile::compile("let x: Int = 1; println(x + 2);").unwrap();
    assert_eq!(done.code, "\n\nlet x = 1; \nconsole.log(x + 2)");
    assert!(done.errors.is_empty());
    let done = classlang::compile::compile("class A {} fun f() -> Int { return 1; }").unwrap();
    assert_eq!(done.code, "\nfunction f(){ return 1 }\n");
    assert_eq!(done.errors.len(), 1);
    assert!(matches!(done.errors[0], ParseError::MissingClassInit { .. }));
    let fault = classlang::compile::compile("let @x = 5;");
    assert!(matches!(fault, Err(LexicalError::InvalidChar { character: '@', span }) if span == Span::new(1, 5)));
    assert_eq!(classlang::compile::compile("").unwrap().code, "\n\n");
}

#[test]
fn while_takes_any_single_statement_as_its_body() {
    let mut parser = Parser::new(tokens_of("while (x) y = 1;"));
    match parser.parse_stmt().unwrap() {
        Stmt::While(repeat) => {
            assert!(matches!(*repeat.condition, Expr::Variable(Variable { ref name, .. }) if name == "x"));
            assert!(matches!(*repeat.body, Stmt::Assign(AssignStmt { ref name, .. }) if name == "y"));
        },
        other => panic!("expected a loop, found {:?}", other),
    }
    assert!(!parser.has_errors());
}

#[test]
fn if_needs_braces_around_its_branches() {
    let mut parser = Parser::new(tokens_of("if (x) y = 1;"));
    assert!(parser.parse_stmt().is_none());
    assert_eq!(
        parser.get_errors()[0],
        ParseError::ExpectedButFound {
            expected: "{".to_string(),
            found: "Identifier(y)".to_string(),
            span: Some(Span::new(1, 8)),
        }
    );
    let mut parser = Parser::new(tokens_of("if (x) { } "));
    assert!(parser.parse_stmt().is_none());
    assert!(parser.get_errors().iter().any(|e| matches!(e, ParseError::ExpectedButFound { expected, found, .. } if expected == "statement" && found == "unknown")));
}

#[test]
fn block_passes_over_what_starts_no_statement() {
    let mut parser = Parser::new(tokens_of("{ ; a = 1; ) b = 2; } x"));
    match parser.parse_stmt().unwrap() {
        Stmt::Block(block) => assert_eq!(block.statements.len(), 2),
        other => panic!("expected a block, found {:?}", other),
    }
    assert!(!parser.has_errors());
    assert_eq!(parser.position, 12);
}

#[test]
fn statement_needs_two_tokens() {
    let mut parser = Parser::new(vec![Token::new(TokenType::Break, Span::new(1, 1))]);
    assert!(parser.parse_stmt().is_none());
    assert_eq!(parser.position, 0);
    assert!(!parser.has_errors());
}

#[test]
fn diagnostics_accumulate_in_the_order_of_the_source() {
    let (entry, errors) = parse_program("let : Int; let x: ; class A {} let y: Int;");
    assert_eq!(entry.statements.len(), 1);
    let places: Vec<Option<Span>> = errors.iter().map(|e| e.get_span().copied()).collect();
    assert_eq!(errors.len(), 3);
    assert_eq!(places, vec![Some(Span::new(1, 5)), Some(Span::new(1, 19)), Some(Span::new(1, 30))]);
    assert!(matches!(errors[2], ParseError::MissingClassInit { .. }));
}

#[test]
fn copies_of_diagnostics_and_programs_are_equal() {
    let (entry, errors) = parse_program("class A { init() {} meth m() -> Int { return 1; } } fun f(a: Int) -> Int { return a; } x = ;");
    let copies = errors.clone();
    assert_eq!(copies, errors);
    let copy = entry.clone();
    assert_eq!(copy.statements, entry.statements);
    assert_eq!(format!("{:?}", copy.class_defs), format!("{:?}", entry.class_defs));
    assert_eq!(format!("{:?}", copy.fun_defs), format!("{:?}", entry.fun_defs));
}

#[test]
fn generated_text_keeps_the_grouping_of_an_expression() {
    let done = classlang::compile::compile("(2 + 3) * 4;").unwrap();
    assert_eq!(done.code, "\n\n(2 + 3) * 4");
    let done = classlang::compile::compile("x = 8 / ((2 + 3) * (4 - 1)); f((a));").unwrap();
    assert_eq!(done.code, "\n\nx = 8 / ((2 + 3) * (4 - 1)); \nf((a))");
    assert!(done.errors.is_empty());
}
