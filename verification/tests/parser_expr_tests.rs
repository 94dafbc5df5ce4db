use classlang::ast::{
    BinaryExpr, BinaryOp, BooleanLiteral, Expr, FunCall, IntegerLiteral, MethCall, NewExpr,
    PrintExpr, PrintlnExpr, StringLiteral, ThisExpr, UnaryExpr, UnaryOp, Variable,
};
use classlang::lexer::Lexer;
use classlang::parser::{ParseError, Parser, ParserExpr};

    fn parse_expr(input: &str) -> Option<Expr> {
        let mut lexer = Lexer::new(input);
        let tokens = lexer.tokenize().unwrap();
        let mut parser = Parser::new(tokens);
        parser.parse_expr()
    }

    fn get_expression_errors(input: &str) -> Vec<ParseError> {
        let mut lexer = Lexer::new(input);
        let tokens = lexer.tokenize().unwrap();
        let mut parser = Parser::new(tokens);
        parser.parse_expr();
        parser.get_errors().to_vec()
    }

    #[test]
    fn test_primary_expressions() {
        // Test literals
        assert!(matches!(
            parse_expr("42").unwrap(),
            Expr::IntegerLiteral(IntegerLiteral { value: 42, .. })
        ));

        assert!(matches!(
            parse_expr("\"hello\"").unwrap(),
            Expr::StringLiteral(StringLiteral { value, .. }) if value == "hello"
        ));

        assert!(matches!(
            parse_expr("true").unwrap(),
            Expr::BooleanLiteral(BooleanLiteral { value: true, .. })
        ));

        assert!(matches!(
            parse_expr("false").unwrap(),
            Expr::BooleanLiteral(BooleanLiteral { value: false, .. })
        ));

        // Test this
        assert!(matches!(
            parse_expr("this").unwrap(),
            Expr::This(ThisExpr { .. })
        ));

        // Test variable
        assert!(matches!(
            parse_expr("someVar").unwrap(),
            Expr::Variable(Variable { name, .. }) if name == "someVar"
        ));
    }

    #[test]
    fn test_function_calls() {
        // Test simple function call
        let expr = parse_expr("foo()").unwrap();
        assert!(matches!(
            expr,
            Expr::FunCall(FunCall { callee, args, .. })
            if callee == "foo" && args.is_empty()
        ));

        // Test function call with arguments
        let expr = parse_expr("bar(1, 2)").unwrap();
        if let Expr::FunCall(FunCall { callee, args, .. }) = expr {
            assert_eq!(callee, "bar");
            assert_eq!(args.len(), 2);
        } else {
            panic!("Expected function call");
        }
    }

    #[test]
    fn test_method_calls() {
        // Test simple method call
        let expr = parse_expr("obj.method()").unwrap();
        assert!(matches!(
            expr,
            Expr::MethCall(MethCall { meth, args, .. })
            if meth == "method" && args.is_empty()
        ));

        // Test chained method calls
        let expr = parse_expr("obj.foo().bar()").unwrap();
        assert!(matches!(
            expr,
            Expr::MethCall(MethCall { meth, .. })
            if meth == "bar"
        ));
    }

    #[test]
    fn test_binary_expressions() {
        // Test addition
        let expr = parse_expr("1 + 2").unwrap();
        assert!(matches!(
            expr,
            Expr::Binary(BinaryExpr {
                operator: BinaryOp::Add,
                ..
            })
        ));

        // Test multiplication with precedence
        let expr = parse_expr("1 + 2 * 3").unwrap();
        if let Expr::Binary(BinaryExpr {
            operator: BinaryOp::Add,
            left,
            right,
            ..
        }) = expr
        {
            assert!(matches!(
                *left,
                Expr::IntegerLiteral(IntegerLiteral { value: 1, .. })
            ));
            assert!(matches!(
                *right,
                Expr::Binary(BinaryExpr {
                    operator: BinaryOp::Multiply,
                    ..
                })
            ));
        } else {
            panic!("Expected binary expression");
        }
    }

    #[test]
    fn test_print_expressions() {
        // Test println
        let expr = parse_expr("println(42)").unwrap();
        assert!(matches!(
            expr,
            Expr::Println(PrintlnExpr { arg, .. })
            if matches!(&*arg, Expr::IntegerLiteral(IntegerLiteral { value: 42, .. }))
        ));

        // Test print
        let expr = parse_expr("print(\"hello\")").unwrap();
        assert!(matches!(
            expr,
            Expr::Print(PrintExpr { arg, .. })
            if matches!(&*arg, Expr::StringLiteral(StringLiteral { value, .. }) if value == "hello")
        ));
    }

    #[test]
    fn test_new_expressions() {
        // Test new without arguments
        let expr = parse_expr("new MyClass()").unwrap();
        assert!(matches!(
            expr,
            Expr::New(NewExpr { class_name, args, .. })
            if class_name == "MyClass" && args.is_empty()
        ));

        // Test new with arguments
        let expr = parse_expr("new MyClass(1, true)").unwrap();
        if let Expr::New(NewExpr {
            class_name, args, ..
        }) = expr
        {
            assert_eq!(class_name, "MyClass");
            assert_eq!(args.len(), 2);
        } else {
            panic!("Expected new expression");
        }
    }

    #[test]
    fn test_complex_expressions() {
        // Test complex nested expression
        let expr = parse_expr("new MyClass().method(1 + 2 * 3).other()").unwrap();
        assert!(matches!(expr, Expr::MethCall(MethCall { meth, .. }) if meth == "other"));

        // Test function call with complex arguments
        let expr = parse_expr("foo(1 + 2, obj.method(), new MyClass())").unwrap();
        if let Expr::FunCall(FunCall { callee, args, .. }) = expr {
            assert_eq!(callee, "foo");
            assert_eq!(args.len(), 3);
        } else {
            panic!("Expected function call");
        }
    }

    #[test]
    fn test_complexest_expression() {
        let expr = parse_expr("new MyClass().method(1 + 2 * 3).other()").unwrap();
        assert!(matches!(expr, Expr::MethCall(MethCall { meth, .. }) if meth == "other"));
        // Test function call with complex arguments
        let expr = parse_expr("foo(1 + 2, obj.method(), new MyClass())").unwrap();
        if let Expr::FunCall(FunCall { callee, args, .. }) = expr {
            assert_eq!(callee, "foo");
            assert_eq!(args.len(), 3);
        } else {
            panic!("Expected function call");
        }
    }

    #[test]
    fn test_unary_not_expression() {
        let expr = parse_expr("!true").unwrap();
        assert!(matches!(
            expr,
            Expr::Unary(UnaryExpr { operator, .. })
            if operator == UnaryOp::Not
        ))
    }

    #[test]
    fn test_unary_negate_expression() {
        let expr = parse_expr("-x").unwrap();
        assert!(matches!(
            expr,
            Expr::Unary(UnaryExpr { operator, .. })
            if operator == UnaryOp::Negate
        ))
    }

    #[test]
    fn test_unary_plus_expression() {
        let expr = parse_expr("+x").unwrap();
        assert!(matches!(
            expr,
            Expr::Unary(UnaryExpr { operator, .. })
            if operator == UnaryOp::Plus
        ))
    }

    #[test]
    fn test_boolean_and_expression() {
        let expr = parse_expr("true && true").unwrap();
        assert!(matches!(
            expr,
            Expr::Binary(BinaryExpr { operator, ..})
            if operator == BinaryOp::And
        ))
    }

    #[test]
    fn test_boolean_or_expression() {
        let expr = parse_expr("true || false").unwrap();
        assert!(matches!(
            expr,
            Expr::Binary(BinaryExpr { operator, ..})
            if operator == BinaryOp::Or
        ))
    }

    #[test]
    fn test_comma_expr_error() {
        let errors = get_expression_errors("bar(1,)");
        assert!(errors.iter().any(|e| matches!(
            e, ParseError::ExpectedExpressionAfterComma { .. }
        )))
    }

    #[test]
    fn test_new_expr_error() {
        let errors = get_expression_errors("new");
        assert!(errors.iter().any(|e| matches!(
            e, ParseError::ExpectedButFound { .. }
        )))
    }

    #[test]
    fn test_add_expr() {
        let errors = get_expression_errors("5 +");
        assert!(errors.iter().any(|e| matches!(e, ParseError::UnexpectedEOF { .. })));
    }

    #[test]
    fn test_mult_expr() {
        let errors = get_expression_errors("4 *");
        assert!(errors.iter().any(|e| matches!(e, ParseError::UnexpectedEOF { .. })));
    }

    #[test]
    fn test_comparison_expr() {
        let errors = get_expression_errors("5 <");
        assert!(errors.iter().any(|e| matches!(e, ParseError::UnexpectedEOF { .. })));
    }

    #[test]
    fn test_and_expr() {
        let errors = get_expression_errors("true &&");
        assert!(errors.iter().any(|e| matches!(e, ParseError::ExpectedExpression { .. })));
    }

    #[test]
    fn test_or_expr() {
        let errors = get_expression_errors("true ||");
        assert!(errors.iter().any(|e| matches!(e, ParseError::ExpectedExpression { .. })));
    }

    #[test]
    fn test_expr_missing_rparen() {
        let errors = get_expression_errors("(5 + 3");
        assert!(errors.iter().any(|e| matches!(e, ParseError::ExpectedButFound { expected, .. } if expected == "expression")));
    }
