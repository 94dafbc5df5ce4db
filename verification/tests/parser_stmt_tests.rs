use classlang::ast::{
    AssignStmt, BinaryExpr, BinaryOp, BooleanLiteral, BreakStmt, Expr, ExprStmt, IfStmt,
    IntegerLiteral, PrettyPrint, PrintlnExpr, ReturnStmt, Stmt, StringLiteral, VarDeclStmt,
    VarDeclWithAssign, Variable, WhileStmt,
};
use classlang::lexer::{Lexer, TypeName};
use classlang::parser::{ParseError, Parser, ParserStmt};

    fn parse_stmt(input: &str) -> Option<Stmt> {
        let mut lexer = Lexer::new(input);
        let tokens = lexer.tokenize().unwrap();
        let mut parser = Parser::new(tokens);
        parser.parse_stmt()
    }

    fn get_parse_errors(input: &str) -> Vec<ParseError> {
        let mut lexer = Lexer::new(input);
        let tokens = lexer.tokenize().unwrap();
        let mut parser = Parser::new(tokens);
        parser.parse_stmt();
        parser.get_errors().to_vec()
    }

    #[test]
    fn test_var_decl_with_assign() {
        let stmt = parse_stmt("let myNum: Int = 5;").unwrap();
        assert!(matches!(
            stmt,
            Stmt::VarDeclWithAssign(VarDeclWithAssign {
                name,
                var_type,
                expr,
                ..
            })
            if name == "myNum"
                && var_type == TypeName::Int
                && matches!(&*expr, Expr::IntegerLiteral(IntegerLiteral { value, .. }) if *value == 5)
        ));
    }

    #[test]
    fn test_var_decl_without_assign() {
        let stmt = parse_stmt("let myStr: Str;").unwrap();
        assert!(matches!(
            stmt,
            Stmt::VarDecl(VarDeclStmt { name, var_type, .. })
            if name == "myStr" && var_type == TypeName::Str
        ));
    }

    #[test]
    fn test_var_decl_missing_type() {
        let errors = get_parse_errors("let myVar;");
        assert!(errors.iter().any(|e| matches!(
            e,
            ParseError::ExpectedButFound { expected, found, .. }
            if expected == ":" && found == ";"
        )));
    }

    #[test]
    fn test_var_decl_missing_semicolon() {
        let errors = get_parse_errors("let myNum: Int = 5");
        assert!(errors
            .iter()
            .any(|e| matches!(e, ParseError::ExpectedButFound { .. })));
    }

    #[test]
    fn test_var_decl_missing_identifier() {
        let errors = get_parse_errors("let : Int;");
        assert!(errors.iter().any(|e| matches!(
            e,
            ParseError::ExpectedButFound { expected,  .. }
            if expected.contains("var_name")
        )));
    }

    #[test]
    fn test_var_decl_missing_expression() {
        let errors = get_parse_errors("let myNum: Int =;");
        assert!(errors
            .iter()
            .any(|e| matches!(e, ParseError::ExpectedButFound { .. })));
    }

    #[test]
    fn test_var_decl_with_boolean() {
        let stmt = parse_stmt("let isValid: Boolean = true;").unwrap();
        assert!(matches!(
            stmt,
            Stmt::VarDeclWithAssign(VarDeclWithAssign {
                name,
                var_type,
                expr,
                ..
            })
            if name == "isValid"
                && var_type == TypeName::Boolean
                && matches!(&*expr, Expr::BooleanLiteral(BooleanLiteral { value, .. }) if *value == true)
        ));
    }

    #[test]
    fn test_var_decl_with_string() {
        let stmt = parse_stmt("let message: Str = \"Hello\";").unwrap();
        assert!(matches!(
            stmt,
            Stmt::VarDeclWithAssign(VarDeclWithAssign {
                name,
                var_type,
                expr,
                ..
            })
            if name == "message"
                && var_type == TypeName::Str
                && matches!(&*expr, Expr::StringLiteral(StringLiteral { value, .. }) if value == "Hello")
        ));
    }

    #[test]
    fn test_var_assign_with_int() {
        let stmt = parse_stmt("myNum = 5;").unwrap();
        println!("{}", stmt.to_pretty_string());
        assert!(matches!(stmt, Stmt::Assign(AssignStmt { name, expr, .. })
            if name == "myNum" && matches!(&*expr, Expr::IntegerLiteral(IntegerLiteral { value, .. }) if *value == 5)
        ));
    }

    #[test]
    fn test_method_call_statement() {
        let stmt = parse_stmt("object.method()").unwrap();
        println!("{}", stmt.to_pretty_string());
    }

    #[test]
    fn test_field_assignment() {
        let stmt = parse_stmt("object.field = 5").unwrap();
        println!("{:?}",stmt);
        assert!(matches!(stmt, Stmt::Assign(AssignStmt { name, expr, .. })
            if name=="object.field" && matches!(&*expr, Expr::IntegerLiteral(IntegerLiteral { value, .. }) if *value == 5)
        ));
    }

    #[test]
    fn test_this_assignment() {
        let stmt = parse_stmt("this.field = 5").unwrap();
        println!("{:?}",stmt);
        assert!(matches!(stmt, Stmt::Assign(AssignStmt { name, expr, .. })
            if name=="this.field" && matches!(&*expr, Expr::IntegerLiteral(IntegerLiteral { value, .. }) if *value == 5)
        ));
    }

    #[test]
    fn test_nested_field_assignment() {
        let stmt = parse_stmt("object.subobject.subsubobject.field = 5").unwrap();
        println!("{:?}",stmt);
        assert!(matches!(stmt, Stmt::Assign(AssignStmt { name, expr, .. })
            if name=="object.subobject.subsubobject.field" && matches!(&*expr, Expr::IntegerLiteral(IntegerLiteral { value, .. }) if *value == 5)
        ));
    }

    #[test]
    fn test_var_assign_with_string() {
        let stmt = parse_stmt("myStr = \"hello world\";").unwrap();
        assert!(matches!(stmt, Stmt::Assign(AssignStmt {name, expr, ..})
            if name == "myStr"
            && matches!(&*expr, Expr::StringLiteral(StringLiteral { value, .. }) if *value == "hello world")
        ));
    }

    #[test]
    fn test_var_assign_with_var() {
        let stmt = parse_stmt("myStr = anotherStr;").unwrap();
        assert!(matches!(stmt, Stmt::Assign(AssignStmt {name, expr, ..})
            if name == "myStr"
            && matches!(&*expr, Expr::Variable(Variable {name, ..}) if name == "anotherStr")
        ));
    }

    #[test]
    fn test_break_stmt() {
        let stmt = parse_stmt("break;").unwrap();
        assert!(matches!(stmt, Stmt::Break(BreakStmt { .. })))
    }

    #[test]
    fn test_return_stmt() {
        let stmt = parse_stmt("return;").unwrap();
        assert!(matches!(stmt, Stmt::Return(ReturnStmt { value: None, .. })));

        let stmt = parse_stmt("return 42;").unwrap();
        assert!(matches!(
            stmt,
            Stmt::Return(ReturnStmt {
                value: Some(expr),
                ..
            }) if matches!(&*expr, Expr::IntegerLiteral(IntegerLiteral { value, .. }) if *value == 42)
        ));
    }

    #[test]
    fn test_if_then() {
        let stmt = parse_stmt("if (5) {println(\"hello\")}").unwrap();
        assert!(matches!(
            stmt,
            Stmt::If(IfStmt {
                condition,
                then_branch,
                ..
            }) if matches!(&*condition, Expr::IntegerLiteral(IntegerLiteral { value, .. }) if *value == 5)
                && matches!(&*then_branch, Stmt::Expr(ExprStmt { expr, .. })
                    if matches!(&**expr, Expr::Println(PrintlnExpr { arg, .. })
                        if matches!(&**arg, Expr::StringLiteral(StringLiteral { value, .. })
                            if value == "hello")))
        ));
    }

    #[test]
    fn test_if_else_then() {
        let stmt = parse_stmt("if (5) {println(\"hello\")} else {\"bye\"}").unwrap();
        assert!(matches!(
            stmt,
            Stmt::If(IfStmt {
                condition,
                then_branch,
                else_branch,
                ..
            }) if matches!(&*condition, Expr::IntegerLiteral(IntegerLiteral { value, .. }) if *value == 5)
                && matches!(&*then_branch, Stmt::Expr(ExprStmt { expr, .. })
                    if matches!(&**expr, Expr::Println(PrintlnExpr { arg, .. })
                        if matches!(&**arg, Expr::StringLiteral(StringLiteral { value, .. })
                            if value == "hello")))
                && matches!(&else_branch, Some(else_stmt)
                    if matches!(&**else_stmt, Stmt::Expr(ExprStmt { expr, .. })
                        if matches!(&**expr, Expr::StringLiteral(StringLiteral { value, .. })
                            if value == "bye")))
        ));
    }

    #[test]
    fn test_simple_binary_expr_stmt() {
        let stmt = parse_stmt("5 + 3;").unwrap();
        assert!(matches!(
            stmt,
            Stmt::Expr(ExprStmt { expr, .. })
            if matches!(&*expr, Expr::Binary(BinaryExpr {
                left,
                operator,
                right,
                ..
            }) if matches!(*left.as_ref(), Expr::IntegerLiteral(IntegerLiteral { value, .. }) if value == 5)
                && matches!(operator, BinaryOp::Add)
                && matches!(*right.as_ref(), Expr::IntegerLiteral(IntegerLiteral { value, .. }) if value == 3))
        ));
    }

    #[test]
    fn test_multiplicative_binary_expr_stmt() {
        let stmt = parse_stmt("7 * 2;").unwrap();
        assert!(matches!(
            stmt,
            Stmt::Expr(ExprStmt { expr, .. })
            if matches!(&*expr, Expr::Binary(BinaryExpr {
                left,
                operator,
                right,
                ..
            }) if matches!(*left.as_ref(), Expr::IntegerLiteral(IntegerLiteral { value, .. }) if value == 7)
                && matches!(operator, BinaryOp::Multiply)
                && matches!(*right.as_ref(), Expr::IntegerLiteral(IntegerLiteral { value, .. }) if value == 2))
        ));
    }

    #[test]
    fn test_complex_binary_expr_with_precedence() {
        let stmt = parse_stmt("1 + 2 * 3;").unwrap();

        if let Stmt::Expr(ExprStmt { expr, .. }) = stmt {
            if let Expr::Binary(BinaryExpr {
                left,
                operator: BinaryOp::Add,
                right,
                ..
            }) = *expr
            {
                assert!(
                    matches!(*left, Expr::IntegerLiteral(IntegerLiteral { value, .. }) if value == 1)
                );

                if let Expr::Binary(BinaryExpr {
                    left: mult_left,
                    operator: BinaryOp::Multiply,
                    right: mult_right,
                    ..
                }) = *right
                {
                    assert!(
                        matches!(*mult_left, Expr::IntegerLiteral(IntegerLiteral { value, .. }) if value == 2)
                    );
                    assert!(
                        matches!(*mult_right, Expr::IntegerLiteral(IntegerLiteral { value, .. }) if value == 3)
                    );
                } else {
                    panic!("Expected right side to be multiplication");
                }
            } else {
                panic!("Expected binary addition expression");
            }
        } else {
            panic!("Expected expression statement");
        }
    }

    #[test]
    fn test_nested_parenthesized_expr() {
        let stmt = parse_stmt("(2 + 3) * 4;").unwrap();

        assert!(matches!(
            stmt,
            Stmt::Expr(ExprStmt { expr, .. })
            if matches!(&*expr, Expr::Binary(BinaryExpr {
                left,
                operator: BinaryOp::Multiply,
                right,
                ..
            }) if matches!(*left.as_ref(), Expr::Grouped(..))
                && matches!(*right.as_ref(), Expr::IntegerLiteral(IntegerLiteral { value, .. }) if value == 4))
        ));
    }

    #[test]
    fn test_complex_expression_with_multiple_operations() {
        let stmt = parse_stmt("5 * (8 / 2 + 3) - 1;").unwrap();
        println!("{}", stmt.to_pretty_string());

        assert!(matches!(
            stmt,
            Stmt::Expr(ExprStmt { expr, .. })
            if matches!(&*expr, Expr::Binary(BinaryExpr {
                left: _,
                operator: BinaryOp::Subtract,
                right,
                ..
            }) if matches!(*right.as_ref(), Expr::IntegerLiteral(IntegerLiteral { value, .. }) if value == 1))
        ));
    }

    #[test]
    fn test_very_complex_nested_expression() {
        let stmt = parse_stmt("5 * (((8 / 2) + 3 * (4) / 2) - 1) * 7;").unwrap();

        assert!(matches!(
            stmt,
            Stmt::Expr(ExprStmt { expr, .. })
            if matches!(&*expr, Expr::Binary(BinaryExpr { .. }))
        ));
    }

    #[test]
    fn test_function_call_with_complex_args() {
        let stmt = parse_stmt("println(5 + 3 * 2);").unwrap();
        println!("{}", stmt.to_pretty_string());

        assert!(matches!(
            stmt,
            Stmt::Expr(ExprStmt { expr, .. })
            if matches!(&*expr, Expr::Println(PrintlnExpr { .. }))
        ));
    }

    #[test]
    fn test_method_call_with_complex_expr() {
        let stmt = parse_stmt("println(\"hello\");").unwrap();

        assert!(matches!(
            stmt,
            Stmt::Expr(ExprStmt { expr, .. })
            if matches!(&*expr, Expr::Println(PrintlnExpr { arg, .. })
                if matches!(&**arg, Expr::StringLiteral(StringLiteral { value, .. }) if value == "hello"))
        ));
    }

    #[test]
    fn test_var_assign_with_complex_expr() {
        let stmt = parse_stmt("result = 5 * (3 + 2) / (10 - 5);").unwrap();

        assert!(matches!(
            stmt,
            Stmt::Assign(AssignStmt {
                name,
                expr,
                ..
            }) if name == "result" && matches!(&*expr, Expr::Binary(BinaryExpr { .. }))
        ));
    }

    #[test]
    fn test_var_decl_with_complex_expr() {
        let stmt = parse_stmt("let complexCalc: Int = ((5 + 3) * 2) / (7 - 3);").unwrap();

        assert!(matches!(
            stmt,
            Stmt::VarDeclWithAssign(VarDeclWithAssign {
                name,
                var_type,
                expr,
                ..
            }) if name == "complexCalc"
                && var_type == TypeName::Int
                && matches!(&*expr, Expr::Binary(BinaryExpr { .. }))
        ));
    }

    #[test]
    fn test_nested_expressions_with_different_operators() {
        let stmt = parse_stmt("(2 + 3) * 4 / 2 - 1;").unwrap();

        assert!(matches!(
            stmt,
            Stmt::Expr(ExprStmt { expr, .. })
            if matches!(&*expr, Expr::Binary(BinaryExpr { operator: BinaryOp::Subtract, .. }))
        ));
    }

    #[test]
    fn test_parenthesized_expressions_in_var_decl() {
        let stmt = parse_stmt("let result: Int = (10 + 5) * (8 - 3);").unwrap();

        assert!(matches!(
            stmt,
            Stmt::VarDeclWithAssign(VarDeclWithAssign {
                name,
                var_type,
                expr,
                ..
            }) if name == "result"
                && var_type == TypeName::Int
                && matches!(&*expr, Expr::Binary(BinaryExpr { operator: BinaryOp::Multiply, .. }))
        ));
    }

    #[test]
    fn test_complex_expr_in_if_condition() {
        let stmt = parse_stmt("if (5 * 2 + 3) {println(\"true\")}").unwrap();

        if let Stmt::If(IfStmt { condition, .. }) = stmt {
            assert!(matches!(*condition, Expr::Binary(BinaryExpr { .. })));
        } else {
            panic!("Expected if statement");
        }
    }

    #[test]
    fn test_complex_expr_in_while_condition() {
        let stmt = parse_stmt("while (5) {break;}").unwrap();

        if let Stmt::While(WhileStmt { condition, .. }) = stmt {
            assert!(
                matches!(*condition, Expr::IntegerLiteral(IntegerLiteral { value, .. }) if value == 5)
            );
        } else {
            panic!("Expected while statement");
        }
    }

    #[test]
    fn test_operator_precedence() {
        let first_stmt = parse_stmt("1 + 2 * 3").unwrap();
        println!("{}", first_stmt.to_pretty_string());

        let second_stmt = parse_stmt("1 * 2 + 3").unwrap();
        println!("{}", second_stmt.to_pretty_string());
    }

    #[test]
    fn test_invalid_type() {
        let errors = get_parse_errors("let x: Int * 5;");
        assert!(errors.iter().any(|e| matches!(
            e,
            ParseError::ExpectedButFound { expected, .. } if expected.contains("semicolon or assign")
        )));
    }

    #[test]
    fn test_invalid_stmt_in_block() {
        let errors = get_parse_errors("{ let x = ; }");
        assert!(errors.iter().any(|e| matches!(e, ParseError::ExpectedButFound { .. })));
    }

    #[test]
    fn test_missing_var() {
        let errors = get_parse_errors("myVar = ;");
        assert!(errors.iter().any(|e| matches!(
            e,
            ParseError::ExpectedButFound { expected, .. } if expected == "expression"
        )));
    }

    #[test]
    fn test_invalid_condition() {
        let errors = get_parse_errors("if () { 5 }");
        assert!(errors.iter().any(|e| matches!(e, ParseError::ExpectedButFound { expected, .. } if expected == "expression")));
    }

    #[test]
    fn test_while() {
        let errors = get_parse_errors("while 5) { break; }");
        assert!(errors.iter().any(|e| matches!(e, ParseError::ExpectedButFound { expected, .. } if expected == "(")));
    }
