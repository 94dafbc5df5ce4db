use classlang::ast::{ClassDef, Constructor, FunDef, MethDef, Stmt};
use classlang::lexer::{Lexer, Span, TypeName};
use classlang::parser::{ParseError, Parser, ParserDecl};

/// How many statements the body of a function or method holds.
fn body_len(body: &Option<Stmt>) -> usize {
    match body {
        Some(Stmt::Block(block)) => block.statements.len(),
        Some(_) => 1,
        None => 0,
    }
}

    fn parse_class(input: &str) -> Option<ClassDef> {
        let mut lexer = Lexer::new(input);
        let tokens = lexer.tokenize().unwrap();
        let mut parser = Parser::new(tokens);
        parser.parse_class()
    }

    fn get_class_errors(input: &str) -> Vec<ParseError> {
        let mut lexer = Lexer::new(input);
        let tokens = lexer.tokenize().unwrap();
        let mut parser = Parser::new(tokens);
        parser.parse_class();
        parser.get_errors().to_vec()
    }

    #[test]
    fn test_minimal_class_decl() {
        let class = parse_class("class Animal { init() {} }").unwrap();
        assert!(matches!(
            class,
            ClassDef {
                name,
                extends,
                vars,
                constructor,
                methods
            }
            if name == "Animal"
                && extends == None
                && vars == []
                && methods.len() == 0
                && matches!(&constructor, Constructor {params, ..} if params.len() == 0)

        ))
    }

    #[test]
    fn test_minimal_inherited_class_decl() {
        let class = parse_class("class Cat extends Animal { init() {super();} }").unwrap();
        assert!(matches!(
            class,
            ClassDef {
                name,
                extends,
                vars,
                constructor,
                methods
            }
            if name == "Cat"
                && extends == Some("Animal".to_string())
                && vars == []
                && methods.len() == 0
                && matches!(&constructor, Constructor {params, ..} if params.len() == 0)

        ))
    }

    #[test]
    fn test_class_decl_with_params() {
        let class = parse_class("class Animal { init(voice: Str) {} }").unwrap();
        assert!(matches!(
            class,
            ClassDef {
                name,
                extends,
                vars,
                constructor,
                methods
            }
            if name == "Animal"
                && extends == None
                && vars == []
                && methods.len() == 0
                && matches!(&constructor, Constructor {params, ..} if params.len() == 1)

        ))
    }

   #[test]
    fn test_class_decl_with_1_method() {
        let class = parse_class("class Animal { init() {} meth speak() -> Void { return println(\"animal noise\"); }}").unwrap();
        assert!(matches!(
            class,
            ClassDef {
                name,
                extends,
                vars,
                constructor,
                methods
            }
            if name == "Animal"
                && extends == None
                && vars == []
                && methods.len() == 1
                && matches!(&constructor, Constructor {params, ..} if params.len() == 0)

        ))
    }

    #[test]
    fn test_class_decl_with_2_methods() {
        let class = parse_class("class Animal { init() {} 
        meth speak() -> Void { return println(\"animal noise\"); }
        meth age() -> Int {return 0;}}").unwrap();
        assert!(matches!(
            class,
            ClassDef {
                name,
                extends,
                vars,
                constructor,
                methods
            }
            if name == "Animal"
                && extends == None
                && vars == []
                && methods.len() == 2
                && matches!(&constructor, Constructor {params, ..} if params.len() == 0)

        ))
    }

    #[test]
    fn test_class_missing_init() {
        let errors = get_class_errors("class Animal {}");
        assert!(errors.iter().any(|e| matches!(e, ParseError::MissingClassInit { symbol, .. }
        if symbol == "Animal")))
    }

    #[test]
    fn test_class_unnamed_method() {
        let errors = get_class_errors("class Zero { init() {}
        meth -> Int {return 0;}");
        assert!(errors.iter().any(|e| matches!(e, ParseError::ExpectedMethName { symbol, span }
            if symbol == "Zero" && *span == Span{line:2, column:14})))
    }

    fn parse_method(input: &str) -> Option<MethDef> {
        let mut lexer = Lexer::new(input);
        let tokens = lexer.tokenize().unwrap();
        let mut parser = Parser::new(tokens);
        parser.parse_method("Dummy")
    }

    fn get_method_errors(input: &str) -> Vec<ParseError> {
        let mut lexer = Lexer::new(input);
        let tokens = lexer.tokenize().unwrap();
        let mut parser = Parser::new(tokens);
        parser.parse_method("Dummy");
        parser.get_errors().to_vec()
    }

    #[test]
    fn test_minimal_method_decl() {
        let method = parse_method("methodName() -> Void {}").unwrap();
        assert!(matches!(
            method,
            MethDef {
                name,
                params,
                return_type,
                statements
            }
            if name == "methodName"
                && params.len() == 0
                && return_type == TypeName::Void
                && body_len(&statements) == 0
        ))
    }

    #[test]
    fn test_minimal_method_1_param() {
        let method = parse_method("methodName(intParam: Int) -> Void {}").unwrap();
        assert!(matches!(
            method,
            MethDef {
                name,
                params,
                return_type,
                statements
            }
            if name == "methodName"
                && params[0].name == "intParam"
                && params[0].param_type == TypeName::Int
                && return_type == TypeName::Void
                && body_len(&statements) == 0
        ))
    }

    #[test]
    fn test_minimal_method_2_param() {
        let method = parse_method("methodName(intParam: Int, stringParam: Str) -> Void {}").unwrap();
        assert!(matches!(
            method,
            MethDef {
                name,
                params,
                return_type,
                statements
            }
            if name == "methodName"
                && params[0].name == "intParam"
                && params[0].param_type == TypeName::Int
                && params[1].name == "stringParam"
                && params[1].param_type == TypeName::Str
                && return_type == TypeName::Void
                && body_len(&statements) == 0
        ))
    }

    #[test]
    fn test_minimal_method_3_param() {
        let method = parse_method("methodName(intParam: Int, stringParam: Str, boolParam: Boolean) -> Void {}").unwrap();
        assert!(matches!(
            method,
            MethDef {
                name,
                params,
                return_type,
                statements
            }
            if name == "methodName"
                && params[0].name == "intParam"
                && params[0].param_type == TypeName::Int
                && params[1].name == "stringParam"
                && params[1].param_type == TypeName::Str
                && params[2].name == "boolParam"
                && params[2].param_type == TypeName::Boolean
                && return_type == TypeName::Void
                && body_len(&statements) == 0
        ))
    }

    #[test]
    fn test_method_with_body() {
        let method = parse_method("methodName() -> Void {let myNum: Int = 5;}").unwrap();
        assert!(matches!(
            method,
            MethDef {
                name,
                params,
                return_type,
                statements
            }
            if name == "methodName"
                && params.len() == 0
                && return_type == TypeName::Void
                && body_len(&statements) == 1
        ))
    }

    #[test]
    fn test_full_featured_method() {
        let method = parse_method("methodName(myNum: Int) -> Int {let square: Int = myNum * myNum; return myNum * myNum;}").unwrap();
        assert!(matches!(
            method,
            MethDef {
                name,
                params,
                return_type,
                statements
            }
            if name == "methodName"
                && params.len() == 1
                && return_type == TypeName::Int
                && body_len(&statements) > 0
        ))
    }

    #[test]
    fn test_unnamed_method() {
        let errors = get_method_errors("() -> Void {let myNum: Int = 5;}");
        assert!(errors.iter().any(|e| matches!(
            e, ParseError::ExpectedMethName { .. }
        )))
    }

    #[test]
    fn test_method_missing_rparen() {
        let errors = get_method_errors("broken ( -> Void {}");
        assert!(errors.iter().any(|e| matches!(
            e, ParseError::UnexpectedToken { .. }
        )))
    }

    #[test]
    fn test_method_missing_lparen() {
        let errors = get_method_errors("broken ) -> Void {}");
        assert!(errors.iter().any(|e| matches!(
            e, ParseError::ExpectedButFound { expected, found, .. }
            if expected == "(" && found == ")"
        )))
    }

    #[test]
    fn test_method_unexpected_eof_params() {
        let errors = get_method_errors("broken (");
        assert!(errors.iter().any(|e| matches!(
            e, ParseError::UnexpectedEOF { .. }
        )))
    }

    #[test]
    fn test_method_unexpected_eof_type() {
        let errors = get_method_errors("broken ()");
        assert!(errors.iter().any(|e| matches!(
            e, ParseError::UnexpectedEOF { .. }
        )))
    }

    #[test]
    fn test_method_unexpected_eof_body() {
        let errors = get_method_errors("broken () -> Void {let myNum:Int;");
        assert!(errors.iter().any(|e| matches!(
            e, ParseError::UnexpectedEOF { .. }
        )))
    }

    #[test]
    fn test_method_missing_type() {
        let errors = get_method_errors("broken () -> {}");
        assert!(errors.iter().any(|e| matches!(
            e, ParseError::ExpectedReturnType { .. }
        )))
    }

    #[test]
    fn test_method_missing_arrow() {
        let errors = get_method_errors("broken () Void {}");
        assert!(errors.iter().any(|e| matches!(
            e, ParseError::ExpectedButFound { expected, found, .. }
            if expected == "->" && found == "Void"
        )))
    }

    fn parse_function(input: &str) -> Option<FunDef> {
        let mut lexer = Lexer::new(input);
        let tokens = lexer.tokenize().unwrap();
        let mut parser = Parser::new(tokens);
        parser.parse_fun()
    }

    #[test]
    fn test_minimal_function() {
        let function = parse_function("functionName() -> Void {}").unwrap();
        assert!(matches!(
            function,
            FunDef {
                name,
                params,
                return_type,
                statements
            }
            if name == "functionName"
                && params.len() == 0
                && return_type == TypeName::Void
                && body_len(&statements) == 0
        ))
    }

    #[test]
    fn test_parse_constructor() {
        let source = String::from(
            r#"
            class Gugushik extends Animal {
                init(x: Int, y: Str) { 
                    super(); let myNum: Int = 5; 
                } 
            
                meth speak(z: Int) -> Void { 
                    return z; 
                } 

                meth walk(z: Int) -> Void { 
                    return z; 
                } 
            }
        "#,
        );
        let mut lexer = Lexer::new(&source);
        let tokens = lexer.tokenize().unwrap();
        let mut parser = Parser::new(tokens);
        let class = parser.parse_class();
        if let Some(class) = class {
            println!("PARSED CONSTRUCTOR TEST: {:#?}", class)
        } else {
            println!("FAILURE");
            if parser.has_errors() {
                println!(
                    "ERRORS FROM CONSTRUCTOR TEST: {:#?}",
                    parser.get_errors()
                );
            }
        }
    }

    #[test]
    fn test_fun_decl() {
        let source = String::from(
            r#"
            fun fibonacci(n: Int) -> Int {
            if (n <= 0) {
                return 0;
            }
            if (n == 1) {
                return 1;
            }
            
            let a: Int = 0;
            let b: Int = 1;
            let result: Int = 0;
            
            let i: Int = 2;
            while (i <= n) {
                result = a + b;
                a = b;
                b = result;
                i = i + 1;
            }
            
            return result;
            }
        "#,
        );
        let mut lexer = Lexer::new(&source);
        let tokens = lexer.tokenize().unwrap();
        let mut parser = Parser::new(tokens);
        let fun = parser.parse_fun();
        if let Some(fun) = fun {
            println!("PARSED FUN TEST: {:#?}", fun)
        } else {
            println!("FAILURE");
            if parser.has_errors() {
                println!("ERRORS FROM FUN TEST: {:#?}", parser.get_errors());
            }
        }
    }
