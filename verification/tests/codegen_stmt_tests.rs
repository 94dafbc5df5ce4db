use classlang::codegen::{CodeGenerator, StatementGenerator};
use classlang::lexer::Lexer;
use classlang::parser::Parser;

    fn gen_stmt(input: &str) -> String {
        let mut lexer = Lexer::new(input);
        let tokens = lexer.tokenize().unwrap();
        let mut parser = Parser::new(tokens);
        let ast = parser.parse().unwrap();
        println!("{:?}",ast);
        let generator = CodeGenerator::new(ast);
        let stmt = generator.generate_statements(generator.statements.clone());
        println!("{}",stmt);
        stmt
    }

    #[test]
    fn test_generate_empty_statement() {
        let stmt = gen_stmt("");
        assert_eq!(stmt, "".to_string())
    }

    #[test]
    fn test_generate_binop_statements() {
        let stmt = gen_stmt("1+2; 1-2; 1*2; 1/2; x==1; x != 1; 1>0; 0<1; x>=1; x<=1; true || false; true && true");
        assert_eq!(stmt, "1 + 2; \n1 - 2; \n1 * 2; \n1 / 2; \nx == 1; \nx != 1; \n1 > 0; \n0 < 1; \nx >= 1; \nx <= 1; \ntrue || false; \ntrue && true")
    }

    #[test]
    fn test_generate_unop_statements() {
        let stmt = gen_stmt("!true; -x; +x");
        assert_eq!(stmt, "!true; \n-x; \n+x");
    }

    #[test]
    fn test_generate_var_decl() {
        let stmt = gen_stmt("let x: Int;");
        assert_eq!(stmt, "let x".to_string())
    }

    #[test]
    fn test_generate_var_assignment() {
        let stmt = gen_stmt("x = 5;");
        assert_eq!(stmt, "x = 5")
    }

    #[test]
    fn generate_var_decl_w_assignment() {
        let stmt = gen_stmt("let x: Int = 5;");
        assert_eq!(stmt, "let x = 5")
    }

    #[test]
    fn generate_while_loop() {
        let stmt = gen_stmt("while (i < 5) {i = i + 1; println(i);}");
        assert_eq!(stmt, "while (i < 5) { i = i + 1; \nconsole.log(i) }")
    }

    #[test]
    fn generate_if_stmt() {
        let stmt = gen_stmt("if (true) {print(0)}}");
        assert_eq!(stmt, "if (true) {console.log(0)}")
    }

    #[test]
    fn generate_ifelse_stmt() {
        let stmt = gen_stmt("if (false) {print(0)} else {print(1)}");
        assert_eq!(stmt, "if (false) {console.log(0)} else {console.log(1)}")
    }

    #[test]
    fn generate_funcall() {
        let stmt = gen_stmt("sum(1,2,3,4,5,6)");
        assert_eq!(stmt, "sum(1,2,3,4,5,6)")
    }

    #[test]
    fn generate_methodcalls() {
        let stmt = gen_stmt("cat.meow(); Math.add(2, sum(1,2))");
        assert_eq!(stmt,"cat.meow(); \nMath.add(2,sum(1,2))")
    }

    #[test]
    fn generate_new_instance() {
        let stmt = gen_stmt("let cat: Animal = new Animal(\"meow\");");
        assert_eq!(stmt, "let cat = new Animal(\"meow\")")
    }

    #[test]
    fn generate_nested_statement() {
        let stmt = gen_stmt("let x:Int = sum(sum(a,b),sum(c,Math.sqrt(d)));");
        assert_eq!(stmt, "let x = sum(sum(a,b),sum(c,Math.sqrt(d)))")
    }
