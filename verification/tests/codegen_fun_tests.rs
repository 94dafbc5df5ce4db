use classlang::codegen::{CodeGenerator, FunctionGenerator};
use classlang::lexer::Lexer;
use classlang::parser::Parser;

    fn gen_fun(input: &str) -> String {
        let mut lexer = Lexer::new(input);
        let tokens = lexer.tokenize().unwrap();
        let mut parser = Parser::new(tokens);
        let ast = parser.parse().unwrap();
        // println!("{:?}",ast);
        let generator = CodeGenerator::new(ast);
        let funs = generator.generate_functions(generator.functions.clone());
        println!("{}",funs);
        funs
    }

    #[test]
    fn test_generate_minimal_function() {
        let funs = gen_fun("fun functionName() -> Void {}");
        assert_eq!(funs, "function functionName(){  }")
    }

    #[test]
    fn test_generate_minimal_function_with_params() {
        let funs = gen_fun("fun functionName(intParam: Int, stringParam: Str, boolParam: Boolean) -> Void {}");
        assert_eq!(funs, "function functionName(intParam,stringParam,boolParam){  }")
    }

    #[test]
    fn test_generate_function() {
        let funs = gen_fun("fun square(x: Int) -> Int {let square: Int = x*x; return square;}");
        assert_eq!(funs, "function square(x){ let square = x * x; \nreturn square }")
    }

    #[test]
    fn test_generate_multiple_functions() {
        let funs = gen_fun("fun square(x: Int) -> Int {let square: Int = x*x; return square;}
                                    fun bark() -> Void {println(\"bark\");}");
        assert_eq!(funs, "function square(x){ let square = x * x; \nreturn square }\n; \nfunction bark(){ console.log(\"bark\") }")
    }
