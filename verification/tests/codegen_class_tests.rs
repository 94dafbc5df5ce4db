use classlang::codegen::{CodeGenerator, ClassGenerator};
use classlang::lexer::Lexer;
use classlang::parser::Parser;

    fn gen_class(input: &str) -> String {
        let mut lexer = Lexer::new(input);
        let tokens = lexer.tokenize().unwrap();
        let mut parser = Parser::new(tokens);
        let ast = parser.parse().unwrap();
        println!("{:?}",ast);
        let generator = CodeGenerator::new(ast);
        let classes = generator.generate_classes(generator.classes.clone());
        println!("{}",classes);
        classes
    }

    #[test]
    fn test_generate_minimal_class() {
        let classes = gen_class("class Animal { init() {} }");
        assert_eq!(classes, "class Animal{\nconstructor() {}\n\n}")
    }

    #[test]
    fn test_generate_class_with_field() {
        let class = gen_class("class Animal { init(voice: Str) {{this.voice = voice;}} }");
        assert_eq!(class, "class Animal{\nconstructor(voice) {{ { this.voice = voice } }}\n\n}")
    }

    #[test]
    fn test_generate_class_with_fields() {
        let class = gen_class("class Animal { init(voice: Str, limbnum: Int) {{this.voice = voice; this.limbnum = limbnum}} }");
        assert_eq!(class, "class Animal{\nconstructor(voice,limbnum) {{ { this.voice = voice; \nthis.limbnum = limbnum } }}\n\n}")
    }

    #[test]
    fn test_generate_class_with_methods() {
        let class = gen_class("class Animal { init() {} 
        meth speak() -> Void { println(\"animal noise\"); }
        meth age() -> Int {return 0;}}");
        assert_eq!(class, "class Animal{\nconstructor() {}\nspeak(){ console.log(\"animal noise\") }\nage(){ return 0 }\n}".trim())
    }

    #[test]
    fn test_generate_inherited_class() {
        let class = gen_class("class Cat extends Animal { init() {super(\"meow\");} }");
        assert_eq!(class, "class Cat extends Animal{\nconstructor() {super(\"meow\")}\n\n}")
    }
