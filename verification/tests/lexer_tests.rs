use classlang::lexer::{LexicalError, Lexer, Span, TokenType, TypeName};

    #[test]
    fn tokenize_punctuation() {
        let mut lexer = Lexer::new("() {}; , .");
        let tokens = lexer.tokenize().unwrap();
        assert_eq!(tokens[0].token_type, TokenType::LeftParen);
        assert_eq!(tokens[1].token_type, TokenType::RightParen);
        assert_eq!(tokens[2].token_type, TokenType::LeftBrace);
        assert_eq!(tokens[3].token_type, TokenType::RightBrace);
        assert_eq!(tokens[4].token_type, TokenType::Semicolon);
        assert_eq!(tokens[5].token_type, TokenType::Comma);
        assert_eq!(tokens[6].token_type, TokenType::Dot);
        assert_eq!(tokens[7].token_type, TokenType::EOF);
    }

    #[test]
    fn tokenize_empty() {
        let mut lexer = Lexer::new("");
        let tokens = lexer.tokenize().unwrap();
        assert_eq!(tokens[0].token_type, TokenType::EOF);
    }

    #[test]
    fn tokenize_operators() {
        let mut lexer = Lexer::new("+ - * / =");
        let tokens = lexer.tokenize().unwrap();
        assert_eq!(tokens[0].token_type, TokenType::Plus);
        assert_eq!(tokens[1].token_type, TokenType::Minus);
        assert_eq!(tokens[2].token_type, TokenType::Star);
        assert_eq!(tokens[3].token_type, TokenType::Slash);
        assert_eq!(tokens[4].token_type, TokenType::Assign);
        assert_eq!(tokens[5].token_type, TokenType::EOF);
    }

    #[test]
    fn tokenize_boolean_ops() {
        let mut lexer = Lexer::new("< <= == > >= !");
        let tokens = lexer.tokenize().unwrap();
        assert_eq!(tokens[0].token_type, TokenType::Less);
        assert_eq!(tokens[1].token_type, TokenType::LessEqual);
        assert_eq!(tokens[2].token_type, TokenType::Equal);
        assert_eq!(tokens[3].token_type, TokenType::Greater);
        assert_eq!(tokens[4].token_type, TokenType::GreaterEqual);
        assert_eq!(tokens[5].token_type, TokenType::Not);
        assert_eq!(tokens[6].token_type, TokenType::EOF);
    }

    #[test]
    fn tokenize_keywords() {
        let mut lexer = Lexer::new("class meth init extends this super while break return if else new true false println fun let");
        let tokens = lexer.tokenize().unwrap();
        assert_eq!(tokens[0].token_type, TokenType::Class);
        assert_eq!(tokens[1].token_type, TokenType::Meth);
        assert_eq!(tokens[2].token_type, TokenType::Init);
        assert_eq!(tokens[3].token_type, TokenType::Extends);
        assert_eq!(tokens[4].token_type, TokenType::This);
        assert_eq!(tokens[5].token_type, TokenType::Super);
        assert_eq!(tokens[6].token_type, TokenType::While);
        assert_eq!(tokens[7].token_type, TokenType::Break);
        assert_eq!(tokens[8].token_type, TokenType::Return);
        assert_eq!(tokens[9].token_type, TokenType::If);
        assert_eq!(tokens[10].token_type, TokenType::Else);
        assert_eq!(tokens[11].token_type, TokenType::New);
        assert_eq!(tokens[12].token_type, TokenType::True);
        assert_eq!(tokens[13].token_type, TokenType::False);
        assert_eq!(tokens[14].token_type, TokenType::Println);
        assert_eq!(tokens[15].token_type, TokenType::Fun);
        assert_eq!(tokens[16].token_type, TokenType::Let);
        assert_eq!(tokens[17].token_type, TokenType::EOF);
    }

    #[test]
    fn tokenize_types() {
        let mut lexer = Lexer::new("Int Boolean Void");
        let tokens = lexer.tokenize().unwrap();
        assert_eq!(tokens[0].token_type, TokenType::Type(TypeName::Int));
        assert_eq!(tokens[1].token_type, TokenType::Type(TypeName::Boolean));
        assert_eq!(tokens[2].token_type, TokenType::Type(TypeName::Void));
        assert_eq!(tokens[3].token_type, TokenType::EOF);
    }

    #[test]
    fn tokenize_pos_integers() {
        let mut lexer = Lexer::new("1 10 100");
        let tokens = lexer.tokenize().unwrap();
        assert_eq!(tokens[0].token_type, TokenType::IntegerLiteral(1));
        assert_eq!(tokens[1].token_type, TokenType::IntegerLiteral(10));
        assert_eq!(tokens[2].token_type, TokenType::IntegerLiteral(100));
        assert_eq!(tokens[3].token_type, TokenType::EOF);
    }

    #[test]
    fn tokenize_neg_integers() {
        let mut lexer = Lexer::new("-1 -10 -100");
        let tokens = lexer.tokenize().unwrap();
        assert_eq!(tokens[0].token_type, TokenType::Minus);
        assert_eq!(tokens[1].token_type, TokenType::IntegerLiteral(1));
        assert_eq!(tokens[2].token_type, TokenType::Minus);
        assert_eq!(tokens[3].token_type, TokenType::IntegerLiteral(10));
        assert_eq!(tokens[4].token_type, TokenType::Minus);
        assert_eq!(tokens[5].token_type, TokenType::IntegerLiteral(100));
        assert_eq!(tokens[6].token_type, TokenType::EOF);
    }

    #[test]
    fn tokenize_return_types() {
        let mut lexer = Lexer::new("fun greet(name: Str) -> Void");
        let tokens = lexer.tokenize().unwrap();
        assert_eq!(tokens[0].token_type, TokenType::Fun);
        assert_eq!(
            tokens[1].token_type,
            TokenType::Identifier("greet".to_string())
        );
        assert_eq!(tokens[2].token_type, TokenType::LeftParen);
        assert_eq!(
            tokens[3].token_type,
            TokenType::Identifier("name".to_string())
        );
        assert_eq!(tokens[4].token_type, TokenType::Colon);
        assert_eq!(tokens[5].token_type, TokenType::Type(TypeName::Str));
        assert_eq!(tokens[6].token_type, TokenType::RightParen);
        assert_eq!(tokens[7].token_type, TokenType::Arrow);
        assert_eq!(tokens[8].token_type, TokenType::Type(TypeName::Void));
        assert_eq!(tokens[9].token_type, TokenType::EOF);
    }

    #[test]
    fn tokenize_whitespace() {
        let mut lexer = Lexer::new("let    value: Int =    \n      123");
        let tokens = lexer.tokenize().unwrap();
        assert_eq!(tokens[0].token_type, TokenType::Let);
        assert_eq!(
            tokens[1].token_type,
            TokenType::Identifier(String::from("value"))
        );
        assert_eq!(tokens[2].token_type, TokenType::Colon);
        assert_eq!(tokens[3].token_type, TokenType::Type(TypeName::Int));
        assert_eq!(tokens[4].token_type, TokenType::Assign);
        assert_eq!(tokens[5].token_type, TokenType::IntegerLiteral(123));
        assert_eq!(tokens[6].token_type, TokenType::EOF);
    }

    #[test]
    fn tokenize_line_comments() {
        let mut lexer = Lexer::new(
            "Int value = 123; //This line creates an integer variable with value 123 \n
                                            2 + 2",
        );
        let tokens = lexer.tokenize().unwrap();
        assert_eq!(tokens[0].token_type, TokenType::Type(TypeName::Int));
        assert_eq!(
            tokens[1].token_type,
            TokenType::Identifier(String::from("value"))
        );
        assert_eq!(tokens[2].token_type, TokenType::Assign);
        assert_eq!(tokens[3].token_type, TokenType::IntegerLiteral(123));
        assert_eq!(tokens[4].token_type, TokenType::Semicolon);
        assert_eq!(tokens[5].token_type, TokenType::IntegerLiteral(2));
        assert_eq!(tokens[6].token_type, TokenType::Plus);
        assert_eq!(tokens[7].token_type, TokenType::IntegerLiteral(2));
        assert_eq!(tokens[8].token_type, TokenType::EOF);
    }

    #[test]
    fn tokenize_block_comments() {
        let mut lexer = Lexer::new("let value: Int = 123; /*This \nline \ncreates \nan \ninteger \nvariable \nwith \nvalue \n123*/ \n
                                            2 + 2");
        let tokens = lexer.tokenize().unwrap();
        assert_eq!(tokens[0].token_type, TokenType::Let);
        assert_eq!(
            tokens[1].token_type,
            TokenType::Identifier(String::from("value"))
        );
        assert_eq!(tokens[2].token_type, TokenType::Colon);
        assert_eq!(tokens[3].token_type, TokenType::Type(TypeName::Int));
        assert_eq!(tokens[4].token_type, TokenType::Assign);
        assert_eq!(tokens[5].token_type, TokenType::IntegerLiteral(123));
        assert_eq!(tokens[6].token_type, TokenType::Semicolon);
        assert_eq!(tokens[7].token_type, TokenType::IntegerLiteral(2));
        assert_eq!(tokens[8].token_type, TokenType::Plus);
        assert_eq!(tokens[9].token_type, TokenType::IntegerLiteral(2));
        assert_eq!(tokens[10].token_type, TokenType::EOF);
    }

    #[test]
    fn tokenize_string() {
        let mut lexer = Lexer::new("\"hello\"");
        let tokens = lexer.tokenize().unwrap();
        assert_eq!(
            tokens[0].token_type,
            TokenType::StringLiteral("hello".to_string())
        );
        assert_eq!(tokens[1].token_type, TokenType::EOF);
    }

    #[test]
    fn tokenize_string_newline() {
        let mut lexer = Lexer::new("\"hello \\nworld\"");
        let tokens = lexer.tokenize().unwrap();
        assert_eq!(
            tokens[0].token_type,
            TokenType::StringLiteral("hello \nworld".to_string())
        );
        assert_eq!(tokens[1].token_type, TokenType::EOF);
    }

    #[test]
    fn tokenize_string_tab() {
        let mut lexer = Lexer::new("\"hello \\tworld\"");
        let tokens = lexer.tokenize().unwrap();
        assert_eq!(
            tokens[0].token_type,
            TokenType::StringLiteral("hello \tworld".to_string())
        );
        assert_eq!(tokens[1].token_type, TokenType::EOF);
    }

    #[test]
    fn tokenize_string_return() {
        let mut lexer = Lexer::new("\"hello \\rworld\"");
        let tokens = lexer.tokenize().unwrap();
        assert_eq!(
            tokens[0].token_type,
            TokenType::StringLiteral("hello \rworld".to_string())
        );
        assert_eq!(tokens[1].token_type, TokenType::EOF);
    }

    #[test]
    fn tokenize_string_quotes() {
        let mut lexer = Lexer::new("\"hello \\\"world\\\"\"");
        let tokens = lexer.tokenize().unwrap();
        assert_eq!(
            tokens[0].token_type,
            TokenType::StringLiteral("hello \"world\"".to_string())
        );
        assert_eq!(tokens[1].token_type, TokenType::EOF);
    }

    #[test]
    fn tokenize_string_slash() {
        let mut lexer = Lexer::new("\"hello \\\\ world\"");
        let tokens = lexer.tokenize().unwrap();
        assert_eq!(
            tokens[0].token_type,
            TokenType::StringLiteral("hello \\ world".to_string())
        );
        assert_eq!(tokens[1].token_type, TokenType::EOF);
    }

    #[test]
    fn tokenize_unterminated_string() {
        let mut lexer = Lexer::new("String \"Hello World");
        let result = lexer.tokenize();
        assert!(matches!(
            result,
            Err(LexicalError::UnterminatedString { span })
            if span == Span::new(1, 8)
        ));
    }

    #[test]
    fn tokenize_invalid_number() {
        let mut lexer = Lexer::new("13 * 2 \nlet i: Int = 123a");
        let result = lexer.tokenize();
        assert!(matches!(
            result,
            Err(LexicalError::InvalidNumber { value, span })
            if value == "123a" && span == Span::new(2, 14)
        ));
    }

    #[test]
    fn tokenize_invalid_character() {
        let mut lexer = Lexer::new("13 * 2 \nlet $ = 123");
        let result = lexer.tokenize();
        assert!(matches!(
            result,
            Err(LexicalError::InvalidChar { character, span })
            if character == '$' && span == Span::new(2, 5)
        ));
    }

    #[test]
    fn tokenize_invalid_escape() {
        let mut lexer = Lexer::new("string \"Hello \\world\"");
        let result = lexer.tokenize();
        assert!(matches!(
            result,
            Err(LexicalError::InvalidEscapeSequence { escape, span })
            if escape == 'w' && span == Span::new(1, 8)
        ));
    }

    #[test]
    fn tokenize_unexpected_eof() {
        let mut lexer = Lexer::new("string \"Hello \\");
        let result = lexer.tokenize();
        assert!(matches!(
            result,
            Err(LexicalError::UnexpectedEOF { span })
            if span == Span::new(1, 8)
        ));
    }

    #[test]
    fn test_integers() {
        let src = "let myNumber: Int = 123;";
        let mut lexer = Lexer::new(src);
        let tokens = lexer.tokenize().unwrap();

        assert_eq!(tokens[0].token_type, TokenType::Let);
        assert_eq!(
            tokens[1].token_type,
            TokenType::Identifier("myNumber".to_string())
        );
        assert_eq!(tokens[2].token_type, TokenType::Colon);
        assert_eq!(tokens[3].token_type, TokenType::Type(TypeName::Int));
        assert_eq!(tokens[4].token_type, TokenType::Assign);
        assert_eq!(tokens[5].token_type, TokenType::IntegerLiteral(123));
        assert_eq!(tokens[6].token_type, TokenType::Semicolon);
        assert_eq!(tokens[7].token_type, TokenType::EOF);
    }

    #[test]
    fn test_classes() {
        let src = "class Animal { init() {} meth speak() -> Void { return println(0); } }";
        let mut lexer = Lexer::new(src);
        let tokens = lexer.tokenize().unwrap();

        assert_eq!(tokens[0].token_type, TokenType::Class);
        assert_eq!(
            tokens[1].token_type,
            TokenType::Identifier("Animal".to_string())
        );
        assert_eq!(tokens[2].token_type, TokenType::LeftBrace);
        assert_eq!(tokens[3].token_type, TokenType::Init);
        assert_eq!(tokens[4].token_type, TokenType::LeftParen);
        assert_eq!(tokens[5].token_type, TokenType::RightParen);
        assert_eq!(tokens[6].token_type, TokenType::LeftBrace);
        assert_eq!(tokens[7].token_type, TokenType::RightBrace);
        assert_eq!(tokens[8].token_type, TokenType::Meth);
        assert_eq!(
            tokens[9].token_type,
            TokenType::Identifier("speak".to_string())
        );
        assert_eq!(tokens[10].token_type, TokenType::LeftParen);
        assert_eq!(tokens[11].token_type, TokenType::RightParen);
        assert_eq!(tokens[12].token_type, TokenType::Arrow);
        assert_eq!(tokens[13].token_type, TokenType::Type(TypeName::Void));
        assert_eq!(tokens[14].token_type, TokenType::LeftBrace);
        assert_eq!(tokens[15].token_type, TokenType::Return);
        assert_eq!(tokens[16].token_type, TokenType::Println);
        assert_eq!(tokens[17].token_type, TokenType::LeftParen);
        assert_eq!(tokens[18].token_type, TokenType::IntegerLiteral(0));
        assert_eq!(tokens[19].token_type, TokenType::RightParen);
        assert_eq!(tokens[20].token_type, TokenType::Semicolon);
        assert_eq!(tokens[21].token_type, TokenType::RightBrace);
        assert_eq!(tokens[22].token_type, TokenType::RightBrace);
        assert_eq!(tokens[23].token_type, TokenType::EOF);
    }

    #[test]
    fn test_inheritance() {
        let src = "class Dog extends Animal { init() { super(); } }";
        let mut lexer = Lexer::new(src);
        let tokens = lexer.tokenize().unwrap();

        assert_eq!(tokens.len(), 16);
        assert_eq!(tokens[0].token_type, TokenType::Class);
        assert_eq!(
            tokens[1].token_type,
            TokenType::Identifier("Dog".to_string())
        );
        assert_eq!(tokens[2].token_type, TokenType::Extends);
        assert_eq!(
            tokens[3].token_type,
            TokenType::Identifier("Animal".to_string())
        );
        assert_eq!(tokens[4].token_type, TokenType::LeftBrace);
        assert_eq!(tokens[5].token_type, TokenType::Init);
        assert_eq!(tokens[6].token_type, TokenType::LeftParen);
        assert_eq!(tokens[7].token_type, TokenType::RightParen);
        assert_eq!(tokens[8].token_type, TokenType::LeftBrace);
        assert_eq!(tokens[9].token_type, TokenType::Super);
        assert_eq!(tokens[10].token_type, TokenType::LeftParen);
        assert_eq!(tokens[11].token_type, TokenType::RightParen);
        assert_eq!(tokens[12].token_type, TokenType::Semicolon);
        assert_eq!(tokens[13].token_type, TokenType::RightBrace);
        assert_eq!(tokens[14].token_type, TokenType::RightBrace);
        assert_eq!(tokens[15].token_type, TokenType::EOF);
    }

    #[test]
    fn test_strings() {
        let src = r#"console.log("Hello, World!");"#;
        let mut lexer = Lexer::new(src);
        let tokens = lexer.tokenize().unwrap();

        assert_eq!(tokens.len(), 8);
        assert_eq!(
            tokens[0].token_type,
            TokenType::Identifier("console".to_string())
        );
        assert_eq!(tokens[1].token_type, TokenType::Dot);
        assert_eq!(
            tokens[2].token_type,
            TokenType::Identifier("log".to_string())
        );
        assert_eq!(tokens[3].token_type, TokenType::LeftParen);
        assert_eq!(
            tokens[4].token_type,
            TokenType::StringLiteral("Hello, World!".to_string())
        );
        assert_eq!(tokens[5].token_type, TokenType::RightParen);
        assert_eq!(tokens[6].token_type, TokenType::Semicolon);
        assert_eq!(tokens[7].token_type, TokenType::EOF);
    }

    #[test]
    fn test_const_array() {
        let src = "const num = [1, 2];";
        let mut lexer = Lexer::new(src);
        let tokens = lexer.tokenize().unwrap();

        assert_eq!(tokens[0].token_type, TokenType::Const);
        assert_eq!(
            tokens[1].token_type,
            TokenType::Identifier("num".to_string())
        );
        assert_eq!(tokens[2].token_type, TokenType::Assign);
        assert_eq!(tokens[3].token_type, TokenType::LeftBracket);
        assert_eq!(tokens[4].token_type, TokenType::IntegerLiteral(1));
        assert_eq!(tokens[5].token_type, TokenType::Comma);
        assert_eq!(tokens[6].token_type, TokenType::IntegerLiteral(2));
        assert_eq!(tokens[7].token_type, TokenType::RightBracket);
        assert_eq!(tokens[8].token_type, TokenType::Semicolon);
        assert_eq!(tokens[9].token_type, TokenType::EOF);
    }
