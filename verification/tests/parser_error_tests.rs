use classlang::lexer::Span;
use classlang::parser::ParseError;

    #[test]
    fn test_error_codes() {
        assert!(ParseError::UnexpectedEOF  {span: Some(Span{line:0, column:0}) }.get_code() == "E009");
        assert!(ParseError::ExpectedMethName { symbol: "".to_string(), span: Span{line:0, column:0} }.get_code() == "E011");
        assert!(ParseError::ExpectedButFound { expected: "".to_string(), found: "".to_string(), span: Some(Span{line:0, column:0}) }.get_code() == "E012");
        assert!(ParseError::UnexpectedToken  { symbol: "".to_string(), span: Span{line:0, column:0} }.get_code() == "E020");
        assert!(ParseError::ExpectedExpressionAfterComma { symbol: "".to_string(), span: Span{line:0, column:0} }.get_code() == "E024");
    }

    #[test]
    fn test_get_span() {
        let binding = ParseError::ExpectedMethName { symbol: "".to_string(), span: Span{line:0, column:0} };
        let span = binding.get_span().unwrap();
        assert!(matches!(
            span,
            Span { line:0, column:0 }
        ))
    }

    #[test]
    fn test_get_span_ref() {
        let span = ParseError::UnexpectedEOF  {span: Some(Span{line:0, column:0}) }.get_span().unwrap();
        assert!(matches!(
            span,
            Span { line:0, column:0 }
        ))
    }

#[test]
fn test_get_span_case() {
    let err = ParseError::UnexpectedToken {
        symbol: "foo".to_string(),
        span: Span { line: 1, column: 1 }
    };
    assert!(err.get_span().is_some());

    let err = ParseError::ExpectedExpressionAfterComma {
        symbol: ",".to_string(),
        span: Span { line: 1, column: 1 }
    };
    assert!(err.get_span().is_some());
}

#[test]
fn test_expected_expression() {
    let err = ParseError::ExpectedExpression {
        span: Span { line: 1, column: 1 }
    };
    assert_eq!(err.get_code(), "E025");
}

fn show(lines: &Vec<Vec<classlang::parser::Segment>>) {
    for line in classlang::parser::paint_lines(lines) {
        println!("{}", line);
    }
}

#[test]
fn test_print_errors_maximum_context() {
    let error = ParseError::ExpectedButFound { 
        expected: "expected".to_string(), 
        found: "found".to_string(), 
        span: Some(Span{line:2, column:0}) };
    show(&error.with_context("test\nmulti-line\nerror"));
}

#[test]
fn test_print_errors_unknown_location() {
    let error = ParseError::ExpectedButFound { 
        expected: "expected".to_string(), 
        found: "found".to_string(), 
        span: None };
    show(&error.with_context("test"));
}

#[test]
fn test_print_context_line() {
    println!("{} {}", classlang::parser::report::gutter_text(10), "content");
}

#[test]
fn test_print_errors() {
    let error1 = ParseError::ExpectedButFound { 
        expected: "expected".to_string(), 
        found: "found".to_string(), 
        span: Some(Span{line:0, column:0}) };
    let error2 = ParseError::UnexpectedEOF { span: None };

    show(&classlang::parser::render_errors(&[error1,error2], "test"));
}
