use classlang::ast::{Entry, Expr, PrettyPrint, Stmt};
use classlang::lexer::Lexer;
use classlang::parser::{plain_text, Parser, ParserExpr, ParserStmt, Style};

fn expr_of(input: &str) -> Expr {
    let mut parser = Parser::new(Lexer::new(input).tokenize().unwrap());
    parser.parse_expr().unwrap()
}

fn stmt_of(input: &str) -> Stmt {
    let mut parser = Parser::new(Lexer::new(input).tokenize().unwrap());
    parser.parse_stmt().unwrap()
}

fn program_of(input: &str) -> Entry {
    let mut parser = Parser::new(Lexer::new(input).tokenize().unwrap());
    parser.parse().unwrap()
}

#[test]
fn expressions_print_with_their_grouping() {
    assert_eq!(plain_text(&expr_of("1 + 2 * 3").pretty_print(0)), "(1 + (2 * 3))");
    assert_eq!(plain_text(&expr_of("(1 + 2) * -x").pretty_print(0)), "(((1 + 2)) * -x)");
    assert_eq!(
        plain_text(&expr_of("new A(1, \"s\").m(true, this).f ").pretty_print(0)),
        "new A(1, \"s\").m(true, this).f"
    );
    assert_eq!(plain_text(&expr_of("println(f())").pretty_print(0)), "println(f())");
    assert_eq!(plain_text(&expr_of("print(!a)").pretty_print(0)), "print(!a)");
    assert_eq!(plain_text(&Expr::Empty.pretty_print(0)), "<empty>");
}

#[test]
fn expression_pieces_carry_their_styles() {
    let pieces = expr_of("f(x, 1)").pretty_print(0);
    let styles: Vec<Style> = pieces.iter().map(|p| p.style).collect();
    let texts: Vec<&str> = pieces.iter().map(|p| p.text.as_str()).collect();
    assert_eq!(texts, vec!["f", "(", "x", ", ", "1", ")"]);
    assert_eq!(
        styles,
        vec![Style::BlueBold, Style::Plain, Style::CyanItalic, Style::Plain, Style::Cyan, Style::Plain]
    );
}

#[test]
fn statements_print_on_lines_of_their_own() {
    assert_eq!(plain_text(&stmt_of("let x: Int = 5;").pretty_print(0)), "let x: Int = 5;\n");
    assert_eq!(plain_text(&stmt_of("let x: Dog;").pretty_print(1)), "  let x: Dog;\n");
    assert_eq!(plain_text(&stmt_of("a.b = 1;").pretty_print(0)), "a.b = 1;\n");
    assert_eq!(plain_text(&stmt_of("return;").pretty_print(2)), "    return;\n");
    assert_eq!(plain_text(&stmt_of("return 1;").pretty_print(0)), "return 1;\n");
    assert_eq!(plain_text(&stmt_of("break;").pretty_print(0)), "break;\n");
    assert_eq!(plain_text(&Stmt::Empty.pretty_print(1)), "  <empty statement>\n");
    assert_eq!(
        plain_text(&stmt_of("while (i < 3) { i = i + 1; f(i); }").pretty_print(0)),
        "while ((i < 3)) {\n  i = (i + 1);\n  f(i);\n}\n"
    );
    assert_eq!(
        plain_text(&stmt_of("if (a) { return 1; } else { return 2; }").pretty_print(1)),
        "  if (a) {\n    return 1;\n  }\n  else {\n    return 2;\n  }\n"
    );
}

#[test]
fn programs_print_classes_functions_and_statements() {
    let entry = program_of(
        "let x: Int = 1; class A extends B { init(a: Int) { super(a); } meth m(p: Str, q: Int) -> Int { return 1; } } fun f() -> Void { }",
    );
    assert_eq!(
        plain_text(&entry.pretty_print(0)),
        "class A extends B {\n  init (a: Int) {\n    super(a);\n  }\n\n  meth m(p: Str, q: Int) -> Int {\n    return 1;\n  }\n}\n\nfun f() -> Void {\n}\n\nlet x: Int = 1;\n"
    );
    assert_eq!(plain_text(&entry.class_defs[0].constructor.pretty_print(0)), "init (a: Int) {\n  super(a);\n}\n");
    assert_eq!(plain_text(&entry.fun_defs[0].pretty_print(0)), "fun f() -> Void {\n}\n");
    assert_eq!(plain_text(&entry.class_defs[0].methods[0].params[0].pretty_print(0)), "p: Str");
}

#[test]
fn pretty_string_is_the_text_with_colours_off() {
    colored::control::set_override(false);
    assert_eq!(stmt_of("let x: Int = 5;").to_pretty_string(), "let x: Int = 5;\n");
    assert_eq!(expr_of("1 + 2").to_pretty_string(), "(1 + 2)");
}

#[test]
fn pretty_string_is_painted_with_colours_on() {
    colored::control::set_override(true);
    assert_eq!(expr_of("1").to_pretty_string(), "\u{1b}[36m1\u{1b}[0m");
    assert_eq!(expr_of("this").to_pretty_string(), "\u{1b}[1;33mthis\u{1b}[0m");
}
