use classlang::parser::{paint, paint_line, paint_lines, Segment, Style};

fn piece(text: &str, style: Style) -> Segment {
    Segment { text: text.to_string(), style }
}

#[test]
fn plain_pieces_are_their_text_with_colours_on() {
    colored::control::set_override(true);
    assert_eq!(paint(&piece("x", Style::Plain)), "x");
    assert_eq!(paint_line(&vec![piece("a", Style::Plain), piece("b", Style::Plain)]), "ab");
    assert_eq!(paint_line(&vec![]), "");
}

#[test]
fn styled_pieces_carry_escape_sequences_with_colours_on() {
    colored::control::set_override(true);
    for style in [Style::RedBold, Style::Yellow, Style::WhiteBold, Style::BlueBold, Style::Cyan, Style::Bold] {
        let painted = paint(&piece("x", style));
        assert_ne!(painted, "x");
        assert!(painted.starts_with("\u{1b}["));
        assert!(painted.ends_with("x\u{1b}[0m"));
    }
    assert_eq!(paint(&piece("x", Style::RedBold)), "\u{1b}[1;31mx\u{1b}[0m");
    assert_eq!(paint(&piece("x", Style::Cyan)), "\u{1b}[36mx\u{1b}[0m");
}

#[test]
fn styled_pieces_are_their_text_with_colours_off() {
    colored::control::set_override(false);
    for style in [Style::RedBold, Style::Yellow, Style::WhiteBold, Style::BlueBold, Style::Cyan, Style::Bold] {
        assert_eq!(paint(&piece("x", style)), "x");
    }
    let lines = vec![vec![piece("error", Style::RedBold), piece(": ", Style::Plain)], vec![]];
    assert_eq!(paint_lines(&lines), vec!["error: ".to_string(), String::new()]);
}

/// Whether `painted` holds the characters of `text` in their order.
fn holds(painted: &str, text: &str) -> bool {
    let mut rest = text.chars().peekable();
    for c in painted.chars() {
        if rest.peek() == Some(&c) {
            rest.next();
        }
    }
    rest.peek().is_none()
}

#[test]
fn painted_pieces_hold_their_text_whatever_the_colours() {
    let texts = ["", "x", "error", "a\u{1b}[0mb", "\u{1b}[0m", "gr\u{fc}n \u{1F61E}"];
    let styles = [
        Style::Plain, Style::Bold, Style::RedBold, Style::Green, Style::GreenBold, Style::Yellow,
        Style::YellowBold, Style::BlueBold, Style::Magenta, Style::MagentaBold, Style::Cyan,
        Style::CyanItalic, Style::WhiteBold,
    ];
    for on in [true, false] {
        colored::control::set_override(on);
        for text in texts {
            for style in styles {
                let painted = paint(&piece(text, style));
                assert!(holds(&painted, text));
                assert!(painted.chars().count() >= text.chars().count());
                if !on || text.is_empty() && style == Style::Plain {
                    assert_eq!(painted, text);
                }
            }
        }
        let line = vec![piece("error", Style::RedBold), piece(": ", Style::Plain), piece("E012", Style::Yellow)];
        assert!(holds(&paint_line(&line), "error: E012"));
        assert!(holds(&paint_lines(&vec![line.clone(), vec![]])[0], "error: E012"));
    }
}
