use vstd::prelude::*;
use vstd::string::*;
use crate::lexer::Span;
use crate::parser::error::{error_views, ParseError, ParseErrorView};
use crate::style::{line_view, lines_view, piece, segment, Segment, SegmentView, Style};
use crate::text::{
    blanks, decimal, lines_of, push_blanks, push_usize, right_aligned, right_aligned_number,
    split_lines, string_views,
};

verus! {

/// The margin in front of a line of the source: its number, right-aligned in three
/// columns, a blank and a bar.
pub open spec fn gutter(number: nat) -> Seq<char> {
    right_aligned(decimal(number), 3) + " |"@
}

/// The mark under the failing column: a caret behind as many blanks as columns stand in
/// front of that column.
pub open spec fn caret(column: nat) -> Seq<char> {
    blanks(if column > 0 {
        (column - 1) as nat
    } else {
        0
    }) + "^"@
}

/// Line `number` of the source with its margin.
pub open spec fn source_line(number: nat, content: Seq<char>) -> Seq<SegmentView> {
    seq![piece(gutter(number), Style::BlueBold), piece(" "@, Style::Plain), piece(content, Style::Plain)]
}

/// The first line of a rendered diagnostic: `error: <code> <message>`.
pub open spec fn headline(error: ParseErrorView) -> Seq<SegmentView> {
    seq![
        piece("error"@, Style::RedBold),
        piece(": "@, Style::Plain),
        piece(error.code(), Style::Yellow),
        piece(" "@, Style::Plain),
        piece(error.message(), Style::WhiteBold),
    ]
}

/// The line that names the place: `--> input:<line>:<column>`.
pub open spec fn place_line(span: Span) -> Seq<SegmentView> {
    seq![
        piece("-->"@, Style::BlueBold),
        piece(" "@, Style::Plain),
        piece("input"@, Style::Cyan),
        piece(":"@ + decimal(span.line as nat) + ":"@ + decimal(span.column as nat), Style::Plain),
    ]
}

/// The line with the mark under the failing column.
pub open spec fn caret_line(column: nat) -> Seq<SegmentView> {
    seq![piece("    |"@, Style::BlueBold), piece(" "@, Style::Plain), piece(caret(column), Style::RedBold)]
}

/// Whether `span` points at a line of a source of these `lines`.
pub open spec fn in_source(span: Option<Span>, lines: Seq<Seq<char>>) -> bool {
    span matches Some(at) && 0 < at.line <= lines.len()
}

/// The source around `span`: the place, an empty margin, the line before the failing one
/// if there is one, the failing line, the mark under the failing column, and the line
/// behind the failing one if there is one.
pub open spec fn excerpt(span: Span, lines: Seq<Seq<char>>) -> Seq<Seq<SegmentView>> {
    let before = if span.line > 1 {
        seq![source_line((span.line - 1) as nat, lines[span.line - 2])]
    } else {
        Seq::empty()
    };
    let behind = if span.line < lines.len() {
        seq![source_line((span.line + 1) as nat, lines[span.line as int])]
    } else {
        Seq::empty()
    };
    seq![place_line(span), seq![piece("    |"@, Style::BlueBold)]] + before + seq![
        source_line(span.line as nat, lines[span.line - 1]),
        caret_line(span.column as nat),
    ] + behind
}

/// One diagnostic rendered against the lines of the source: the headline, the source
/// around the place if the diagnostic has a place inside the source, and an empty line.
pub open spec fn rendered(error: ParseErrorView, lines: Seq<Seq<char>>) -> Seq<Seq<SegmentView>> {
    seq![headline(error)] + (if in_source(error.span(), lines) {
        excerpt(error.span()->0, lines)
    } else {
        Seq::empty()
    }) + seq![Seq::<SegmentView>::empty()]
}

/// `error` or `errors`, as the count asks.
pub open spec fn error_word(count: nat) -> Seq<char> {
    if count == 1 {
        "error"@
    } else {
        "errors"@
    }
}

/// The diagnostics from index `from` on, each rendered, one after another.
pub open spec fn rendered_from(errors: Seq<ParseErrorView>, lines: Seq<Seq<char>>, from: int) -> Seq<
    Seq<SegmentView>,
>
    decreases errors.len() - from,
{
    if from < 0 || from >= errors.len() {
        Seq::empty()
    } else {
        rendered(errors[from], lines) + rendered_from(errors, lines, from + 1)
    }
}

/// The line that opens a report: `Found <count> error(s)`.
pub open spec fn found_line(count: nat) -> Seq<SegmentView> {
    seq![piece("Found "@ + decimal(count) + " "@ + error_word(count), Style::RedBold)]
}

/// The line that closes a report: `error: aborting due to <count> error(s)` and a sad
/// face.
pub open spec fn summary_line(count: nat) -> Seq<SegmentView> {
    seq![
        piece("error"@, Style::RedBold),
        piece(": "@, Style::Plain),
        piece("aborting due to "@ + decimal(count) + " "@ + error_word(count), Style::Bold),
        piece(" "@, Style::Plain),
        piece("\u{1F61E}"@, Style::Yellow),
    ]
}

/// All diagnostics rendered against the lines of the source: nothing if there are none;
/// else an empty line, the count, each diagnostic, the summary and an empty line.
pub open spec fn report(errors: Seq<ParseErrorView>, lines: Seq<Seq<char>>) -> Seq<
    Seq<SegmentView>,
> {
    if errors.len() == 0 {
        Seq::empty()
    } else {
        seq![Seq::<SegmentView>::empty(), found_line(errors.len())] + rendered_from(
            errors,
            lines,
            0,
        ) + seq![summary_line(errors.len()), Seq::<SegmentView>::empty()]
    }
}

/// The margin in front of line `number` of the source.
pub fn gutter_text(number: usize) -> (out: String)
    ensures
        out@ == gutter(number as nat),
{
    let mut out = right_aligned_number(number, 3);
    out.append(" |");
    out
}

/// The mark under column `column`.
pub fn caret_text(column: usize) -> (out: String)
    ensures
        out@ == caret(column as nat),
{
    let mut out = String::new();
    push_blanks(&mut out, if column > 0 {
        column - 1
    } else {
        0
    });
    out.append("^");
    assert(out@ =~= caret(column as nat));
    out
}

/// Line `number` of the source with its margin.
fn source_line_segments(number: usize, content: &String) -> (line: Vec<Segment>)
    ensures
        line_view(line@) == source_line(number as nat, content@),
{
    let mut line: Vec<Segment> = Vec::new();
    line.push(Segment { text: gutter_text(number), style: Style::BlueBold });
    line.push(segment(" ", Style::Plain));
    line.push(Segment { text: content.clone(), style: Style::Plain });
    assert(line_view(line@) =~= source_line(number as nat, content@));
    line
}

/// The first line of a rendered diagnostic.
fn headline_segments(error: &ParseError) -> (line: Vec<Segment>)
    ensures
        line_view(line@) == headline(error@),
{
    let mut line: Vec<Segment> = Vec::new();
    line.push(segment("error", Style::RedBold));
    line.push(segment(": ", Style::Plain));
    line.push(segment(error.get_code(), Style::Yellow));
    line.push(segment(" ", Style::Plain));
    line.push(Segment { text: error.to_string(), style: Style::WhiteBold });
    assert(line_view(line@) =~= headline(error@));
    line
}

/// The line that names the place.
fn place_segments(span: Span) -> (line: Vec<Segment>)
    ensures
        line_view(line@) == place_line(span),
{
    let mut place = String::from_str(":");
    push_usize(&mut place, span.line);
    place.append(":");
    push_usize(&mut place, span.column);
    let mut line: Vec<Segment> = Vec::new();
    line.push(segment("-->", Style::BlueBold));
    line.push(segment(" ", Style::Plain));
    line.push(segment("input", Style::Cyan));
    line.push(Segment { text: place, style: Style::Plain });
    assert(line_view(line@) =~= place_line(span));
    line
}

/// The line with the mark under the failing column.
fn caret_segments(column: usize) -> (line: Vec<Segment>)
    ensures
        line_view(line@) == caret_line(column as nat),
{
    let mut line: Vec<Segment> = Vec::new();
    line.push(segment("    |", Style::BlueBold));
    line.push(segment(" ", Style::Plain));
    line.push(Segment { text: caret_text(column), style: Style::RedBold });
    assert(line_view(line@) =~= caret_line(column as nat));
    line
}

/// The empty margin.
fn margin_segments() -> (line: Vec<Segment>)
    ensures
        line_view(line@) == seq![piece("    |"@, Style::BlueBold)],
{
    let mut line: Vec<Segment> = Vec::new();
    line.push(segment("    |", Style::BlueBold));
    assert(line_view(line@) =~= seq![piece("    |"@, Style::BlueBold)]);
    line
}

/// The empty line.
fn empty_segments() -> (line: Vec<Segment>)
    ensures
        line_view(line@) == Seq::<SegmentView>::empty(),
{
    let line: Vec<Segment> = Vec::new();
    assert(line_view(line@) =~= Seq::<SegmentView>::empty());
    line
}

/// Appends `line` to `out`.
fn put(out: &mut Vec<Vec<Segment>>, line: Vec<Segment>)
    ensures
        lines_view(final(out)@) == lines_view(old(out)@).push(line_view(line@)),
{
    out.push(line);
    assert(lines_view(out@) =~= lines_view(old(out)@).push(line_view(line@)));
}

/// Appends to `out` the source around `span`, which points at a line of `lines`.
fn put_excerpt(out: &mut Vec<Vec<Segment>>, span: Span, lines: &Vec<String>)
    requires
        0 < span.line <= lines.len(),
    ensures
        lines_view(final(out)@) == lines_view(old(out)@) + excerpt(span, string_views(lines@)),
{
    let ghost start = lines_view(out@);
    let ghost text = string_views(lines@);
    put(out, place_segments(span));
    put(out, margin_segments());
    if span.line > 1 {
        put(out, source_line_segments(span.line - 1, &lines[span.line - 2]));
    }
    put(out, source_line_segments(span.line, &lines[span.line - 1]));
    put(out, caret_segments(span.column));
    if span.line < lines.len() {
        put(out, source_line_segments(span.line + 1, &lines[span.line]));
    }
    assert(lines_view(out@) =~= start + excerpt(span, text));
}

/// Appends to `out` the diagnostic `error`, rendered against `lines`.
fn put_rendered(out: &mut Vec<Vec<Segment>>, error: &ParseError, lines: &Vec<String>)
    ensures
        lines_view(final(out)@) == lines_view(old(out)@) + rendered(error@, string_views(lines@)),
{
    let ghost start = lines_view(out@);
    put(out, headline_segments(error));
    match error.get_span() {
        Some(span) => {
            if span.line > 0 && span.line <= lines.len() {
                put_excerpt(out, *span, lines);
            }
        },
        None => {},
    }
    put(out, empty_segments());
    assert(lines_view(out@) =~= start + rendered(error@, string_views(lines@)));
}

impl ParseError {
    /// The diagnostic rendered against the source it is about, line by line and piece by
    /// piece.
    pub fn with_context(&self, source: &str) -> (out: Vec<Vec<Segment>>)
        ensures
            lines_view(out@) == rendered(self@, lines_of(source@)),
    {
        let lines = split_lines(source);
        let mut out: Vec<Vec<Segment>> = Vec::new();
        assert(lines_view(out@) =~= Seq::empty());
        put_rendered(&mut out, self, &lines);
        assert(lines_view(out@) =~= rendered(self@, lines_of(source@)));
        out
    }
}

/// `error` or `errors`, as the count asks.
fn error_word_text(count: usize) -> (word: &'static str)
    ensures
        word@ == error_word(count as nat),
{
    if count == 1 {
        "error"
    } else {
        "errors"
    }
}

/// All of `errors` rendered against the source they are about, line by line and piece by
/// piece: nothing if there are none; else the count, each diagnostic, and the summary.
pub fn render_errors(errors: &[ParseError], source: &str) -> (out: Vec<Vec<Segment>>)
    ensures
        lines_view(out@) == report(error_views(errors@), lines_of(source@)),
{
    let mut out: Vec<Vec<Segment>> = Vec::new();
    assert(lines_view(out@) =~= Seq::empty());
    if errors.len() == 0 {
        proof {
            reveal(error_views);
        }
        return out;
    }
    let lines = split_lines(source);
    let count = errors.len();
    let mut found = String::from_str("Found ");
    push_usize(&mut found, count);
    found.append(" ");
    found.append(error_word_text(count));
    let mut first: Vec<Segment> = Vec::new();
    first.push(Segment { text: found, style: Style::RedBold });
    assert(line_view(first@) =~= found_line(count as nat));
    put(&mut out, empty_segments());
    put(&mut out, first);
    let ghost head = lines_view(out@);
    let ghost all = error_views(errors@);
    let ghost text = lines_of(source@);
    let mut i: usize = 0;
    proof {
        reveal(error_views);
        assert(head + Seq::<Seq<SegmentView>>::empty() =~= head);
    }
    while i < errors.len()
        invariant
            0 <= i <= errors.len(),
            all == error_views(errors@),
            all.len() == errors.len(),
            text == string_views(lines@),
            lines_view(out@) + rendered_from(all, text, i as int) == head + rendered_from(
                all,
                text,
                0,
            ),
        decreases errors.len() - i,
    {
        let ghost before = lines_view(out@);
        proof {
            reveal(error_views);
        }
        put_rendered(&mut out, &errors[i], &lines);
        proof {
            assert((before + rendered(all[i as int], text)) + rendered_from(all, text, i + 1)
                =~= before + (rendered(all[i as int], text) + rendered_from(all, text, i + 1)));
        }
        i += 1;
    }
    let mut aborting = String::from_str("aborting due to ");
    push_usize(&mut aborting, count);
    aborting.append(" ");
    aborting.append(error_word_text(count));
    let mut last: Vec<Segment> = Vec::new();
    last.push(segment("error", Style::RedBold));
    last.push(segment(": ", Style::Plain));
    last.push(Segment { text: aborting, style: Style::Bold });
    last.push(segment(" ", Style::Plain));
    last.push(segment("\u{1F61E}", Style::Yellow));
    assert(line_view(last@) =~= summary_line(count as nat));
    let ghost body = lines_view(out@);
    put(&mut out, last);
    put(&mut out, empty_segments());
    proof {
        assert(body + Seq::<Seq<SegmentView>>::empty() =~= body);
        assert(lines_view(out@) =~= report(all, text));
    }
    out
}

} // verus!
