use vstd::prelude::*;
use vstd::string::*;
use colored::Colorize;
use crate::text::{concat, concatenated, string_views};

verus! {

/// How a piece of text is to stand out on a terminal.
#[derive(Debug, Clone, Copy, PartialEq, Eq, Structural)]
pub enum Style {
    Plain,
    Bold,
    RedBold,
    Green,
    GreenBold,
    Yellow,
    YellowBold,
    BlueBold,
    Magenta,
    MagentaBold,
    Cyan,
    CyanItalic,
    WhiteBold,
}

/// A piece of a line of rendered text: a text in one style.
#[derive(Debug, PartialEq, Eq)]
pub struct Segment {
    pub text: String,
    pub style: Style,
}

/// A piece of a line with its text as a sequence of characters.
pub struct SegmentView {
    pub text: Seq<char>,
    pub style: Style,
}

impl View for Segment {
    type V = SegmentView;

    open spec fn view(&self) -> SegmentView {
        SegmentView { text: self.text@, style: self.style }
    }
}

impl Clone for Segment {
    fn clone(&self) -> (copy: Segment)
        ensures
            copy == *self,
    {
        Segment { text: self.text.clone(), style: self.style }
    }
}

/// The views of the pieces of a line, in order.
pub open spec fn line_view(line: Seq<Segment>) -> Seq<SegmentView> {
    Seq::new(line.len(), |i: int| line[i]@)
}

/// The views of lines, in order.
pub open spec fn lines_view(lines: Seq<Vec<Segment>>) -> Seq<Seq<SegmentView>> {
    Seq::new(lines.len(), |i: int| line_view(lines[i]@))
}

/// A piece of text in a style.
pub open spec fn piece(text: Seq<char>, style: Style) -> SegmentView {
    SegmentView { text, style }
}

/// The text of a line without its styles.
pub open spec fn plain(line: Seq<SegmentView>) -> Seq<char>
    decreases line.len(),
{
    if line.len() == 0 {
        Seq::empty()
    } else {
        plain(line.drop_last()) + line.last().text
    }
}

/// A piece of text in a style.
pub fn segment(text: &str, style: Style) -> (s: Segment)
    ensures
        s@ == piece(text@, style),
{
    Segment { text: String::from_str(text), style }
}

/// The text of a line without its styles.
pub fn plain_text(line: &Vec<Segment>) -> (out: String)
    ensures
        out@ == plain(line_view(line@)),
{
    let mut out = String::new();
    let mut i: usize = 0;
    while i < line.len()
        invariant
            0 <= i <= line.len(),
            out@ == plain(line_view(line@).take(i as int)),
        decreases line.len() - i,
    {
        proof {
            assert(line_view(line@).take(i + 1).drop_last() =~= line_view(line@).take(i as int));
        }
        out.append(line[i].text.as_str());
        i += 1;
    }
    proof {
        assert(line_view(line@).take(line.len() as int) =~= line_view(line@));
    }
    out
}

/// Whether `painted` holds the characters of `text` in their order, with others before,
/// between or behind them or with none: whether `text` is what is left of `painted` when
/// some of its characters are taken away.
pub open spec fn embedded(text: Seq<char>, painted: Seq<char>) -> bool
    decreases painted.len(),
{
    if text.len() == 0 {
        true
    } else if painted.len() == 0 {
        false
    } else if text.last() == painted.last() {
        embedded(text.drop_last(), painted.drop_last())
    } else {
        embedded(text, painted.drop_last())
    }
}

/// A text is embedded in itself.
pub proof fn lemma_embedded_in_itself(text: Seq<char>)
    ensures
        embedded(text, text),
    decreases text.len(),
{
    if text.len() > 0 {
        lemma_embedded_in_itself(text.drop_last());
    }
}

/// What a text is embedded in is no shorter than the text.
pub proof fn lemma_embedded_is_no_longer(text: Seq<char>, painted: Seq<char>)
    requires
        embedded(text, painted),
    ensures
        text.len() <= painted.len(),
    decreases painted.len(),
{
    if text.len() > 0 {
        if text.last() == painted.last() {
            lemma_embedded_is_no_longer(text.drop_last(), painted.drop_last());
        } else {
            lemma_embedded_is_no_longer(text, painted.drop_last());
        }
    }
}

/// A text without its last character is embedded in what the text is embedded in.
proof fn lemma_embedded_shorter(text: Seq<char>, painted: Seq<char>)
    requires
        embedded(text, painted),
        text.len() > 0,
    ensures
        embedded(text.drop_last(), painted),
    decreases painted.len(),
{
    let rest = text.drop_last();
    let shorter = painted.drop_last();
    if rest.len() > 0 {
        if text.last() == painted.last() {
            if rest.last() == painted.last() {
                lemma_embedded_shorter(rest, shorter);
            }
        } else {
            lemma_embedded_shorter(text, shorter);
            if rest.last() == painted.last() {
                lemma_embedded_shorter(rest, shorter);
            }
        }
    }
}

/// A text stays embedded where a character is put behind what it is embedded in.
proof fn lemma_embedded_longer(text: Seq<char>, painted: Seq<char>, behind: char)
    requires
        embedded(text, painted),
    ensures
        embedded(text, painted.push(behind)),
{
    assert(painted.push(behind).drop_last() =~= painted);
    if text.len() > 0 && text.last() == behind {
        lemma_embedded_shorter(text, painted);
    }
}

/// Two texts one after the other are embedded in what they are embedded in, one after the
/// other.
pub proof fn lemma_embedded_side_by_side(
    first: Seq<char>,
    painted_first: Seq<char>,
    second: Seq<char>,
    painted_second: Seq<char>,
)
    requires
        embedded(first, painted_first),
        embedded(second, painted_second),
    ensures
        embedded(first + second, painted_first + painted_second),
    decreases painted_second.len(),
{
    if painted_second.len() == 0 {
        assert(first + second =~= first);
        assert(painted_first + painted_second =~= painted_first);
    } else {
        let shorter = painted_second.drop_last();
        let last = painted_second.last();
        assert((painted_first + shorter).push(last) =~= painted_first + painted_second);
        if second.len() > 0 && second.last() == last {
            lemma_embedded_side_by_side(first, painted_first, second.drop_last(), shorter);
            assert((first + second).drop_last() =~= first + second.drop_last());
            assert((painted_first + painted_second).drop_last() =~= painted_first + shorter);
        } else {
            lemma_embedded_side_by_side(first, painted_first, second, shorter);
            lemma_embedded_longer(first + second, painted_first + shorter, last);
        }
    }
}

/// `Colorize::red` and `Colorize::bold` of `colored` mark the text as red and bold, and
/// turning the marked text into a string puts the terminal's escape sequences around it
/// where the environment has colours switched on, and gives the text alone where it has
/// not. Either way the string holds the characters of the text in their order: colours
/// only put escape sequences before, into and behind the text.
#[verifier::external_body]
fn red_bold(text: &str) -> (painted: String)
    ensures
        embedded(text@, painted@),
        text@.len() <= painted@.len(),
{
    text.red().bold().to_string()
}

/// `Colorize::yellow` of `colored`, turned into a string; see `red_bold`: the
/// string holds the characters of the text in their order.
#[verifier::external_body]
fn yellow(text: &str) -> (painted: String)
    ensures
        embedded(text@, painted@),
        text@.len() <= painted@.len(),
{
    text.yellow().to_string()
}

/// `Colorize::white` and `Colorize::bold` of `colored`, turned into a string; see
/// `red_bold`: the string holds the characters of the text in their order.
#[verifier::external_body]
fn white_bold(text: &str) -> (painted: String)
    ensures
        embedded(text@, painted@),
        text@.len() <= painted@.len(),
{
    text.white().bold().to_string()
}

/// `Colorize::blue` and `Colorize::bold` of `colored`, turned into a string; see
/// `red_bold`: the string holds the characters of the text in their order.
#[verifier::external_body]
fn blue_bold(text: &str) -> (painted: String)
    ensures
        embedded(text@, painted@),
        text@.len() <= painted@.len(),
{
    text.blue().bold().to_string()
}

/// `Colorize::cyan` of `colored`, turned into a string; see `red_bold`: the string
/// holds the characters of the text in their order.
#[verifier::external_body]
fn cyan(text: &str) -> (painted: String)
    ensures
        embedded(text@, painted@),
        text@.len() <= painted@.len(),
{
    text.cyan().to_string()
}

/// `Colorize::bold` of `colored`, turned into a string; see `red_bold`: the string
/// holds the characters of the text in their order.
#[verifier::external_body]
fn bold(text: &str) -> (painted: String)
    ensures
        embedded(text@, painted@),
        text@.len() <= painted@.len(),
{
    text.bold().to_string()
}

/// `Colorize::green` of `colored`, turned into a string; see `red_bold`: the string
/// holds the characters of the text in their order.
#[verifier::external_body]
fn green(text: &str) -> (painted: String)
    ensures
        embedded(text@, painted@),
        text@.len() <= painted@.len(),
{
    text.green().to_string()
}

/// `Colorize::green` and `Colorize::bold` of `colored`, turned into a string; see
/// `red_bold`: the string holds the characters of the text in their order.
#[verifier::external_body]
fn green_bold(text: &str) -> (painted: String)
    ensures
        embedded(text@, painted@),
        text@.len() <= painted@.len(),
{
    text.green().bold().to_string()
}

/// `Colorize::yellow` and `Colorize::bold` of `colored`, turned into a string; see
/// `red_bold`: the string holds the characters of the text in their order.
#[verifier::external_body]
fn yellow_bold(text: &str) -> (painted: String)
    ensures
        embedded(text@, painted@),
        text@.len() <= painted@.len(),
{
    text.yellow().bold().to_string()
}

/// `Colorize::magenta` of `colored`, turned into a string; see `red_bold`: the
/// string holds the characters of the text in their order.
#[verifier::external_body]
fn magenta(text: &str) -> (painted: String)
    ensures
        embedded(text@, painted@),
        text@.len() <= painted@.len(),
{
    text.magenta().to_string()
}

/// `Colorize::magenta` and `Colorize::bold` of `colored`, turned into a string; see
/// `red_bold`: the string holds the characters of the text in their order.
#[verifier::external_body]
fn magenta_bold(text: &str) -> (painted: String)
    ensures
        embedded(text@, painted@),
        text@.len() <= painted@.len(),
{
    text.magenta().bold().to_string()
}

/// `Colorize::cyan` and `Colorize::italic` of `colored`, turned into a string; see
/// `red_bold`: the string holds the characters of the text in their order.
#[verifier::external_body]
fn cyan_italic(text: &str) -> (painted: String)
    ensures
        embedded(text@, painted@),
        text@.len() <= painted@.len(),
{
    text.cyan().italic().to_string()
}

/// Whether every piece of the line is in the plain style.
pub open spec fn is_plain(line: Seq<SegmentView>) -> bool {
    forall|i: int| 0 <= i < line.len() ==> (#[trigger] line[i]).style == Style::Plain
}

/// The text of a line whose pieces have been painted: the painted pieces one after
/// another.
pub fn assemble(pieces: &Vec<String>) -> (out: String)
    ensures
        out@ == concatenated(string_views(pieces@)),
{
    concat(pieces)
}

/// A piece of a line as it is sent to a terminal. A plain piece is its text. A piece in
/// another style holds its text, with nothing taken away; whether escape sequences stand
/// around it is for the terminal colours of the environment to say.
pub fn paint(segment: &Segment) -> (painted: String)
    ensures
        segment.style == Style::Plain ==> painted@ == segment.text@,
        embedded(segment.text@, painted@),
        segment.text@.len() <= painted@.len(),
{
    proof {
        lemma_embedded_in_itself(segment.text@);
    }
    match segment.style {
        Style::Plain => segment.text.clone(),
        Style::Bold => bold(segment.text.as_str()),
        Style::RedBold => red_bold(segment.text.as_str()),
        Style::Green => green(segment.text.as_str()),
        Style::GreenBold => green_bold(segment.text.as_str()),
        Style::Yellow => yellow(segment.text.as_str()),
        Style::YellowBold => yellow_bold(segment.text.as_str()),
        Style::BlueBold => blue_bold(segment.text.as_str()),
        Style::Magenta => magenta(segment.text.as_str()),
        Style::MagentaBold => magenta_bold(segment.text.as_str()),
        Style::Cyan => cyan(segment.text.as_str()),
        Style::CyanItalic => cyan_italic(segment.text.as_str()),
        Style::WhiteBold => white_bold(segment.text.as_str()),
    }
}

/// Plain pieces put one after another are the plain text of their line.
proof fn lemma_plain_pieces(line: Seq<SegmentView>, pieces: Seq<Seq<char>>)
    requires
        pieces.len() == line.len(),
        forall|i: int| 0 <= i < line.len() ==> #[trigger] pieces[i] == line[i].text,
    ensures
        concatenated(pieces) == plain(line),
    decreases line.len(),
{
    if line.len() > 0 {
        lemma_plain_pieces(line.drop_last(), pieces.drop_last());
    }
}

/// The texts of pieces put one after another are embedded in what the painted pieces put
/// one after another are.
proof fn lemma_embedded_pieces(line: Seq<SegmentView>, pieces: Seq<Seq<char>>)
    requires
        pieces.len() == line.len(),
        forall|i: int| 0 <= i < line.len() ==> embedded(line[i].text, #[trigger] pieces[i]),
    ensures
        embedded(plain(line), concatenated(pieces)),
    decreases line.len(),
{
    if line.len() > 0 {
        lemma_embedded_pieces(line.drop_last(), pieces.drop_last());
        lemma_embedded_side_by_side(
            plain(line.drop_last()),
            concatenated(pieces.drop_last()),
            line.last().text,
            pieces.last(),
        );
    }
}

/// A line as it is sent to a terminal: its pieces painted, one after another. The line
/// holds the text of its pieces, with nothing taken away, and a line of plain pieces is its
/// text.
pub fn paint_line(line: &Vec<Segment>) -> (out: String)
    ensures
        is_plain(line_view(line@)) ==> out@ == plain(line_view(line@)),
        embedded(plain(line_view(line@)), out@),
        plain(line_view(line@)).len() <= out@.len(),
{
    let mut pieces: Vec<String> = Vec::new();
    let mut i: usize = 0;
    while i < line.len()
        invariant
            0 <= i <= line.len(),
            pieces.len() == i,
            forall|j: int|
                0 <= j < i && line[j].style == Style::Plain ==> #[trigger] pieces[j]@
                    == line[j].text@,
            forall|j: int| 0 <= j < i ==> embedded(line[j].text@, #[trigger] pieces[j]@),
        decreases line.len() - i,
    {
        pieces.push(paint(&line[i]));
        i += 1;
    }
    proof {
        if is_plain(line_view(line@)) {
            assert forall|j: int| 0 <= j < line.len() implies #[trigger] string_views(
                pieces@,
            )[j] == line_view(line@)[j].text by {
                assert(line_view(line@)[j].style == Style::Plain);
            }
            lemma_plain_pieces(line_view(line@), string_views(pieces@));
        }
        assert forall|j: int| 0 <= j < line.len() implies embedded(
            line_view(line@)[j].text,
            #[trigger] string_views(pieces@)[j],
        ) by {
            assert(embedded(line[j].text@, pieces[j]@));
        }
        lemma_embedded_pieces(line_view(line@), string_views(pieces@));
        lemma_embedded_is_no_longer(
            plain(line_view(line@)),
            concatenated(string_views(pieces@)),
        );
    }
    assemble(&pieces)
}

/// Rendered lines as they are sent to a terminal, one string for each line. Each string
/// holds the text of its line, with nothing taken away, and the string of a line of plain
/// pieces is the text of the line.
pub fn paint_lines(lines: &Vec<Vec<Segment>>) -> (out: Vec<String>)
    ensures
        out.len() == lines.len(),
        forall|i: int|
            0 <= i < lines.len() && is_plain(line_view(lines[i]@)) ==> (#[trigger] out[i])@
                == plain(line_view(lines[i]@)),
        forall|i: int|
            0 <= i < lines.len() ==> embedded(plain(line_view(lines[i]@)), (#[trigger] out[i])@),
        forall|i: int|
            0 <= i < lines.len() ==> plain(line_view(lines[i]@)).len() <= (#[trigger] out[i])@.len(),
{
    let mut out: Vec<String> = Vec::new();
    let mut i: usize = 0;
    while i < lines.len()
        invariant
            0 <= i <= lines.len(),
            out.len() == i,
            forall|j: int|
                0 <= j < i && is_plain(line_view(lines[j]@)) ==> (#[trigger] out[j])@ == plain(
                    line_view(lines[j]@),
                ),
            forall|j: int|
                0 <= j < i ==> embedded(plain(line_view(lines[j]@)), (#[trigger] out[j])@),
            forall|j: int|
                0 <= j < i ==> plain(line_view(lines[j]@)).len() <= (#[trigger] out[j])@.len(),
        decreases lines.len() - i,
    {
        out.push(paint_line(&lines[i]));
        i += 1;
    }
    out
}


} // verus!
