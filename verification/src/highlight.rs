//! Colouring one line of code.
//!
//! Syntect cuts the line into pieces and gives each a style. The pieces are
//! taken only if, put together, they are the line again; otherwise, and where
//! syntect reports an error or does not know the grammar or the theme, the
//! line is kept as it is, without any colour. Either way the result covers
//! exactly the line that came in.

use vstd::prelude::*;
use vstd::string::StringExecFns;
use syntect::easy::HighlightLines;
use syntect::highlighting::ThemeSet;
use syntect::parsing::SyntaxSet;
use syntect::util::as_24_bit_terminal_escaped;
use crate::language::{Catalog, Language};

verus! {

/// The control sequence that ends all styling.
pub const RESET: &'static str = "\x1b[0m";

/// A colour: red, green, blue, and how opaque it is.
#[derive(Clone, Copy, Debug, PartialEq, Eq)]
pub struct Color {
    pub r: u8,
    pub g: u8,
    pub b: u8,
    pub a: u8,
}

/// A piece of a line, with the colours it is to be shown in.
#[derive(Debug, PartialEq, Eq)]
pub struct Span {
    /// The colour of the text.
    pub foreground: Color,
    /// The colour behind the text.
    pub background: Color,
    /// The text.
    pub text: String,
}

/// A piece of a line as contracts see it.
pub struct SpanView {
    pub foreground: Color,
    pub background: Color,
    pub text: Seq<char>,
}

impl View for Span {
    type V = SpanView;

    open spec fn view(&self) -> SpanView {
        SpanView { foreground: self.foreground, background: self.background, text: self.text@ }
    }
}

/// The pieces `spans` as contracts see them.
pub open spec fn span_views(spans: Seq<Span>) -> Seq<SpanView> {
    Seq::new(spans.len(), |i: int| spans[i]@)
}

/// The outcome of a call for pieces as contracts see it.
pub open spec fn outcome_view(outcome: Option<Vec<Span>>) -> Option<Seq<SpanView>> {
    match outcome {
        Some(spans) => Some(span_views(spans@)),
        None => None,
    }
}

/// The texts of `spans`, one behind the other.
pub open spec fn spans_text(spans: Seq<SpanView>) -> Seq<char>
    decreases spans.len(),
{
    if spans.len() == 0 {
        Seq::empty()
    } else {
        spans_text(spans.drop_last()) + spans.last().text
    }
}

/// The pieces, with their colours, into which syntect cuts `line` under the
/// grammar named `grammar` of `set` and the theme named `theme` of `themes`, a
/// line that stands at the start of a text; `None` where one of the two names
/// is unknown or syntect reports an error.
pub uninterp spec fn styled_pieces(
    set: SyntaxSet,
    themes: ThemeSet,
    theme: Seq<char>,
    grammar: Seq<char>,
    line: Seq<char>,
) -> Option<Seq<SpanView>>;

/// The start of the control sequence that sets the colour of the text.
pub const COLOR_START: &'static str = "\x1b[38;2;";

/// What stands between the numbers of a control sequence.
pub const COLOR_SEPARATOR: &'static str = ";";

/// The end of the control sequence that sets the colour of the text.
pub const COLOR_END: &'static str = "m";

/// The digit for `d`, a number below ten.
pub open spec fn digit(d: nat) -> char {
    (('0' as u32) + d) as char
}

/// `n` in decimal digits, without leading zeros.
pub open spec fn decimal(n: nat) -> Seq<char>
    decreases n,
{
    if n < 10 {
        seq![digit(n)]
    } else {
        decimal(n / 10).push(digit(n % 10))
    }
}

/// One component of a colour as it is shown: the component `front` of the
/// text's colour, mixed with the component `back` of the colour behind it as
/// far as `alpha`, the opacity of the text's colour, lets it through.
pub open spec fn blend(front: u8, back: u8, alpha: u8) -> nat {
    ((front * alpha + back * (255 - alpha)) / 255) as nat
}

/// The control sequence that sets the colour of a text whose colour is
/// `foreground`, over `background`.
pub open spec fn color_code(foreground: Color, background: Color) -> Seq<char> {
    COLOR_START@ + decimal(blend(foreground.r, background.r, foreground.a)) + COLOR_SEPARATOR@
        + decimal(blend(foreground.g, background.g, foreground.a)) + COLOR_SEPARATOR@ + decimal(
        blend(foreground.b, background.b, foreground.a),
    ) + COLOR_END@
}

/// The pieces `spans` for a terminal: each text behind the control sequence
/// that sets its colour. Nothing ends the last colour.
pub open spec fn terminal_escaped(spans: Seq<SpanView>) -> Seq<char>
    decreases spans.len(),
{
    if spans.len() == 0 {
        Seq::empty()
    } else {
        terminal_escaped(spans.drop_last()) + color_code(
            spans.last().foreground,
            spans.last().background,
        ) + spans.last().text
    }
}

/// A line after highlighting.
#[derive(Debug, PartialEq, Eq)]
pub enum HighlightedLine {
    /// The line in coloured pieces.
    Styled(Vec<Span>),
    /// The line as it came in.
    Plain(String),
}

/// A highlighted line as contracts see it.
pub enum LineView {
    Styled(Seq<SpanView>),
    Plain(Seq<char>),
}

impl LineView {
    /// The text that the line covers.
    pub open spec fn text(self) -> Seq<char> {
        match self {
            LineView::Styled(spans) => spans_text(spans),
            LineView::Plain(text) => text,
        }
    }

    /// What is written to a terminal to show the line: the coloured pieces
    /// and behind them the sequence that ends all styling, or the bare text.
    pub open spec fn terminal(self) -> Seq<char> {
        match self {
            LineView::Styled(spans) => terminal_escaped(spans) + RESET@,
            LineView::Plain(text) => text,
        }
    }
}

impl View for HighlightedLine {
    type V = LineView;

    open spec fn view(&self) -> LineView {
        match self {
            HighlightedLine::Styled(spans) => LineView::Styled(span_views(spans@)),
            HighlightedLine::Plain(text) => LineView::Plain(text@),
        }
    }
}

/// What highlighting makes of `line` when the call for pieces ended in
/// `outcome`: the pieces where they are the line again, else the line as it is.
pub open spec fn settled_line(line: Seq<char>, outcome: Option<Seq<SpanView>>) -> LineView {
    match outcome {
        Some(spans) => if spans_text(spans) == line {
            LineView::Styled(spans)
        } else {
            LineView::Plain(line)
        },
        None => LineView::Plain(line),
    }
}

impl Catalog {
    /// The pieces that syntect makes of `line` under `language` with this
    /// catalogue's grammars and theme.
    pub closed spec fn styled(&self, language: Seq<char>, line: Seq<char>) -> Option<
        Seq<SpanView>,
    > {
        styled_pieces(self.syntaxes, self.themes, self.theme@, language, line)
    }

    /// The highlighted form of `line` under `language`.
    pub open spec fn highlighted(&self, language: Seq<char>, line: Seq<char>) -> LineView {
        settled_line(line, self.styled(language, line))
    }
}

/// Highlights `line` with syntect: `SyntaxSet::find_syntax_by_name` for the
/// grammar, the theme set's map for the theme, then `HighlightLines::new` and
/// `HighlightLines::highlight_line` on a highlighter that has seen no line
/// before. Each piece is handed back with its colours and text; `None` stands
/// for an unknown grammar or theme and for syntect's error. The contract only
/// names the outcome: it is a function of the arguments.
#[verifier::external_body]
pub(crate) fn style_line(
    set: &SyntaxSet,
    themes: &ThemeSet,
    theme: &str,
    grammar: &str,
    line: &str,
) -> (outcome: Option<Vec<Span>>)
    ensures
        outcome_view(outcome) == styled_pieces(*set, *themes, theme@, grammar@, line@),
{
    let syntax = set.find_syntax_by_name(grammar)?;
    let theme = themes.themes.get(theme)?;
    let pieces = HighlightLines::new(syntax, theme).highlight_line(line, set).ok()?;
    Some(pieces.into_iter().map(|(style, text)| {
        let (f, b) = (style.foreground, style.background);
        Span {
            foreground: Color { r: f.r, g: f.g, b: f.b, a: f.a },
            background: Color { r: b.r, g: b.g, b: b.b, a: b.a },
            text: text.to_owned(),
        }
    }).collect())
}

/// Calls syntect's `as_24_bit_terminal_escaped` on `spans`, without asking for
/// the background to be set. The contract restates what that function writes
/// for each piece: the escape character, `[38;2;`, the red, green and blue of
/// the text's colour in decimal with `;` between them, `m`, and the text. A
/// colour that is not opaque is first mixed with the one behind it.
#[verifier::external_body]
pub(crate) fn escape_spans(spans: &Vec<Span>) -> (out: String)
    ensures
        out@ == terminal_escaped(span_views(spans@)),
{
    let styled: Vec<(syntect::highlighting::Style, &str)> = spans.iter().map(|span| {
        let (f, b) = (span.foreground, span.background);
        let style = syntect::highlighting::Style {
            foreground: syntect::highlighting::Color { r: f.r, g: f.g, b: f.b, a: f.a },
            background: syntect::highlighting::Color { r: b.r, g: b.g, b: b.b, a: b.a },
            font_style: syntect::highlighting::FontStyle::empty(),
        };
        (style, span.text.as_str())
    }).collect();
    as_24_bit_terminal_escaped(&styled[..], false)
}

/// The texts of `spans`, one behind the other.
pub fn join_spans(spans: &Vec<Span>) -> (joined: String)
    ensures
        joined@ == spans_text(span_views(spans@)),
{
    let mut joined = String::new();
    let mut i: usize = 0;
    while i < spans.len()
        invariant
            i <= spans@.len(),
            joined@ == spans_text(span_views(spans@.take(i as int))),
        decreases spans@.len() - i,
    {
        proof {
            let next = span_views(spans@.take(i + 1));
            assert(next.drop_last() =~= span_views(spans@.take(i as int)));
            assert(next.last() == spans@[i as int]@);
        }
        joined.append(spans[i].text.as_str());
        i = i + 1;
    }
    assert(spans@.take(spans@.len() as int) =~= spans@);
    joined
}

/// Decides what highlighting makes of `line` when the call for pieces ended
/// in `outcome`: the pieces are kept where they are the line again, else the
/// line is kept as it is.
pub fn settle_line(line: &str, outcome: Option<Vec<Span>>) -> (out: HighlightedLine)
    ensures
        out@ == settled_line(line@, outcome_view(outcome)),
        out@.text() == line@,
{
    match outcome {
        Some(spans) => {
            let joined = join_spans(&spans);
            if joined == line.to_owned() {
                HighlightedLine::Styled(spans)
            } else {
                HighlightedLine::Plain(line.to_owned())
            }
        },
        None => HighlightedLine::Plain(line.to_owned()),
    }
}

/// Highlights `line` as a line of `language`. The result covers exactly
/// `line`, and it depends on nothing but the catalogue, the language and the
/// line.
pub fn highlight_line(catalog: &Catalog, language: &Language, line: &str) -> (out: HighlightedLine)
    ensures
        out@ == catalog.highlighted(language@, line@),
        out@.text() == line@,
{
    let outcome = style_line(
        &catalog.syntaxes,
        &catalog.themes,
        catalog.theme.as_str(),
        language.name(),
        line,
    );
    settle_line(line, outcome)
}

/// Highlighting the same line twice under the same language gives the same
/// line both times, and the same characters for the terminal.
pub proof fn lemma_highlight_repeats(
    catalog: Catalog,
    language: Seq<char>,
    line: Seq<char>,
    first: LineView,
    second: LineView,
)
    requires
        first == catalog.highlighted(language, line),
        second == catalog.highlighted(language, line),
    ensures
        first == second,
        first.terminal() == second.terminal(),
        first.text() == line,
{
}

impl HighlightedLine {
    /// What is written to a terminal to show the line.
    pub fn to_terminal(&self) -> (out: String)
        ensures
            out@ == self@.terminal(),
    {
        match self {
            HighlightedLine::Styled(spans) => {
                let mut out = escape_spans(spans);
                out.append(RESET);
                out
            },
            HighlightedLine::Plain(text) => text.clone(),
        }
    }
}

} // verus!
