//! Deciding what to write for a fragment that has just arrived.
//!
//! Nothing is printed here: the caller gets the instruction, or the characters
//! that carry it out on a terminal, and does the writing and flushing.

use vstd::prelude::*;
use vstd::string::StringExecFns;
use crate::delimiter::scan_fences;
use crate::highlight::{highlight_line, HighlightedLine, LineView, RESET};
use crate::language::Catalog;
use crate::mode::{current_line, mode_of, resolve_mode, Mode, RenderMode};
use crate::text::{last_line_of, tail_of};

verus! {

/// The control sequence that switches emphasis on.
pub const BOLD_ON: &'static str = "\x1b[1m";

/// The control that takes the cursor back to the start of the line.
pub const LINE_RETURN: &'static str = "\r";

/// What the caller is to do with the terminal.
#[derive(Debug, PartialEq, Eq)]
pub enum Output {
    /// Write the text as it is.
    Plain(String),
    /// Write the text emphasised.
    Emphasis(String),
    /// Go back to the start of the line and write this line in its place.
    Redraw(HighlightedLine),
}

/// An instruction as contracts see it.
pub enum OutputView {
    Plain(Seq<char>),
    Emphasis(Seq<char>),
    Redraw(LineView),
}

impl OutputView {
    /// The characters that carry the instruction out on a terminal.
    pub open spec fn terminal(self) -> Seq<char> {
        match self {
            OutputView::Plain(text) => text,
            OutputView::Emphasis(text) => BOLD_ON@ + text + RESET@,
            OutputView::Redraw(line) => LINE_RETURN@ + line.terminal(),
        }
    }
}

impl View for Output {
    type V = OutputView;

    open spec fn view(&self) -> OutputView {
        match self {
            Output::Plain(text) => OutputView::Plain(text@),
            Output::Emphasis(text) => OutputView::Emphasis(text@),
            Output::Redraw(line) => OutputView::Redraw(line@),
        }
    }
}

/// The instruction for `fragment`, the newest part of `text`, in `mode`.
pub open spec fn composed(
    catalog: Catalog,
    mode: Mode,
    text: Seq<char>,
    fragment: Seq<char>,
) -> OutputView {
    match mode {
        Mode::Normal => OutputView::Plain(fragment),
        Mode::Bold => OutputView::Emphasis(fragment),
        Mode::CodeBlock(language) => OutputView::Redraw(
            catalog.highlighted(language, current_line(text)),
        ),
    }
}

/// What is written for `fragment` once it has been added to a text that then
/// reads `text`.
pub open spec fn rendered(catalog: Catalog, text: Seq<char>, fragment: Seq<char>) -> Seq<char> {
    composed(catalog, mode_of(catalog, text), text, fragment).terminal()
}

impl Output {
    /// The characters that carry the instruction out on a terminal.
    pub fn to_terminal(&self) -> (out: String)
        ensures
            out@ == self@.terminal(),
    {
        match self {
            Output::Plain(text) => text.clone(),
            Output::Emphasis(text) => {
                let mut out = BOLD_ON.to_owned();
                out.append(text.as_str());
                out.append(RESET);
                out
            },
            Output::Redraw(line) => {
                let mut out = LINE_RETURN.to_owned();
                out.append(line.to_terminal().as_str());
                out
            },
        }
    }
}

/// The instruction for `fragment` in `mode`, where `text` is the text received
/// so far, `fragment` included.
///
/// In a code block the fragment itself is not written: the line that the text
/// ends with is highlighted anew, from its start, and drawn over what was
/// shown of it before.
pub fn compose(catalog: &Catalog, mode: &RenderMode, text: &str, fragment: &str) -> (out: Output)
    ensures
        out@ == composed(*catalog, mode@, text@, fragment@),
{
    match mode {
        RenderMode::Normal => Output::Plain(fragment.to_owned()),
        RenderMode::Bold => Output::Emphasis(fragment.to_owned()),
        RenderMode::CodeBlock(language) => {
            let scan = scan_fences(text);
            let line = last_line_of(tail_of(text, scan.end));
            Output::Redraw(highlight_line(catalog, language, line))
        },
    }
}

/// The characters to write for `fragment` in `mode`, where `text` is the text
/// received so far, `fragment` included.
pub fn render(catalog: &Catalog, mode: &RenderMode, text: &str, fragment: &str) -> (out: String)
    ensures
        out@ == composed(*catalog, mode@, text@, fragment@).terminal(),
{
    compose(catalog, mode, text, fragment).to_terminal()
}

/// Takes in `fragment`: adds it to `text`, resolves the mode of the text as it
/// then stands, and hands back the characters to write.
pub fn render_fragment(catalog: &Catalog, text: &mut String, fragment: &str) -> (out: String)
    ensures
        final(text)@ == old(text)@ + fragment@,
        out@ == rendered(*catalog, final(text)@, fragment@),
{
    text.append(fragment);
    let mode = resolve_mode(catalog, text.as_str());
    render(catalog, &mode, text.as_str(), fragment)
}

} // verus!
