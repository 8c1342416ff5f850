//! Resolving the render mode from the text received so far.
//!
//! The mode is computed from the whole text on every call and from nothing
//! else: no state is kept between calls. Inside a fenced block the language is
//! read off the block's first line, which is the rest of the line that holds
//! the opening fence.

use vstd::prelude::*;
use crate::delimiter::{
    count_lone_ticks_in,
    inside_emphasis,
    inside_fence,
    last_fence_end,
    scan_fences_in,
};
use crate::language::{Catalog, Language};
use crate::text::{characters, first_line, first_line_of, last_line, tail_of};

verus! {

/// How the next text is to be shown.
#[derive(Clone, Debug, PartialEq, Eq)]
pub enum RenderMode {
    /// As it is.
    Normal,
    /// Emphasised: the text ends inside a span opened by a lone backtick.
    Bold,
    /// As code of the given language: the text ends inside a fenced block.
    CodeBlock(Language),
}

/// A render mode as contracts see it, the language by its name.
pub enum Mode {
    Normal,
    Bold,
    CodeBlock(Seq<char>),
}

impl View for RenderMode {
    type V = Mode;

    open spec fn view(&self) -> Mode {
        match self {
            RenderMode::Normal => Mode::Normal,
            RenderMode::Bold => Mode::Bold,
            RenderMode::CodeBlock(language) => Mode::CodeBlock(language@),
        }
    }
}

/// What stands behind the last fence of `s`; all of `s` where it has no fence.
/// Where `s` ends inside a fenced block, this is the block so far.
pub open spec fn fence_body(s: Seq<char>) -> Seq<char> {
    s.skip(last_fence_end(s))
}

/// The line that names the language of the block that `s` ends in: the first
/// line behind the last fence.
pub open spec fn fence_hint(s: Seq<char>) -> Seq<char> {
    first_line(fence_body(s))
}

/// The line that `s` ends with, as far as it lies behind the last fence.
pub open spec fn current_line(s: Seq<char>) -> Seq<char> {
    last_line(fence_body(s))
}

/// The render mode after the text `s`, with the grammars of `catalog`.
pub open spec fn mode_of(catalog: Catalog, s: Seq<char>) -> Mode {
    if inside_fence(s) {
        Mode::CodeBlock(catalog.language_of(fence_hint(s)))
    } else if inside_emphasis(s) {
        Mode::Bold
    } else {
        Mode::Normal
    }
}

/// Resolves the render mode after `text`.
///
/// With an odd number of fences the mode is `CodeBlock`, and its language is
/// the one that the first line behind the last fence selects in `catalog`.
/// Otherwise, with an odd number of lone backticks, it is `Bold`. Otherwise
/// it is `Normal`.
pub fn resolve_mode(catalog: &Catalog, text: &str) -> (mode: RenderMode)
    ensures
        mode@ == mode_of(*catalog, text@),
{
    let chars = characters(text);
    let scan = scan_fences_in(&chars);
    if scan.is_open() {
        let hint = first_line_of(tail_of(text, scan.end));
        RenderMode::CodeBlock(catalog.language_for(hint))
    } else if count_lone_ticks_in(&chars) % 2 == 1 {
        RenderMode::Bold
    } else {
        RenderMode::Normal
    }
}

} // verus!
