//! What holds of the mode while a text arrives in fragments.

use vstd::prelude::*;
use crate::delimiter::{
    fence_count,
    fence_token,
    inside_fence,
    last_fence_end,
    lemma_fence_toggles,
    lemma_fences_apart,
    lemma_last_fence_stays,
    lemma_no_backtick,
    tick_at,
};
use crate::language::Catalog;
use crate::mode::{fence_body, fence_hint, mode_of, Mode};
use crate::text::first_line;

verus! {

/// The text that stands in the caller's buffer once `fragments` have arrived
/// one after another, each added at the end of what was there.
pub open spec fn accumulated(fragments: Seq<Seq<char>>) -> Seq<char>
    decreases fragments.len(),
{
    if fragments.len() == 0 {
        Seq::empty()
    } else {
        accumulated(fragments.drop_last()) + fragments.last()
    }
}

/// Fragments accumulate to the text that they are cut from.
pub proof fn lemma_accumulated_is_whole(fragments: Seq<Seq<char>>)
    ensures
        accumulated(fragments) == fragments.flatten(),
    decreases fragments.len(),
{
    if fragments.len() == 0 {
    } else {
        let front = fragments.drop_last();
        lemma_accumulated_is_whole(front);
        front.lemma_flatten_push(fragments.last());
        assert(front.push(fragments.last()) =~= fragments);
    }
}

/// The mode does not depend on how the text was cut into fragments: however
/// `text` is split, once its fragments have arrived the mode is that of `text`.
pub proof fn lemma_chunk_invariance(catalog: Catalog, text: Seq<char>, fragments: Seq<Seq<char>>)
    requires
        fragments.flatten() == text,
    ensures
        accumulated(fragments) == text,
        mode_of(catalog, accumulated(fragments)) == mode_of(catalog, text),
{
    lemma_accumulated_is_whole(fragments);
}

/// Two ways of cutting the same text into fragments end in the same mode.
pub proof fn lemma_splits_agree(catalog: Catalog, one: Seq<Seq<char>>, other: Seq<Seq<char>>)
    requires
        one.flatten() == other.flatten(),
    ensures
        mode_of(catalog, accumulated(one)) == mode_of(catalog, accumulated(other)),
{
    lemma_accumulated_is_whole(one);
    lemma_accumulated_is_whole(other);
}

/// An empty fragment changes neither the text nor the mode.
pub proof fn lemma_empty_fragment(catalog: Catalog, fragments: Seq<Seq<char>>)
    ensures
        accumulated(fragments.push(Seq::empty())) == accumulated(fragments),
        mode_of(catalog, accumulated(fragments.push(Seq::empty()))) == mode_of(
            catalog,
            accumulated(fragments),
        ),
{
    let longer = fragments.push(Seq::empty());
    assert(longer.drop_last() =~= fragments);
    assert(accumulated(longer) =~= accumulated(fragments));
}

/// A first line that has ended is not changed by what comes behind it.
pub proof fn lemma_first_line_stays(s: Seq<char>, more: Seq<char>)
    requires
        s.contains('\n'),
    ensures
        first_line(s + more) == first_line(s),
    decreases s.len(),
{
    let whole = s + more;
    assert(s.len() > 0);
    assert(whole[0] == s[0]);
    if s[0] != '\n' {
        let rest = s.drop_first();
        let i = choose|i: int| 0 <= i < s.len() && s[i] == '\n';
        assert(rest[i - 1] == '\n');
        assert(rest.contains('\n'));
        lemma_first_line_stays(rest, more);
        assert(whole.drop_first() =~= rest + more);
    }
}

/// The language of a fenced block is fixed by the block's first line: once
/// that line has ended, text that brings no further fence leaves the mode as
/// it is.
pub proof fn lemma_language_stays(catalog: Catalog, s: Seq<char>, more: Seq<char>)
    requires
        inside_fence(s),
        fence_body(s).contains('\n'),
        fence_count(s + more) == fence_count(s),
    ensures
        fence_hint(s + more) == fence_hint(s),
        mode_of(catalog, s + more) == mode_of(catalog, s),
{
    lemma_last_fence_stays(s, more);
    lemma_fences_apart(s, 0);
    let end = last_fence_end(s);
    assert(0 <= end <= s.len());
    assert(fence_body(s + more) =~= fence_body(s) + more);
    lemma_first_line_stays(fence_body(s), more);
}

/// Text without a backtick is shown as it is.
pub proof fn lemma_without_backtick_normal(catalog: Catalog, s: Seq<char>)
    requires
        forall|i: int| !tick_at(s, i),
    ensures
        mode_of(catalog, s) == Mode::Normal,
{
    lemma_no_backtick(s);
}

/// A fence token ends the block that a text ends in, whatever the block
/// holds; and behind a text that ends in no block it begins one.
pub proof fn lemma_fence_ends_block(catalog: Catalog, s: Seq<char>)
    ensures
        inside_fence(s) ==> !(mode_of(catalog, s + fence_token()) is CodeBlock),
        !inside_fence(s) ==> mode_of(catalog, s + fence_token()) is CodeBlock,
{
    lemma_fence_toggles(s);
}

} // verus!
