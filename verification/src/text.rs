//! Character-level access to text, and its first and last line.
//!
//! Positions and lengths count characters, not bytes, so no text is ever cut
//! inside a character. A line ends at a line feed.

use vstd::prelude::*;
use vstd::string::StrSliceExecFns;

verus! {

/// The character that ends a line.
pub const LINE_FEED: char = '\n';

/// The characters of `s` before its first line feed; all of `s` where it has
/// none.
pub open spec fn first_line(s: Seq<char>) -> Seq<char>
    decreases s.len(),
{
    if s.len() == 0 || s[0] == '\n' {
        Seq::empty()
    } else {
        seq![s[0]] + first_line(s.drop_first())
    }
}

/// The characters of `s` behind its last line feed; all of `s` where it has
/// none.
pub open spec fn last_line(s: Seq<char>) -> Seq<char>
    decreases s.len(),
{
    if s.len() == 0 || s.last() == '\n' {
        Seq::empty()
    } else {
        last_line(s.drop_last()).push(s.last())
    }
}

/// The first line of a text is a prefix of it that holds no line feed, and
/// the text goes on behind it, if at all, with a line feed.
pub proof fn lemma_first_line(s: Seq<char>)
    ensures
        first_line(s).len() <= s.len(),
        first_line(s) == s.take(first_line(s).len() as int),
        !first_line(s).contains('\n'),
        first_line(s).len() < s.len() ==> s[first_line(s).len() as int] == '\n',
    decreases s.len(),
{
    if s.len() == 0 || s[0] == '\n' {
        assert(first_line(s) =~= s.take(0));
    } else {
        let rest = s.drop_first();
        lemma_first_line(rest);
        let line = first_line(s);
        assert(line =~= s.take(line.len() as int));
        assert forall|i: int| 0 <= i < line.len() implies line[i] != '\n' by {
            if i > 0 {
                assert(first_line(rest)[i - 1] == line[i]);
                assert(first_line(rest).contains(line[i]));
            }
        }
    }
}

/// The last line of a text is a suffix of it that holds no line feed, and a
/// line feed stands before it, if anything does.
pub proof fn lemma_last_line(s: Seq<char>)
    ensures
        last_line(s).len() <= s.len(),
        last_line(s) == s.skip(s.len() - last_line(s).len()),
        !last_line(s).contains('\n'),
        last_line(s).len() < s.len() ==> s[s.len() - last_line(s).len() - 1] == '\n',
    decreases s.len(),
{
    if s.len() == 0 || s.last() == '\n' {
        assert(last_line(s) =~= s.skip(s.len() as int));
    } else {
        let front = s.drop_last();
        lemma_last_line(front);
        let line = last_line(s);
        assert(line =~= s.skip(s.len() - line.len()));
        assert forall|i: int| 0 <= i < line.len() implies line[i] != '\n' by {
            if i < line.len() - 1 {
                assert(last_line(front)[i] == line[i]);
                assert(last_line(front).contains(line[i]));
            }
        }
    }
}

/// The characters of `text`, in order.
pub fn characters(text: &str) -> (out: Vec<char>)
    ensures
        out@ == text@,
{
    let mut out: Vec<char> = Vec::new();
    for c in it: text.chars()
        invariant
            it.seq() == text@,
            out@ == it.seq().take(it.index() as int),
    {
        out.push(c);
    }
    out
}

/// The number of characters before the first line feed of `chars`.
pub fn first_line_length(chars: &Vec<char>) -> (length: usize)
    ensures
        length == first_line(chars@).len(),
        length <= chars@.len(),
{
    let n = chars.len();
    let mut i: usize = 0;
    assert(chars@.skip(0) =~= chars@);
    while i < n && chars[i] != LINE_FEED
        invariant
            n == chars@.len(),
            i <= n,
            first_line(chars@) =~= chars@.take(i as int) + first_line(chars@.skip(i as int)),
        decreases n - i,
    {
        proof {
            let rest = chars@.skip(i as int);
            assert(rest[0] == chars@[i as int]);
            assert(rest.drop_first() =~= chars@.skip(i + 1));
            assert(chars@.take(i + 1) =~= chars@.take(i as int) + seq![rest[0]]);
        }
        i = i + 1;
    }
    proof {
        let rest = chars@.skip(i as int);
        if i < n {
            assert(rest[0] == chars@[i as int]);
        }
        assert(first_line(rest) =~= Seq::<char>::empty());
    }
    i
}

/// The number of characters behind the last line feed of `chars`.
pub fn last_line_length(chars: &Vec<char>) -> (length: usize)
    ensures
        length == last_line(chars@).len(),
        length <= chars@.len(),
{
    let n = chars.len();
    let mut j: usize = n;
    assert(chars@.take(n as int) =~= chars@);
    while j > 0 && chars[j - 1] != LINE_FEED
        invariant
            n == chars@.len(),
            j <= n,
            last_line(chars@) =~= last_line(chars@.take(j as int)) + chars@.skip(j as int),
        decreases j,
    {
        proof {
            let front = chars@.take(j as int);
            assert(front.last() == chars@[j - 1]);
            assert(front.drop_last() =~= chars@.take(j - 1));
            assert(chars@.skip(j - 1) =~= seq![front.last()] + chars@.skip(j as int));
        }
        j = j - 1;
    }
    proof {
        let front = chars@.take(j as int);
        if j > 0 {
            assert(front.last() == chars@[j - 1]);
        }
        assert(last_line(front) =~= Seq::<char>::empty());
    }
    n - j
}

/// The text of `text` from the character at position `from` on.
pub fn tail_of(text: &str, from: usize) -> (tail: &str)
    requires
        from <= text@.len(),
    ensures
        tail@ == text@.skip(from as int),
{
    let length = text.unicode_len();
    text.substring_char(from, length)
}

/// The first line of `text`: what stands before its first line feed, or all
/// of it.
pub fn first_line_of(text: &str) -> (line: &str)
    ensures
        line@ == first_line(text@),
{
    let chars = characters(text);
    let length = first_line_length(&chars);
    proof {
        lemma_first_line(text@);
    }
    text.substring_char(0, length)
}

/// The last line of `text`: what stands behind its last line feed, or all of
/// it.
pub fn last_line_of(text: &str) -> (line: &str)
    ensures
        line@ == last_line(text@),
{
    let chars = characters(text);
    let length = last_line_length(&chars);
    proof {
        lemma_last_line(text@);
    }
    text.substring_char(chars.len() - length, chars.len())
}

} // verus!
