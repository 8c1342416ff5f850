//! Counting backtick delimiters in accumulated text.
//!
//! Two kinds of delimiter are recognised. A *fence* is three consecutive
//! backticks; fences are found by one scan from the left, and a scan that has
//! found a fence resumes behind it, so no backtick belongs to two fences. A
//! *lone backtick* is a backtick with no backtick directly before or after it.
//! Both are counted over the whole text each time: nothing is remembered
//! between calls, so the cost of a call grows with the length of the text.

use vstd::prelude::*;
use crate::text::characters;

verus! {

/// The delimiter character.
pub const BACKTICK: char = '`';

/// A backtick stands at position `i` of `s`.
pub open spec fn tick_at(s: Seq<char>, i: int) -> bool {
    0 <= i < s.len() && s[i] == BACKTICK
}

/// Three backticks stand at positions `i`, `i + 1` and `i + 2` of `s`.
pub open spec fn fence_at(s: Seq<char>, i: int) -> bool {
    tick_at(s, i) && tick_at(s, i + 1) && tick_at(s, i + 2)
}

/// A backtick stands at position `i` of `s`, and none beside it.
pub open spec fn lone_tick_at(s: Seq<char>, i: int) -> bool {
    tick_at(s, i) && !tick_at(s, i - 1) && !tick_at(s, i + 1)
}

/// The start positions of the fences that a scan of `s` from position `from`
/// finds, in rising order.
pub open spec fn fences_from(s: Seq<char>, from: int) -> Seq<int>
    decreases s.len() - from,
{
    if from < 0 || from + 3 > s.len() {
        Seq::empty()
    } else if fence_at(s, from) {
        seq![from] + fences_from(s, from + 3)
    } else {
        fences_from(s, from + 1)
    }
}

/// The start positions of the fences of `s`.
pub open spec fn fences(s: Seq<char>) -> Seq<int> {
    fences_from(s, 0)
}

/// The number of fences of `s`.
pub open spec fn fence_count(s: Seq<char>) -> nat {
    fences(s).len()
}

/// The position just behind the fence that starts last in `starts`, and 0
/// where there is none.
pub open spec fn end_of_last(starts: Seq<int>) -> int {
    if starts.len() == 0 {
        0
    } else {
        starts.last() + 3
    }
}

/// The position just behind the last fence of `s`, and 0 where `s` has none.
pub open spec fn last_fence_end(s: Seq<char>) -> int {
    end_of_last(fences(s))
}

/// The number of lone backticks of `s` at the positions before `upto`.
pub open spec fn lone_ticks_before(s: Seq<char>, upto: int) -> nat
    decreases upto,
{
    if upto <= 0 {
        0
    } else {
        lone_ticks_before(s, upto - 1) + if lone_tick_at(s, upto - 1) {
            1nat
        } else {
            0nat
        }
    }
}

/// The number of lone backticks of `s`.
pub open spec fn lone_tick_count(s: Seq<char>) -> nat {
    lone_ticks_before(s, s.len() as int)
}

/// `s` ends inside a fenced block: it has an odd number of fences.
pub open spec fn inside_fence(s: Seq<char>) -> bool {
    fence_count(s) % 2 == 1
}

/// `s` ends inside an emphasised span: it has an odd number of lone backticks.
pub open spec fn inside_emphasis(s: Seq<char>) -> bool {
    lone_tick_count(s) % 2 == 1
}

/// What a scan for fences found.
#[derive(Clone, Copy, Debug, PartialEq, Eq)]
pub struct FenceScan {
    /// The number of fences.
    pub count: usize,
    /// The position, in characters, just behind the last fence; 0 without one.
    pub end: usize,
}

impl FenceScan {
    /// The number of fences is odd.
    pub open spec fn spec_is_open(&self) -> bool {
        self.count % 2 == 1
    }

    /// The number of fences is odd: the last one opened a block that is not
    /// closed.
    #[verifier::when_used_as_spec(spec_is_open)]
    pub fn is_open(&self) -> (open: bool)
        ensures
            open == self.spec_is_open(),
    {
        self.count % 2 == 1
    }
}

/// Scans `chars` for fences.
pub fn scan_fences_in(chars: &Vec<char>) -> (scan: FenceScan)
    ensures
        scan.count == fence_count(chars@),
        scan.end == last_fence_end(chars@),
        scan.end <= chars@.len(),
{
    let n = chars.len();
    let mut i: usize = 0;
    let mut count: usize = 0;
    let mut end: usize = 0;
    let ghost mut found: Seq<int> = Seq::empty();
    while n - i >= 3
        invariant
            n == chars@.len(),
            i <= n,
            fences(chars@) =~= found + fences_from(chars@, i as int),
            count == found.len(),
            3 * count <= i,
            end == end_of_last(found),
            end <= i,
        decreases n - i,
    {
        if chars[i] == BACKTICK && chars[i + 1] == BACKTICK && chars[i + 2] == BACKTICK {
            proof {
                found = found.push(i as int);
            }
            count = count + 1;
            i = i + 3;
            end = i;
        } else {
            i = i + 1;
        }
    }
    FenceScan { count, end }
}

/// Counts the lone backticks of `chars`.
pub fn count_lone_ticks_in(chars: &Vec<char>) -> (count: usize)
    ensures
        count == lone_tick_count(chars@),
{
    let n = chars.len();
    let mut i: usize = 0;
    let mut count: usize = 0;
    while i < n
        invariant
            n == chars@.len(),
            i <= n,
            count == lone_ticks_before(chars@, i as int),
            count <= i,
        decreases n - i,
    {
        let alone_before = i == 0 || chars[i - 1] != BACKTICK;
        let alone_behind = i + 1 == n || chars[i + 1] != BACKTICK;
        if chars[i] == BACKTICK && alone_before && alone_behind {
            count = count + 1;
        }
        i = i + 1;
    }
    count
}

/// Scans `text` for fences: their number, and where the last one ends.
pub fn scan_fences(text: &str) -> (scan: FenceScan)
    ensures
        scan.count == fence_count(text@),
        scan.end == last_fence_end(text@),
        scan.end <= text@.len(),
        scan.is_open() == inside_fence(text@),
{
    let chars = characters(text);
    scan_fences_in(&chars)
}

/// Counts the lone backticks of `text`.
pub fn count_lone_ticks(text: &str) -> (count: usize)
    ensures
        count == lone_tick_count(text@),
{
    let chars = characters(text);
    count_lone_ticks_in(&chars)
}

/// The fences that a scan finds are fences, lie between the scan's start and
/// the end of the text, and do not overlap: each starts behind the one before
/// it. So a backtick is counted for one fence at most.
pub proof fn lemma_fences_apart(s: Seq<char>, from: int)
    requires
        0 <= from,
    ensures
        forall|k: int|
            0 <= k < fences_from(s, from).len() ==> from <= #[trigger] fences_from(s, from)[k]
                && fence_at(s, fences_from(s, from)[k]),
        forall|k: int|
            0 < k < fences_from(s, from).len() ==> fences_from(s, from)[k - 1] + 3
                <= #[trigger] fences_from(s, from)[k],
        from <= s.len() ==> 3 * fences_from(s, from).len() <= s.len() - from,
    decreases s.len() - from,
{
    if from + 3 > s.len() {
    } else if fence_at(s, from) {
        lemma_fences_apart(s, from + 3);
        let rest = fences_from(s, from + 3);
        let all = fences_from(s, from);
        assert(all =~= seq![from] + rest);
        assert forall|k: int| 0 < k < all.len() implies all[k - 1] + 3 <= #[trigger] all[k] by {
            assert(all[k] == rest[k - 1]);
            if k > 1 {
                assert(all[k - 1] == rest[k - 2]);
            }
        }
        assert forall|k: int| 0 <= k < all.len() implies from <= #[trigger] all[k] && fence_at(
            s,
            all[k],
        ) by {
            if k > 0 {
                assert(all[k] == rest[k - 1]);
            }
        }
    } else {
        lemma_fences_apart(s, from + 1);
    }
}

/// No fence is passed over: wherever three backticks stand in a row at or
/// behind the start of a scan, a fence that the scan finds begins at the first
/// of them or at most two places before it.
pub proof fn lemma_fences_complete(s: Seq<char>, from: int, at: int)
    requires
        0 <= from <= at,
        fence_at(s, at),
    ensures
        exists|k: int|
            0 <= k < fences_from(s, from).len() && #[trigger] fences_from(s, from)[k] <= at
                < fences_from(s, from)[k] + 3,
    decreases s.len() - from,
{
    let all = fences_from(s, from);
    if fence_at(s, from) {
        if at < from + 3 {
            assert(all[0] == from);
        } else {
            lemma_fences_complete(s, from + 3, at);
            let rest = fences_from(s, from + 3);
            let k = choose|k: int| 0 <= k < rest.len() && #[trigger] rest[k] <= at < rest[k] + 3;
            assert(all[k + 1] == rest[k]);
        }
    } else {
        lemma_fences_complete(s, from + 1, at);
    }
}

/// No backtick of a fence is a lone backtick: one delimiter is never counted
/// as both.
pub proof fn lemma_fence_ticks_not_lone(s: Seq<char>, i: int)
    requires
        fence_at(s, i),
    ensures
        !lone_tick_at(s, i),
        !lone_tick_at(s, i + 1),
        !lone_tick_at(s, i + 2),
{
}

/// `n` backticks in a row.
pub open spec fn backtick_run(n: nat) -> Seq<char> {
    Seq::new(n, |i: int| BACKTICK)
}

/// In a row of backticks, from any position on, every three make a fence.
proof fn lemma_run_fences_from(n: nat, from: int)
    requires
        0 <= from <= n,
    ensures
        fences_from(backtick_run(n), from).len() == (n - from) / 3,
    decreases n - from,
{
    if from + 3 <= n {
        assert(fence_at(backtick_run(n), from));
        lemma_run_fences_from(n, from + 3);
    }
}

/// In a row of two or more backticks, none is alone.
proof fn lemma_run_lone_ticks_before(n: nat, upto: int)
    requires
        n >= 2,
        0 <= upto <= n,
    ensures
        lone_ticks_before(backtick_run(n), upto) == 0,
    decreases upto,
{
    if upto > 0 {
        lemma_run_lone_ticks_before(n, upto - 1);
        let s = backtick_run(n);
        if upto - 1 > 0 {
            assert(tick_at(s, upto - 2));
        } else {
            assert(tick_at(s, upto));
        }
    }
}

/// A row of `n` backticks holds a fence for every three of them. A single
/// backtick is a lone one; in a longer row there is no lone backtick, so that
/// four backticks are one fence and nothing else.
pub proof fn lemma_backtick_run(n: nat)
    ensures
        fence_count(backtick_run(n)) == n / 3,
        lone_tick_count(backtick_run(n)) == if n == 1 {
            1nat
        } else {
            0nat
        },
{
    lemma_run_fences_from(n, 0);
    let s = backtick_run(n);
    if n >= 2 {
        lemma_run_lone_ticks_before(n, n as int);
    } else if n == 1 {
        assert(lone_ticks_before(s, 0) == 0);
        assert(lone_tick_at(s, 0));
        assert(lone_ticks_before(s, 1) == 1);
    }
}

/// The fence token: three backticks.
pub open spec fn fence_token() -> Seq<char> {
    backtick_run(3)
}

/// A scan that begins among the last characters of a text finds exactly one
/// fence once a fence token stands behind the text.
proof fn lemma_token_at_end(s: Seq<char>, from: int)
    requires
        0 <= from <= s.len(),
        from + 3 > s.len(),
    ensures
        fences_from(s + fence_token(), from).len() == 1,
    decreases s.len() - from,
{
    let whole = s + fence_token();
    assert(fence_at(whole, s.len() as int));
    if fence_at(whole, from) {
        assert(fences_from(whole, from + 3) =~= Seq::<int>::empty());
    } else {
        lemma_token_at_end(s, from + 1);
    }
}

/// A fence token behind a text adds one fence to those that a scan finds.
proof fn lemma_token_adds_one(s: Seq<char>, from: int)
    requires
        0 <= from <= s.len(),
    ensures
        fences_from(s + fence_token(), from).len() == fences_from(s, from).len() + 1,
    decreases s.len() - from,
{
    let whole = s + fence_token();
    if from + 3 > s.len() {
        lemma_token_at_end(s, from);
    } else {
        assert(whole[from] == s[from] && whole[from + 1] == s[from + 1] && whole[from + 2] == s[from
            + 2]);
        if fence_at(s, from) {
            lemma_token_adds_one(s, from + 3);
        } else {
            lemma_token_adds_one(s, from + 1);
        }
    }
}

/// A fence token behind any text is one more fence: it closes the block that
/// was open and opens one where none was, also directly behind another fence.
pub proof fn lemma_fence_toggles(s: Seq<char>)
    ensures
        fence_count(s + fence_token()) == fence_count(s) + 1,
        inside_fence(s + fence_token()) == !inside_fence(s),
{
    lemma_token_adds_one(s, 0);
}

/// A text without a backtick holds no fence and no lone backtick.
pub proof fn lemma_no_backtick(s: Seq<char>)
    requires
        forall|i: int| !tick_at(s, i),
    ensures
        fence_count(s) == 0,
        lone_tick_count(s) == 0,
{
    lemma_no_fence_from(s, 0);
    lemma_no_lone_tick_before(s, s.len() as int);
}

/// Where no backtick stands, a scan finds no fence.
proof fn lemma_no_fence_from(s: Seq<char>, from: int)
    requires
        forall|i: int| !tick_at(s, i),
    ensures
        fences_from(s, from).len() == 0,
    decreases s.len() - from,
{
    if !(from < 0 || from + 3 > s.len()) {
        assert(!tick_at(s, from));
        lemma_no_fence_from(s, from + 1);
    }
}

/// Where no backtick stands, none is alone.
proof fn lemma_no_lone_tick_before(s: Seq<char>, upto: int)
    requires
        forall|i: int| !tick_at(s, i),
    ensures
        lone_ticks_before(s, upto) == 0,
    decreases upto,
{
    if upto > 0 {
        assert(!tick_at(s, upto - 1));
        lemma_no_lone_tick_before(s, upto - 1);
    }
}

/// Text that arrives later leaves the fences found so far as they are: the
/// fences of a text begin the fences of every text that it begins.
pub proof fn lemma_fences_extend(s: Seq<char>, more: Seq<char>, from: int)
    requires
        0 <= from,
    ensures
        fences_from(s, from).is_prefix_of(fences_from(s + more, from)),
    decreases s.len() - from,
{
    let whole = s + more;
    if from + 3 <= s.len() {
        assert(whole[from] == s[from] && whole[from + 1] == s[from + 1] && whole[from + 2] == s[from
            + 2]);
        if fence_at(s, from) {
            lemma_fences_extend(s, more, from + 3);
            let short = fences_from(s, from + 3);
            let long = fences_from(whole, from + 3);
            assert(seq![from] + short =~= (seq![from] + long).subrange(0, short.len() as int + 1));
        } else {
            lemma_fences_extend(s, more, from + 1);
        }
    }
}

/// Where text that arrives later brings no further fence, the last fence ends
/// where it did.
pub proof fn lemma_last_fence_stays(s: Seq<char>, more: Seq<char>)
    requires
        fence_count(s + more) == fence_count(s),
    ensures
        last_fence_end(s + more) == last_fence_end(s),
{
    lemma_fences_extend(s, more, 0);
    assert(fences(s) =~= fences(s + more));
}

} // verus!
