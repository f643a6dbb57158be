//! Plain text: trimming what a user submits, and looking at how a text ends.

use vstd::prelude::*;
use vstd::string::*;

verus! {

/// Whether `c` has the Unicode property `White_Space`, as std's
/// `char::is_whitespace` reports it.
pub uninterp spec fn is_whitespace(c: char) -> bool;

/// Calls `char::is_whitespace`, which looks at the character alone.
#[verifier::external_body]
fn is_space(c: char) -> (b: bool)
    ensures
        b == is_whitespace(c),
{
    c.is_whitespace()
}

/// Position of the first character at or after `from` that is no white
/// space; the length of `text` where there is none.
pub open spec fn first_ink(text: Seq<char>, from: int) -> int
    decreases text.len() - from,
{
    if 0 <= from < text.len() && is_whitespace(text[from]) {
        first_ink(text, from + 1)
    } else {
        from
    }
}

/// Position just behind the last character before `to` and not before
/// `floor` that is no white space; `floor` where there is none.
pub open spec fn last_ink(text: Seq<char>, floor: int, to: int) -> int
    decreases to,
{
    if 0 <= floor < to <= text.len() && is_whitespace(text[to - 1]) {
        last_ink(text, floor, to - 1)
    } else {
        to
    }
}

/// `text` without the white space at its start and at its end.
pub open spec fn trimmed(text: Seq<char>) -> Seq<char> {
    let start = first_ink(text, 0);
    let end = last_ink(text, start, text.len() as int);
    text.subrange(start, end)
}

/// The part of `text` that is left when the white space at both ends is
/// removed.
pub fn trim(text: &str) -> (rest: &str)
    ensures
        rest@ == trimmed(text@),
{
    let len: usize = text.unicode_len();
    let mut start: usize = 0;
    while start < len && is_space(text.get_char(start))
        invariant
            len == text@.len(),
            start <= len,
            first_ink(text@, start as int) == first_ink(text@, 0),
        decreases len - start,
    {
        start = start + 1;
    }
    let mut end: usize = len;
    while start < end && is_space(text.get_char(end - 1))
        invariant
            len == text@.len(),
            start <= end <= len,
            last_ink(text@, start as int, end as int) == last_ink(text@, start as int, len as int),
        decreases end,
    {
        end = end - 1;
    }
    text.substring_char(start, end)
}

/// Whether every character of `text` is white space.
pub open spec fn is_blank(text: Seq<char>) -> bool {
    forall|i: int| 0 <= i < text.len() ==> is_whitespace(#[trigger] text[i])
}

/// `first_ink` stops at the first character that is no white space: all
/// that it passes is white space.
pub proof fn first_ink_is_first(text: Seq<char>, from: int)
    requires
        0 <= from <= text.len(),
    ensures
        from <= first_ink(text, from) <= text.len(),
        forall|k: int| from <= k < first_ink(text, from) ==> is_whitespace(#[trigger] text[k]),
        first_ink(text, from) < text.len() ==> !is_whitespace(text[first_ink(text, from)]),
    decreases text.len() - from,
{
    if from < text.len() && is_whitespace(text[from]) {
        first_ink_is_first(text, from + 1);
    }
}

/// `last_ink` stops behind the last character that is no white space: all
/// that it passes is white space.
pub proof fn last_ink_is_last(text: Seq<char>, floor: int, to: int)
    requires
        0 <= floor <= to <= text.len(),
    ensures
        floor <= last_ink(text, floor, to) <= to,
        forall|k: int| last_ink(text, floor, to) <= k < to ==> is_whitespace(#[trigger] text[k]),
        last_ink(text, floor, to) > floor ==> !is_whitespace(
            text[last_ink(text, floor, to) - 1],
        ),
    decreases to,
{
    if floor < to && is_whitespace(text[to - 1]) {
        last_ink_is_last(text, floor, to - 1);
    }
}

/// Trimming cuts white space and nothing else from the two ends, and what
/// is left neither starts nor ends with white space.
pub proof fn trimmed_is_tight(text: Seq<char>)
    ensures
        ({
            let start = first_ink(text, 0);
            let end = last_ink(text, start, text.len() as int);
            &&& 0 <= start <= end <= text.len()
            &&& trimmed(text) == text.subrange(start, end)
            &&& is_blank(text.subrange(0, start))
            &&& is_blank(text.subrange(end, text.len() as int))
        }),
        trimmed(text).len() > 0 ==> !is_whitespace(trimmed(text).first()) && !is_whitespace(
            trimmed(text).last(),
        ),
{
    let start = first_ink(text, 0);
    first_ink_is_first(text, 0);
    last_ink_is_last(text, start, text.len() as int);
}

/// Trimming leaves nothing exactly of a text that is white space only.
pub proof fn trimmed_empty_iff_blank(text: Seq<char>)
    ensures
        trimmed(text).len() == 0 <==> is_blank(text),
{
    let start = first_ink(text, 0);
    let end = last_ink(text, start, text.len() as int);
    first_ink_is_first(text, 0);
    last_ink_is_last(text, start, text.len() as int);
    if is_blank(text) {
        if start < text.len() {
            assert(is_whitespace(text[start]));
        }
    }
    if trimmed(text).len() == 0 {
        assert(start == end);
        assert(is_blank(text));
    }
}

/// Whether `text` ends with `suffix`.
pub open spec fn ends_with(text: Seq<char>, suffix: Seq<char>) -> bool {
    suffix.len() <= text.len() && text.skip(text.len() - suffix.len()) == suffix
}

/// Tells whether `text` ends with `suffix`.
pub fn has_suffix(text: &str, suffix: &str) -> (b: bool)
    ensures
        b == ends_with(text@, suffix@),
{
    let n: usize = text.unicode_len();
    let m: usize = suffix.unicode_len();
    if m > n {
        return false;
    }
    let offset: usize = n - m;
    let mut i: usize = 0;
    while i < m
        invariant
            n == text@.len(),
            m == suffix@.len(),
            m <= n,
            offset == n - m,
            i <= m,
            forall|k: int| 0 <= k < i ==> text@[offset + k] == suffix@[k],
        decreases m - i,
    {
        if text.get_char(offset + i) != suffix.get_char(i) {
            assert(text@.skip(offset as int)[i as int] != suffix@[i as int]);
            return false;
        }
        i = i + 1;
    }
    assert(text@.skip(offset as int) =~= suffix@);
    true
}

} // verus!
