//! Strings as sequences of characters: matching a pattern at the start, at the
//! end or anywhere inside a text, counting and locating a character, and
//! trimming white space.

use vstd::prelude::*;

verus! {

/// `pattern` stands in `text` at offset `at`.
pub open spec fn occurs_at(text: Seq<char>, pattern: Seq<char>, at: int) -> bool {
    &&& 0 <= at
    &&& at + pattern.len() <= text.len()
    &&& text.subrange(at, at + pattern.len()) == pattern
}

/// `pattern` stands somewhere in `text`.
pub open spec fn occurs_in(text: Seq<char>, pattern: Seq<char>) -> bool {
    exists|at: int| occurs_at(text, pattern, at)
}

/// How often `c` occurs in `text`.
pub open spec fn occurrences(text: Seq<char>, c: char) -> nat
    decreases text.len(),
{
    if text.len() == 0 {
        0
    } else if text.last() == c {
        occurrences(text.drop_last(), c) + 1
    } else {
        occurrences(text.drop_last(), c)
    }
}

/// The offset of the first `c` in `text`, or the length of `text` where it
/// holds none.
pub open spec fn first_position(text: Seq<char>, c: char) -> int
    decreases text.len(),
{
    if text.len() == 0 {
        0
    } else if text[0] == c {
        0
    } else {
        1 + first_position(text.drop_first(), c)
    }
}

/// The characters with the Unicode property `White_Space`.
pub open spec fn is_whitespace(c: char) -> bool {
    ||| '\u{9}' <= c <= '\u{D}'
    ||| c == ' '
    ||| c == '\u{85}'
    ||| c == '\u{A0}'
    ||| c == '\u{1680}'
    ||| '\u{2000}' <= c <= '\u{200A}'
    ||| c == '\u{2028}'
    ||| c == '\u{2029}'
    ||| c == '\u{202F}'
    ||| c == '\u{205F}'
    ||| c == '\u{3000}'
}

/// `text` without the white space it starts with.
pub open spec fn trimmed_start(text: Seq<char>) -> Seq<char>
    decreases text.len(),
{
    if text.len() > 0 && is_whitespace(text[0]) {
        trimmed_start(text.drop_first())
    } else {
        text
    }
}

/// `text` without the white space it ends with.
pub open spec fn trimmed_end(text: Seq<char>) -> Seq<char>
    decreases text.len(),
{
    if text.len() > 0 && is_whitespace(text.last()) {
        trimmed_end(text.drop_last())
    } else {
        text
    }
}

/// `text` without the white space at either end.
pub open spec fn trimmed(text: Seq<char>) -> Seq<char> {
    trimmed_end(trimmed_start(text))
}

/// `text` with every trailing repetition of `pattern` removed.
pub open spec fn without_trailing(text: Seq<char>, pattern: Seq<char>) -> Seq<char>
    decreases text.len(),
{
    if pattern.len() > 0 && pattern.is_suffix_of(text) {
        without_trailing(text.subrange(0, text.len() - pattern.len()), pattern)
    } else {
        text
    }
}

/// A character that occurs in a text stands at one of its offsets.
pub proof fn lemma_occurs_somewhere(text: Seq<char>, c: char)
    requires
        occurrences(text, c) > 0,
    ensures
        exists|at: int| 0 <= at < text.len() && text[at] == c,
    decreases text.len(),
{
    if text.last() != c {
        lemma_occurs_somewhere(text.drop_last(), c);
        let at = choose|at: int| 0 <= at < text.drop_last().len() && text.drop_last()[at] == c;
        assert(text[at] == c);
    } else {
        assert(text[text.len() - 1] == c);
    }
}

/// The characters of `s`, in order.
pub fn to_chars(s: &str) -> (chars: Vec<char>)
    ensures
        chars@ == s@,
{
    let mut chars: Vec<char> = Vec::new();
    for c in it: s.chars()
        invariant
            it.seq() == s@,
            chars@ == it.seq().take(it.index()),
    {
        chars.push(c);
    }
    chars
}

/// Whether `pattern` stands in the first `end` characters of `text` at offset `at`.
pub fn matches_at(text: &Vec<char>, end: usize, pattern: &Vec<char>, at: usize) -> (found: bool)
    requires
        end <= text.len(),
    ensures
        found == occurs_at(text@.take(end as int), pattern@, at as int),
{
    if at > end || pattern.len() > end - at {
        return false;
    }
    let mut i: usize = 0;
    while i < pattern.len()
        invariant
            i <= pattern.len(),
            at + pattern.len() <= end <= text.len(),
            forall|k: int| 0 <= k < i ==> text[at + k] == pattern[k],
        decreases pattern.len() - i,
    {
        if text[at + i] != pattern[i] {
            assert(text@.take(end as int).subrange(at as int, at + pattern.len())[i as int]
                != pattern@[i as int]);
            return false;
        }
        i += 1;
    }
    assert(text@.take(end as int).subrange(at as int, at + pattern.len()) =~= pattern@);
    true
}

/// Whether `a` and `b` hold the same characters.
pub fn same_text(a: &str, b: &str) -> (same: bool)
    ensures
        same == (a@ == b@),
{
    let left = to_chars(a);
    let right = to_chars(b);
    if left.len() != right.len() {
        return false;
    }
    assert(left@.take(left.len() as int) =~= left@);
    matches_at(&left, left.len(), &right, 0)
}

/// Whether `text` starts with `pattern`.
pub fn starts_with(text: &Vec<char>, pattern: &str) -> (found: bool)
    ensures
        found == pattern@.is_prefix_of(text@),
{
    let wanted = to_chars(pattern);
    assert(text@.take(text.len() as int) =~= text@);
    matches_at(text, text.len(), &wanted, 0)
}

/// Whether the first `end` characters of `text` end with `pattern`.
pub fn ends_with(text: &Vec<char>, end: usize, pattern: &Vec<char>) -> (found: bool)
    requires
        end <= text.len(),
    ensures
        found == pattern@.is_suffix_of(text@.take(end as int)),
{
    if pattern.len() > end {
        return false;
    }
    matches_at(text, end, pattern, end - pattern.len())
}

/// Whether `pattern` stands somewhere in `text`.
pub fn contains(text: &Vec<char>, pattern: &str) -> (found: bool)
    ensures
        found == occurs_in(text@, pattern@),
{
    let wanted = to_chars(pattern);
    assert(text@.take(text.len() as int) =~= text@);
    if wanted.len() > text.len() {
        return false;
    }
    let last: usize = text.len() - wanted.len();
    let mut at: usize = 0;
    loop
        invariant
            at <= last,
            last == text.len() - wanted.len(),
            wanted@ == pattern@,
            text@.take(text.len() as int) == text@,
            forall|k: int| 0 <= k < at ==> !occurs_at(text@, pattern@, k),
        decreases last - at,
    {
        if matches_at(text, text.len(), &wanted, at) {
            return true;
        }
        if at == last {
            return false;
        }
        at += 1;
    }
}

/// Whether `c` has the Unicode property `White_Space`.
pub fn char_is_whitespace(c: char) -> (white: bool)
    ensures
        white == is_whitespace(c),
{
    ('\u{9}' <= c && c <= '\u{D}') || c == ' ' || c == '\u{85}' || c == '\u{A0}' || c == '\u{1680}'
        || ('\u{2000}' <= c && c <= '\u{200A}') || c == '\u{2028}' || c == '\u{2029}' || c
        == '\u{202F}' || c == '\u{205F}' || c == '\u{3000}'
}

/// How often `c` occurs in the first `end` characters of `text`.
pub fn count_char(text: &Vec<char>, end: usize, c: char) -> (count: usize)
    requires
        end <= text.len(),
    ensures
        count == occurrences(text@.take(end as int), c),
{
    let mut count: usize = 0;
    let mut i: usize = 0;
    while i < end
        invariant
            i <= end <= text.len(),
            count <= i,
            count == occurrences(text@.take(i as int), c),
        decreases end - i,
    {
        assert(text@.take(i + 1).drop_last() =~= text@.take(i as int));
        if text[i] == c {
            count += 1;
        }
        i += 1;
    }
    count
}

/// The offset of the first `c` in the first `end` characters of `text`, or
/// `end` where they hold none.
pub fn find_char(text: &Vec<char>, end: usize, c: char) -> (at: usize)
    requires
        end <= text.len(),
    ensures
        at == first_position(text@.take(end as int), c),
        at <= end,
        at < end ==> text[at as int] == c,
        forall|k: int| 0 <= k < at ==> text[k] != c,
{
    let mut i: usize = 0;
    while i < end && text[i] != c
        invariant
            i <= end <= text.len(),
            forall|k: int| 0 <= k < i ==> text[k] != c,
            first_position(text@.take(end as int), c) == i + first_position(
                text@.subrange(i as int, end as int),
                c,
            ),
        decreases end - i,
    {
        assert(text@.subrange(i as int, end as int).drop_first() =~= text@.subrange(
            i + 1,
            end as int,
        ));
        i += 1;
    }
    i
}

/// The bounds of what is left of `text[from..to]` when the white space at
/// either end is removed.
pub fn trim_bounds(text: &Vec<char>, from: usize, to: usize) -> (bounds: (usize, usize))
    requires
        from <= to <= text.len(),
    ensures
        from <= bounds.0 <= bounds.1 <= to,
        text@.subrange(bounds.0 as int, bounds.1 as int) == trimmed(
            text@.subrange(from as int, to as int),
        ),
{
    let mut start: usize = from;
    while start < to && char_is_whitespace(text[start])
        invariant
            from <= start <= to <= text.len(),
            trimmed_start(text@.subrange(from as int, to as int)) == trimmed_start(
                text@.subrange(start as int, to as int),
            ),
        decreases to - start,
    {
        assert(text@.subrange(start as int, to as int).drop_first() =~= text@.subrange(
            start + 1,
            to as int,
        ));
        start += 1;
    }
    let mut end: usize = to;
    while end > start && char_is_whitespace(text[end - 1])
        invariant
            start <= end <= to <= text.len(),
            trimmed_end(text@.subrange(start as int, to as int)) == trimmed_end(
                text@.subrange(start as int, end as int),
            ),
        decreases end - start,
    {
        assert(text@.subrange(start as int, end as int).drop_last() =~= text@.subrange(
            start as int,
            end - 1,
        ));
        end -= 1;
    }
    (start, end)
}

/// The length of what is left of the first `end` characters of `text` when
/// every trailing repetition of `pattern` is removed.
pub fn trailing_removed(text: &Vec<char>, end: usize, pattern: &Vec<char>) -> (kept: usize)
    requires
        end <= text.len(),
    ensures
        kept <= end,
        text@.take(kept as int) == without_trailing(text@.take(end as int), pattern@),
{
    let mut kept: usize = end;
    if pattern.len() == 0 {
        return kept;
    }
    while ends_with(text, kept, pattern)
        invariant
            kept <= end <= text.len(),
            pattern.len() > 0,
            without_trailing(text@.take(end as int), pattern@) == without_trailing(
                text@.take(kept as int),
                pattern@,
            ),
        decreases kept,
    {
        assert(text@.take(kept as int).subrange(0, kept - pattern.len()) =~= text@.take(
            kept - pattern.len(),
        ));
        kept -= pattern.len();
    }
    kept
}

} // verus!
