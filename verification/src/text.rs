//! Searching in the bytes of a text, and texts without their margins.

use vstd::prelude::*;

verus! {

/// `text` begins with `prefix`.
pub open spec fn has_prefix(text: Seq<u8>, prefix: Seq<u8>) -> bool {
    prefix.len() <= text.len() && text.subrange(0, prefix.len() as int) == prefix
}

/// `part` stands in `text` at place `at`.
pub open spec fn has_part_at(text: Seq<u8>, part: Seq<u8>, at: int) -> bool {
    0 <= at && at + part.len() <= text.len() && text.subrange(at, at + part.len()) == part
}

/// `part` stands somewhere in `text`.
pub open spec fn has_part(text: Seq<u8>, part: Seq<u8>) -> bool {
    exists|at: int| has_part_at(text, part, at)
}

/// Tells whether two texts are the same, byte for byte.
pub fn same_bytes(a: &[u8], b: &[u8]) -> (same: bool)
    ensures
        same == (a@ == b@),
{
    if a.len() != b.len() {
        return false;
    }
    let len = a.len();
    let mut i: usize = 0;
    while i < len
        invariant
            i <= len,
            len == a@.len(),
            len == b@.len(),
            forall|k: int| 0 <= k < i ==> a@[k] == b@[k],
        decreases len - i,
    {
        if a[i] != b[i] {
            return false;
        }
        i += 1;
    }
    assert(a@ =~= b@);
    true
}

/// Tells whether `part` stands in `text` at place `at`.
pub fn part_at(text: &[u8], part: &[u8], at: usize) -> (found: bool)
    ensures
        found == has_part_at(text@, part@, at as int),
{
    let len = part.len();
    let size = text.len();
    if at > size || len > size - at {
        return false;
    }
    let mut i: usize = 0;
    while i < len
        invariant
            i <= len,
            len == part@.len(),
            size == text@.len(),
            at + len <= size,
            forall|k: int| 0 <= k < i ==> text@[at + k] == part@[k],
        decreases len - i,
    {
        if text[at + i] != part[i] {
            assert(text@.subrange(at as int, at + len)[i as int] == text@[at + i]);
            return false;
        }
        i += 1;
    }
    assert(text@.subrange(at as int, at + len) =~= part@);
    true
}

/// Tells whether `text` begins with `prefix`.
pub fn starts_with(text: &[u8], prefix: &[u8]) -> (found: bool)
    ensures
        found == has_prefix(text@, prefix@),
{
    part_at(text, prefix, 0)
}

/// Tells whether `part` stands somewhere in `text`.
pub fn contains(text: &[u8], part: &[u8]) -> (found: bool)
    ensures
        found == has_part(text@, part@),
{
    if part.len() > text.len() {
        assert forall|at: int| !has_part_at(text@, part@, at) by {}
        return false;
    }
    if part.len() == 0 {
        assert(has_part_at(text@, part@, 0)) by {
            assert(text@.subrange(0, 0) =~= part@);
        }
        return true;
    }
    let last = text.len() - part.len();
    let mut at: usize = 0;
    while at <= last
        invariant
            at <= last + 1,
            last < usize::MAX,
            last == text@.len() - part@.len(),
            forall|k: int| 0 <= k < at ==> !has_part_at(text@, part@, k),
        decreases last + 1 - at,
    {
        if part_at(text, part, at) {
            return true;
        }
        at += 1;
    }
    assert forall|k: int| !has_part_at(text@, part@, k) by {}
    false
}

/// The place of the first `byte` in `text` at or behind `from`; the length
/// of the text where there is none.
pub open spec fn position_from(text: Seq<u8>, byte: u8, from: int) -> int
    decreases text.len() - from,
{
    if from < 0 || from >= text.len() {
        text.len() as int
    } else if text[from] == byte {
        from
    } else {
        position_from(text, byte, from + 1)
    }
}

/// Finds the first `byte` in `text` at or behind `from`.
pub fn find_from(text: &[u8], byte: u8, from: usize) -> (at: usize)
    ensures
        at == position_from(text@, byte, from as int),
        from <= text@.len() ==> from <= at <= text@.len(),
        at < text@.len() ==> text@[at as int] == byte,
        forall|k: int| from <= k < at ==> text@[k] != byte,
{
    let len = text.len();
    if from >= len {
        return len;
    }
    let mut at: usize = from;
    while at < len
        invariant
            from <= at <= len,
            len == text@.len(),
            position_from(text@, byte, from as int) == position_from(text@, byte, at as int),
            forall|k: int| from <= k < at ==> text@[k] != byte,
        decreases len - at,
    {
        if text[at] == byte {
            return at;
        }
        at += 1;
    }
    len
}

/// A character is whitespace: it has the Unicode property White_Space.
pub open spec fn is_white(character: char) -> bool {
    let scalar = character as u32;
    ||| 0x09 <= scalar <= 0x0d
    ||| scalar == 0x20
    ||| scalar == 0x85
    ||| scalar == 0xa0
    ||| scalar == 0x1680
    ||| 0x2000 <= scalar <= 0x200a
    ||| scalar == 0x2028
    ||| scalar == 0x2029
    ||| scalar == 0x202f
    ||| scalar == 0x205f
    ||| scalar == 0x3000
}

/// Tells whether a character is whitespace.
pub fn is_whitespace(character: char) -> (white: bool)
    ensures
        white == is_white(character),
{
    let scalar = character as u32;
    (0x09 <= scalar && scalar <= 0x0d) || scalar == 0x20 || scalar == 0x85 || scalar == 0xa0
        || scalar == 0x1680 || (0x2000 <= scalar && scalar <= 0x200a) || scalar == 0x2028 || scalar
        == 0x2029 || scalar == 0x202f || scalar == 0x205f || scalar == 0x3000
}

/// The place of the first character of `text` at or behind `from` that is no
/// whitespace; the length of the text where there is none.
pub open spec fn first_black(text: Seq<char>, from: int) -> int
    decreases text.len() - from,
{
    if from < 0 || from >= text.len() {
        text.len() as int
    } else if !is_white(text[from]) {
        from
    } else {
        first_black(text, from + 1)
    }
}

/// The place behind the last character of `text` before `to` that is no
/// whitespace; zero where there is none.
pub open spec fn last_black_end(text: Seq<char>, to: int) -> int
    decreases to,
{
    if to <= 0 || to > text.len() {
        0
    } else if !is_white(text[to - 1]) {
        to
    } else {
        last_black_end(text, to - 1)
    }
}

/// `text` without the whitespace at its ends: what stands from its first
/// character that is no whitespace to its last.
pub open spec fn trimmed(text: Seq<char>) -> Seq<char> {
    let start = first_black(text, 0);
    let end = last_black_end(text, text.len() as int);
    if start >= end {
        Seq::empty()
    } else {
        text.subrange(start, end)
    }
}

/// Every character of `text` is whitespace.
pub open spec fn all_white(text: Seq<char>) -> bool {
    forall|i: int| 0 <= i < text.len() ==> is_white(#[trigger] text[i])
}

/// Before the first character that is no whitespace stands whitespace alone.
proof fn lemma_first_black(text: Seq<char>, from: int)
    requires
        0 <= from <= text.len(),
    ensures
        from <= first_black(text, from) <= text.len(),
        forall|k: int| from <= k < first_black(text, from) ==> is_white(#[trigger] text[k]),
        first_black(text, from) < text.len() ==> !is_white(text[first_black(text, from)]),
    decreases text.len() - from,
{
    if from < text.len() && is_white(text[from]) {
        lemma_first_black(text, from + 1);
    }
}

/// Behind the last character that is no whitespace stands whitespace alone.
proof fn lemma_last_black_end(text: Seq<char>, to: int)
    requires
        0 <= to <= text.len(),
    ensures
        0 <= last_black_end(text, to) <= to,
        forall|k: int| last_black_end(text, to) <= k < to ==> is_white(#[trigger] text[k]),
        last_black_end(text, to) > 0 ==> !is_white(text[last_black_end(text, to) - 1]),
    decreases to,
{
    if to > 0 && is_white(text[to - 1]) {
        lemma_last_black_end(text, to - 1);
    }
}

/// Nothing is left of a text without the whitespace at its ends exactly if
/// all of it is whitespace.
pub proof fn lemma_trimmed_empty(text: Seq<char>)
    ensures
        trimmed(text).len() == 0 <==> all_white(text),
{
    lemma_first_black(text, 0);
    lemma_last_black_end(text, text.len() as int);
    let start = first_black(text, 0);
    let end = last_black_end(text, text.len() as int);
    if all_white(text) {
        if start < text.len() {
            assert(is_white(text[start]));
        }
    } else {
        let k = choose|k: int| 0 <= k < text.len() && !is_white(#[trigger] text[k]);
        assert(start <= k);
        assert(end > k);
    }
}

/// `str::trim` of std: the text without the whitespace at its ends, where
/// whitespace is what has the Unicode property White_Space.
#[verifier::external_body]
pub(crate) fn str_trim(text: &str) -> (inner: &str)
    ensures
        inner@ == trimmed(text@),
{
    text.trim()
}

/// Tells whether a text is blank: all of it is whitespace, so that nothing
/// is left of it without the whitespace at its ends.
pub fn is_blank(text: &str) -> (blank: bool)
    ensures
        blank == all_white(text@),
        blank == (trimmed(text@).len() == 0),
{
    proof {
        lemma_trimmed_empty(text@);
    }
    str_trim(text).is_empty()
}

} // verus!
