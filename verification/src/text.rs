//! The few questions that the library asks of a piece of text.

use vstd::prelude::*;
use vstd::string::StrSliceExecFns;

verus! {

/// Whether `needle` stands in `hay` at place `at`.
pub open spec fn occurs_at(hay: Seq<char>, needle: Seq<char>, at: int) -> bool {
    &&& 0 <= at
    &&& at + needle.len() <= hay.len()
    &&& hay.subrange(at, at + needle.len()) == needle
}

/// Whether `needle` stands somewhere in `hay`. The empty text stands in
/// every text.
pub open spec fn contains_text(hay: Seq<char>, needle: Seq<char>) -> bool {
    exists|at: int| occurs_at(hay, needle, at)
}

/// The text of a string that may be missing.
pub open spec fn optional_text(text: Option<String>) -> Option<Seq<char>> {
    match text {
        Some(t) => Some(t@),
        None => None,
    }
}

/// Whether `text` ends with the character `last`.
pub open spec fn ends_with_char(text: Seq<char>, last: char) -> bool {
    text.len() > 0 && text.last() == last
}

/// The characters of `text`, one by one.
pub fn chars_of(text: &str) -> (chars: Vec<char>)
    ensures
        chars@ == text@,
{
    let count = text.unicode_len();
    let mut chars: Vec<char> = Vec::new();
    let mut index: usize = 0;
    while index < count
        invariant
            index <= count,
            count == text@.len(),
            chars@ == text@.subrange(0, index as int),
        decreases count - index,
    {
        chars.push(text.get_char(index));
        assert(chars@ =~= text@.subrange(0, index + 1));
        index += 1;
    }
    assert(chars@ =~= text@);
    chars
}

/// Whether `needle` stands in `hay` at place `at`, where it fits there.
fn matches_at(hay: &Vec<char>, needle: &Vec<char>, at: usize) -> (same: bool)
    requires
        at + needle.len() <= hay.len(),
    ensures
        same == occurs_at(hay@, needle@, at as int),
{
    let mut offset: usize = 0;
    while offset < needle.len()
        invariant
            offset <= needle.len(),
            at + needle.len() <= hay.len(),
            forall|k: int| 0 <= k < offset ==> hay@[at + k] == needle@[k],
        decreases needle.len() - offset,
    {
        if hay[at + offset] != needle[offset] {
            assert(hay@.subrange(at as int, at + needle.len())[offset as int] != needle@[
                offset as int
            ]);
            return false;
        }
        offset += 1;
    }
    assert(hay@.subrange(at as int, at + needle.len()) =~= needle@);
    true
}

/// Whether `needle` stands somewhere in `hay`.
pub fn text_contains(hay: &str, needle: &str) -> (found: bool)
    ensures
        found == contains_text(hay@, needle@),
{
    let hay_chars = chars_of(hay);
    let needle_chars = chars_of(needle);
    if needle_chars.len() > hay_chars.len() {
        return false;
    }
    let last = hay_chars.len() - needle_chars.len();
    let mut at: usize = 0;
    while at < last
        invariant
            at <= last,
            last == hay_chars.len() - needle_chars.len(),
            needle_chars.len() <= hay_chars.len(),
            hay_chars@ == hay@,
            needle_chars@ == needle@,
            forall|earlier: int| 0 <= earlier < at ==> !occurs_at(hay@, needle@, earlier),
        decreases last - at,
    {
        if matches_at(&hay_chars, &needle_chars, at) {
            return true;
        }
        at += 1;
    }
    matches_at(&hay_chars, &needle_chars, last)
}

/// Whether `text` ends with the character `last`.
pub fn text_ends_with(text: &str, last: char) -> (ends: bool)
    ensures
        ends == ends_with_char(text@, last),
{
    let count = text.unicode_len();
    count > 0 && text.get_char(count - 1) == last
}

} // verus!
