//! Tests and cuts on strings, by character.

use vstd::prelude::*;
use vstd::string::StrSliceExecFns;

verus! {

/// Whether `pattern` stands in `text` at the place `at`.
pub open spec fn occurs_at(text: Seq<char>, pattern: Seq<char>, at: int) -> bool {
    0 <= at && at + pattern.len() <= text.len() && text.subrange(at, at + pattern.len())
        == pattern
}

/// Whether `pattern` stands somewhere in `text`.
pub open spec fn occurs_in(text: Seq<char>, pattern: Seq<char>) -> bool {
    exists|at: int| occurs_at(text, pattern, at)
}

/// Whether `at` is the first place in `text`, from `from` on, where `c`
/// stands.
pub open spec fn is_first_at(text: Seq<char>, c: char, from: int, at: int) -> bool {
    &&& from <= at < text.len()
    &&& text[at] == c
    &&& forall|j: int| from <= j < at ==> text[j] != c
}

/// The first place in `text`, from `from` on, where `c` stands, if there is
/// one.
pub open spec fn first_place(text: Seq<char>, c: char, from: int) -> Option<int> {
    if exists|at: int| #[trigger] is_first_at(text, c, from, at) {
        Some(choose|at: int| #[trigger] is_first_at(text, c, from, at))
    } else {
        None
    }
}

/// Whether `pattern` stands in `text` at the place `at`.
pub fn matches_at(text: &str, pattern: &str, at: usize) -> (found: bool)
    ensures
        found == occurs_at(text@, pattern@, at as int),
{
    let text_len = text.unicode_len();
    let pattern_len = pattern.unicode_len();
    if at > text_len || pattern_len > text_len - at {
        return false;
    }
    let mut i: usize = 0;
    while i < pattern_len
        invariant
            text_len == text@.len(),
            pattern_len == pattern@.len(),
            at + pattern_len <= text_len,
            i <= pattern_len,
            forall|j: int| 0 <= j < i ==> text@[at + j] == pattern@[j],
        decreases pattern_len - i,
    {
        if text.get_char(at + i) != pattern.get_char(i) {
            assert(text@.subrange(at as int, at + pattern_len)[i as int] != pattern@[i as int]);
            return false;
        }
        i = i + 1;
    }
    assert(text@.subrange(at as int, at + pattern_len) =~= pattern@);
    true
}

/// Whether `text` begins with `prefix`.
pub fn starts_with(text: &str, prefix: &str) -> (found: bool)
    ensures
        found == prefix@.is_prefix_of(text@),
{
    matches_at(text, prefix, 0)
}

/// Whether the two strings hold the same characters.
pub fn same_text(a: &str, b: &str) -> (same: bool)
    ensures
        same == (a@ == b@),
{
    if a.unicode_len() != b.unicode_len() {
        return false;
    }
    let found = matches_at(a, b, 0);
    assert(a@.subrange(0, a@.len() as int) =~= a@);
    found
}

/// Whether `pattern` stands somewhere in `text`.
pub fn contains(text: &str, pattern: &str) -> (found: bool)
    ensures
        found == occurs_in(text@, pattern@),
{
    let text_len = text.unicode_len();
    let pattern_len = pattern.unicode_len();
    if pattern_len > text_len {
        return false;
    }
    let last: usize = text_len - pattern_len;
    let mut at: usize = 0;
    while at < last
        invariant
            text_len == text@.len(),
            pattern_len == pattern@.len(),
            last == text_len - pattern_len,
            at <= last,
            forall|j: int| 0 <= j < at ==> !occurs_at(text@, pattern@, j),
        decreases last - at,
    {
        if matches_at(text, pattern, at) {
            return true;
        }
        at = at + 1;
    }
    matches_at(text, pattern, last)
}

/// What follows `prefix` in `text`, where `text` begins with it.
pub fn strip_prefix<'a>(text: &'a str, prefix: &str) -> (rest: Option<&'a str>)
    ensures
        match rest {
            Some(r) => prefix@.is_prefix_of(text@) && r@ == text@.skip(prefix@.len() as int),
            None => !prefix@.is_prefix_of(text@),
        },
{
    if starts_with(text, prefix) {
        Some(text.substring_char(prefix.unicode_len(), text.unicode_len()))
    } else {
        None
    }
}

/// The first place in `text`, from `from` on, where `c` stands.
pub fn find_char(text: &str, c: char, from: usize) -> (place: Option<usize>)
    ensures
        match place {
            Some(at) => first_place(text@, c, from as int) == Some(at as int) && is_first_at(
                text@,
                c,
                from as int,
                at as int,
            ),
            None => first_place(text@, c, from as int) is None,
        },
{
    let len = text.unicode_len();
    let mut at: usize = from;
    while at < len
        invariant
            len == text@.len(),
            from <= at,
            forall|j: int| from <= j < at ==> text@[j] != c,
        decreases len - at,
    {
        if text.get_char(at) == c {
            assert(is_first_at(text@, c, from as int, at as int));
            return Some(at);
        }
        at = at + 1;
    }
    None
}

} // verus!
