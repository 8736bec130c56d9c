//! Character-level string predicates and their checked implementations.

use vstd::prelude::*;

verus! {

/// The texts of a list of strings.
pub open spec fn texts(strings: Seq<String>) -> Seq<Seq<char>> {
    strings.map_values(|s: String| s@)
}

/// `prefix` is an initial segment of `text`.
pub open spec fn starts_with(text: Seq<char>, prefix: Seq<char>) -> bool {
    prefix.len() <= text.len() && text.subrange(0, prefix.len() as int) == prefix
}

/// `needle` occurs in `text` starting at position `i`.
pub open spec fn occurs_at(text: Seq<char>, needle: Seq<char>, i: int) -> bool {
    0 <= i && i + needle.len() <= text.len() && text.subrange(i, i + needle.len()) == needle
}

/// `needle` occurs somewhere in `text`.
pub open spec fn contains(text: Seq<char>, needle: Seq<char>) -> bool {
    exists|i: int| occurs_at(text, needle, i)
}

/// Decimal digits `0`..`9`.
pub open spec fn is_ascii_digit(c: char) -> bool {
    '0' <= c && c <= '9'
}

/// Every character of `text` is a decimal digit or a dot.
pub open spec fn only_digits_and_dots(text: Seq<char>) -> bool {
    forall|i: int| 0 <= i < text.len() ==> is_ascii_digit(#[trigger] text[i]) || text[i] == '.'
}

/// Whether `text` begins with `prefix`.
pub fn has_prefix(text: &str, prefix: &str) -> (b: bool)
    ensures
        b == starts_with(text@, prefix@),
{
    let n = prefix.unicode_len();
    let m = text.unicode_len();
    if n > m {
        return false;
    }
    let mut i: usize = 0;
    while i < n
        invariant
            n == prefix@.len(),
            m == text@.len(),
            n <= m,
            i <= n,
            forall|j: int| 0 <= j < i ==> text@[j] == prefix@[j],
        decreases n - i,
    {
        if text.get_char(i) != prefix.get_char(i) {
            assert(text@.subrange(0, n as int)[i as int] != prefix@[i as int]);
            return false;
        }
        i = i + 1;
    }
    assert(text@.subrange(0, n as int) =~= prefix@);
    true
}

/// Whether `needle` occurs anywhere in `text`.
pub fn has_substring(text: &str, needle: &str) -> (b: bool)
    ensures
        b == contains(text@, needle@),
{
    let n = needle.unicode_len();
    let m = text.unicode_len();
    if n > m {
        assert forall|i: int| !occurs_at(text@, needle@, i) by {}
        return false;
    }
    let mut i: usize = 0;
    while i <= m - n
        invariant
            n == needle@.len(),
            m == text@.len(),
            n <= m,
            i <= m - n,
            forall|j: int| 0 <= j < i ==> !occurs_at(text@, needle@, j),
        decreases m - n - i,
    {
        let rest = text.substring_char(i, m);
        if has_prefix(rest, needle) {
            assert(rest@.subrange(0, n as int) =~= text@.subrange(i as int, i + n));
            assert(occurs_at(text@, needle@, i as int));
            return true;
        }
        assert(rest@.subrange(0, n as int) =~= text@.subrange(i as int, i + n));
        if i == m - n {
            assert forall|j: int| !occurs_at(text@, needle@, j) by {
                if 0 <= j && j + n <= m {
                    assert(j <= i);
                }
            }
            return false;
        }
        i = i + 1;
    }
    false
}

/// Whether every character of `text` is a decimal digit or a dot.
pub fn is_digits_and_dots(text: &str) -> (b: bool)
    ensures
        b == only_digits_and_dots(text@),
{
    let m = text.unicode_len();
    let mut i: usize = 0;
    while i < m
        invariant
            m == text@.len(),
            i <= m,
            forall|j: int| 0 <= j < i ==> is_ascii_digit(#[trigger] text@[j]) || text@[j] == '.',
        decreases m - i,
    {
        let c = text.get_char(i);
        if !(('0' <= c && c <= '9') || c == '.') {
            return false;
        }
        i = i + 1;
    }
    true
}

/// Whether two strings hold the same characters.
pub fn same_text(a: &str, b: &str) -> (r: bool)
    ensures
        r == (a@ == b@),
{
    if a.unicode_len() != b.unicode_len() {
        return false;
    }
    let r = has_prefix(a, b);
    assert(a@.subrange(0, b@.len() as int) =~= a@);
    r
}

} // verus!
