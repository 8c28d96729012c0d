//! The checks that integration tests make on command output: whether it contains a text,
//! is empty, or has a line matching a regular expression.
use crate::text::{push_str, str_chars};
use vstd::prelude::*;

verus! {

/// `needle` occurs in `haystack` at position `i`.
pub open spec fn occurs_at(haystack: Seq<char>, needle: Seq<char>, i: int) -> bool {
    0 <= i && i + needle.len() <= haystack.len() && haystack.subrange(i, i + needle.len()) == needle
}

/// `needle` occurs somewhere in `haystack` (the empty text occurs everywhere).
pub open spec fn text_contains(haystack: Seq<char>, needle: Seq<char>) -> bool {
    exists|i: int| #[trigger] occurs_at(haystack, needle, i)
}

/// Whether `needle` occurs at position `i` of `haystack`.
fn matches_at(haystack: &Vec<char>, needle: &Vec<char>, i: usize) -> (r: bool)
    requires
        i + needle@.len() <= haystack@.len(),
    ensures
        r == occurs_at(haystack@, needle@, i as int),
{
    let mut k: usize = 0;
    while k < needle.len()
        invariant
            0 <= k <= needle@.len(),
            haystack@.len() == haystack.len(),
            i + needle@.len() <= haystack@.len(),
            forall|j: int| 0 <= j < k ==> haystack@[i + j] == needle@[j],
        decreases needle@.len() - k,
    {
        if haystack[i + k] != needle[k] {
            assert(haystack@.subrange(i as int, i + needle@.len())[k as int] != needle@[k as int]);
            return false;
        }
        k += 1;
    }
    assert(haystack@.subrange(i as int, i + needle@.len()) =~= needle@);
    true
}

/// Whether `right` occurs in `left`.
pub fn contains(left: &str, right: &str) -> (r: bool)
    ensures
        r == text_contains(left@, right@),
{
    let h = str_chars(left);
    let n = str_chars(right);
    if n.len() == 0 {
        assert(left@.subrange(0, 0) =~= right@);
        assert(occurs_at(left@, right@, 0));
        return true;
    }
    if n.len() > h.len() {
        assert forall|i: int| !occurs_at(left@, right@, i) by {}
        return false;
    }
    let mut i: usize = 0;
    while i <= h.len() - n.len()
        invariant
            h@ == left@,
            n@ == right@,
            1 <= n@.len() <= h@.len(),
            h@.len() == h.len(),
            n@.len() == n.len(),
            0 <= i <= h@.len(),
            forall|j: int| 0 <= j < i ==> !occurs_at(left@, right@, j),
        decreases h@.len() - i,
    {
        if matches_at(&h, &n, i) {
            assert(occurs_at(left@, right@, i as int));
            return true;
        }
        i += 1;
    }
    assert forall|j: int| !occurs_at(left@, right@, j) by {
        if 0 <= j < i {
        }
    }
    false
}

/// Whether `value` is empty.
pub fn is_empty(value: &str) -> (r: bool)
    ensures
        r == (value@.len() == 0),
{
    str_chars(value).len() == 0
}

/// Whether a regular expression of the `regex` crate with the given pattern compiles, and
/// if so whether it matches somewhere in a text.
pub uninterp spec fn regex_finds(pattern: Seq<char>, haystack: Seq<char>) -> Option<bool>;

/// Compiles `pattern` (`regex::Regex::new`) and tests whether it matches somewhere in
/// `haystack` (`regex::Regex::is_match`); `None` where the pattern does not compile.
///
/// Claimed: the outcome is a function of the pattern and the text alone, named by
/// [`regex_finds`]; what it is is not stated.
#[verifier::external_body]
fn regex_is_match(pattern: &str, haystack: &str) -> (r: Option<bool>)
    ensures
        r == regex_finds(pattern@, haystack@),
{
    match regex::Regex::new(pattern) {
        Ok(re) => Some(re.is_match(haystack)),
        Err(_) => None,
    }
}

/// The pattern of a multi-line match: `(?m)` before the given one, so that `^` and `$`
/// match at the start and end of each line.
pub open spec fn multi_line(pattern: Seq<char>) -> Seq<char> {
    "(?m)"@ + pattern
}

/// Whether the regular expression `(?m)<pattern>` matches somewhere in `left`; `None` where
/// it is not a valid regular expression.
pub fn contains_match(left: &str, pattern: &str) -> (r: Option<bool>)
    ensures
        r == regex_finds(multi_line(pattern@), left@),
{
    let mut full = String::new();
    push_str(&mut full, "(?m)");
    push_str(&mut full, pattern);
    regex_is_match(full.as_str(), left)
}

/// Whether the regular expression `(?m)<pattern>` matches nowhere in `left`; `None` where
/// it is not a valid regular expression.
pub fn not_contains_match(left: &str, pattern: &str) -> (r: Option<bool>)
    ensures
        match regex_finds(multi_line(pattern@), left@) {
            Some(b) => r == Some(!b),
            None => r is None,
        },
{
    match contains_match(left, pattern) {
        Some(b) => Some(!b),
        None => None,
    }
}

} // verus!
