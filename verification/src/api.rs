//! The Buildpack API version: `<major>.<minor>` or `<major>`, where `<major>` means `<major>.0`.
use crate::buildpack_toml::BuildpackTomlError;
use crate::text::{all_digits, decimal, digits_value, is_digit, lemma_decimal_shape, lemma_decimal_value, parse_digits, push_char, push_decimal, push_str, str_chars};
use vstd::prelude::*;

verus! {

/// `s` splits at position `k` into two non-empty digit strings around a `.`.
pub open spec fn dot_split_at(s: Seq<char>, k: int) -> bool {
    &&& 0 < k < s.len() - 1
    &&& s[k] == '.'
    &&& all_digits(s.take(k))
    &&& all_digits(s.skip(k + 1))
}

/// The numbers written by an API version string, before any range check:
/// `<digits>` gives `(digits, 0)` and `<digits>.<digits>` gives both numbers.
pub open spec fn api_numbers(s: Seq<char>) -> Option<(nat, nat)> {
    if s.len() > 0 && all_digits(s) {
        Some((digits_value(s), 0))
    } else if exists|k: int| dot_split_at(s, k) {
        let k = choose|k: int| dot_split_at(s, k);
        Some((digits_value(s.take(k)), digits_value(s.skip(k + 1))))
    } else {
        None
    }
}

/// The API version written by `s`, when its numbers fit in `u32`.
pub open spec fn api_of(s: Seq<char>) -> Option<(u32, u32)> {
    match api_numbers(s) {
        Some((major, minor)) => if major <= u32::MAX && minor <= u32::MAX {
            Some((major as u32, minor as u32))
        } else {
            None
        },
        None => None,
    }
}

/// The text of an API version: `<major>.<minor>`.
pub open spec fn api_text(major: u32, minor: u32) -> Seq<char> {
    decimal(major as nat) + seq!['.'] + decimal(minor as nat)
}

/// A string has at most one split position.
pub proof fn lemma_dot_split_unique(s: Seq<char>, k1: int, k2: int)
    requires
        dot_split_at(s, k1),
        dot_split_at(s, k2),
    ensures
        k1 == k2,
{
    if k1 < k2 {
        assert(s.take(k2)[k1] == s[k1]);
    } else if k2 < k1 {
        assert(s.take(k1)[k2] == s[k2]);
    }
}

/// The Buildpack API version.
///
/// This MUST be in form `<major>.<minor>` or `<major>`, where `<major>` is equivalent to `<major>.0`.
#[derive(Debug, Clone, Copy, PartialEq, Eq, Structural)]
pub struct BuildpackApi {
    pub major: u32,
    pub minor: u32,
}

/// The error of parsing a [`BuildpackApi`].
#[derive(Debug, Clone, PartialEq, Eq)]
pub enum BuildpackApiError {
    InvalidBuildpackApi(String),
}

impl BuildpackApiError {
    /// The message of this error.
    pub fn to_string(&self) -> (r: String)
        ensures
            r@ == (match self {
                BuildpackApiError::InvalidBuildpackApi(v) => invalid_api_message(v@),
            }),
    {
        match self {
            BuildpackApiError::InvalidBuildpackApi(v) => invalid_api_text(v.as_str()),
        }
    }
}

/// The message for a rejected API version.
pub open spec fn invalid_api_message(value: Seq<char>) -> Seq<char> {
    "Found `"@ + value
        + "` but value MUST be in the form `<major>.<minor>` or `<major>` and only contain numbers."@
}

/// Builds the message for a rejected API version.
pub fn invalid_api_text(value: &str) -> (r: String)
    ensures
        r@ == invalid_api_message(value@),
{
    let mut s = String::new();
    push_str(&mut s, "Found `");
    push_str(&mut s, value);
    push_str(
        &mut s,
        "` but value MUST be in the form `<major>.<minor>` or `<major>` and only contain numbers.",
    );
    s
}

/// The position of the first `c` in `cs[from..]`, if any.
pub fn find_char(cs: &Vec<char>, c: char, from: usize) -> (r: Option<usize>)
    requires
        from <= cs.len(),
    ensures
        match r {
            Some(k) => from <= k < cs.len() && cs@[k as int] == c && forall|m: int|
                from <= m < k ==> cs@[m] != c,
            None => forall|m: int| from <= m < cs.len() ==> cs@[m] != c,
        },
{
    let mut i: usize = from;
    while i < cs.len()
        invariant
            from <= i <= cs.len(),
            forall|m: int| from <= m < i ==> cs@[m] != c,
        decreases cs.len() - i,
    {
        if cs[i] == c {
            return Some(i);
        }
        i += 1;
    }
    None
}

/// Reads the numbers of an API version string.
fn parse_api(value: &str) -> (r: Option<(u32, u32)>)
    ensures
        r == api_of(value@),
{
    let cs = str_chars(value);
    let ghost s = cs@;
    match find_char(&cs, '.', 0) {
        None => {
            assert(cs@.subrange(0, cs.len() as int) == s);
            proof {
                assert forall|k: int| !dot_split_at(s, k) by {
                    if dot_split_at(s, k) {
                        assert(s[k] == '.');
                    }
                }
            }
            match parse_digits(&cs, 0, cs.len(), u32::MAX as u64) {
                Some(major) => Some((major as u32, 0)),
                None => None,
            }
        },
        Some(k) => {
            proof {
                assert(!all_digits(s)) by {
                    assert(s[k as int] == '.');
                }
                assert(s.take(k as int) == cs@.subrange(0, k as int));
                assert(s.skip(k + 1) == cs@.subrange(k + 1, cs.len() as int));
            }
            let major = parse_digits(&cs, 0, k, u32::MAX as u64);
            let minor = parse_digits(&cs, k + 1, cs.len(), u32::MAX as u64);
            match (major, minor) {
                (Some(a), Some(b)) => {
                    proof {
                        assert(dot_split_at(s, k as int));
                        let kk = choose|kk: int| dot_split_at(s, kk);
                        lemma_dot_split_unique(s, k as int, kk);
                    }
                    Some((a as u32, b as u32))
                },
                _ => {
                    proof {
                        if dot_split_at(s, k as int) {
                            let kk = choose|kk: int| dot_split_at(s, kk);
                            lemma_dot_split_unique(s, k as int, kk);
                        }
                        assert forall|j: int| #![auto] dot_split_at(s, j) implies j == k by {
                            if j > k {
                                assert(s.take(j)[k as int] == s[k as int]);
                            }
                        }
                    }
                    None
                },
            }
        },
    }
}

impl BuildpackApi {
    /// Parses an API version of the form `<major>.<minor>` or `<major>`.
    pub fn try_from(value: &str) -> (r: Result<BuildpackApi, BuildpackApiError>)
        ensures
            match r {
                Ok(api) => api_of(value@) == Some((api.major, api.minor)),
                Err(BuildpackApiError::InvalidBuildpackApi(v)) => api_of(value@) is None && v@
                    == value@,
            },
    {
        match parse_api(value) {
            Some((major, minor)) => Ok(BuildpackApi { major, minor }),
            None => Err(BuildpackApiError::InvalidBuildpackApi(value.to_owned())),
        }
    }

    /// Parses an API version of the form `<major>.<minor>` or `<major>`, reporting a failure
    /// as an error of the buildpack descriptor.
    pub fn from_str(value: &str) -> (r: Result<BuildpackApi, BuildpackTomlError>)
        ensures
            match r {
                Ok(api) => api_of(value@) == Some((api.major, api.minor)),
                Err(e) => api_of(value@) is None && (e matches BuildpackTomlError::InvalidBuildpackApi(v)
                    && v@ == value@),
            },
    {
        match parse_api(value) {
            Some((major, minor)) => Ok(BuildpackApi { major, minor }),
            None => Err(BuildpackTomlError::InvalidBuildpackApi(value.to_owned())),
        }
    }

    /// The text `<major>.<minor>` of this version.
    pub fn to_string(&self) -> (r: String)
        ensures
            r@ == api_text(self.major, self.minor),
    {
        let mut s = String::new();
        push_decimal(&mut s, self.major as u64);
        push_char(&mut s, '.');
        push_decimal(&mut s, self.minor as u64);
        assert(s@ == api_text(self.major, self.minor));
        s
    }
}

/// Reading back the text of an API version gives that version.
pub proof fn lemma_api_text_roundtrip(major: u32, minor: u32)
    ensures
        api_of(api_text(major, minor)) == Some((major, minor)),
{
    let a = decimal(major as nat);
    let b = decimal(minor as nat);
    let s = api_text(major, minor);
    lemma_decimal_shape(major as nat);
    lemma_decimal_shape(minor as nat);
    lemma_decimal_value(major as nat);
    lemma_decimal_value(minor as nat);
    let k = a.len() as int;
    assert(s.take(k) == a);
    assert(s.skip(k + 1) == b);
    assert(s[k] == '.');
    assert(dot_split_at(s, k));
    assert(!all_digits(s)) by {
        assert(!is_digit(s[k]));
    }
    let kk = choose|kk: int| dot_split_at(s, kk);
    lemma_dot_split_unique(s, k, kk);
}

} // verus!
