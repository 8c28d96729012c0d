//! The buildpack version: `<X>.<Y>.<Z>` with non-negative integers and no leading zeros.
use crate::api::find_char;
use crate::text::{
    all_digits, decimal, digits_value, lemma_decimal_shape, lemma_decimal_value, lemma_digits_canonical,
    parse_digits,
    push_char, push_decimal, push_str, str_chars,
};
use vstd::prelude::*;

verus! {

/// The number written by one dot-separated part of a version.
///
/// A part is `0`, or a nonzero digit followed by digits, with no sign, whose value fits in
/// an unsigned 64-bit number.
pub open spec fn version_part(p: Seq<char>) -> Option<u64> {
    if p.len() > 1 && p[0] == '0' {
        None
    } else if p.len() > 0 && all_digits(p) && digits_value(p) <= u64::MAX {
        Some(digits_value(p) as u64)
    } else {
        None
    }
}

/// `s` holds exactly two dots, at positions `i < j`.
pub open spec fn two_dots(s: Seq<char>, i: int, j: int) -> bool {
    &&& 0 <= i < j < s.len()
    &&& s[i] == '.'
    &&& s[j] == '.'
    &&& forall|k: int| 0 <= k < s.len() && k != i && k != j ==> s[k] != '.'
}

/// The version written by `s`: three dot-separated parts, each a valid part.
pub open spec fn version_of(s: Seq<char>) -> Option<(u64, u64, u64)> {
    if exists|i: int, j: int| two_dots(s, i, j) {
        let (i, j) = choose|i: int, j: int| two_dots(s, i, j);
        match (
            version_part(s.take(i)),
            version_part(s.subrange(i + 1, j)),
            version_part(s.skip(j + 1)),
        ) {
            (Some(a), Some(b), Some(c)) => Some((a, b, c)),
            _ => None,
        }
    } else {
        None
    }
}

/// The text of a version: `<major>.<minor>.<patch>`.
pub open spec fn version_text(major: u64, minor: u64, patch: u64) -> Seq<char> {
    decimal(major as nat) + seq!['.'] + decimal(minor as nat) + seq!['.'] + decimal(patch as nat)
}

/// A string holds its two dots at one place only.
pub proof fn lemma_two_dots_unique(s: Seq<char>, i1: int, j1: int, i2: int, j2: int)
    requires
        two_dots(s, i1, j1),
        two_dots(s, i2, j2),
    ensures
        i1 == i2 && j1 == j2,
{
}

/// The Buildpack version.
///
/// This MUST be in the form `<X>.<Y>.<Z>` where `X`, `Y`, and `Z` are non-negative integers
/// and must not contain leading zeros.
#[derive(Debug, Clone, Copy, PartialEq, Eq, Structural)]
pub struct BuildpackVersion {
    pub major: u64,
    pub minor: u64,
    pub patch: u64,
}

/// The error of parsing a [`BuildpackVersion`]: the rejected value.
#[derive(Debug, Clone, PartialEq, Eq)]
pub enum BuildpackVersionError {
    InvalidBuildpackVersion(String),
}

/// Reads one part `cs[from..to]` of a version.
fn parse_part(cs: &Vec<char>, from: usize, to: usize) -> (r: Option<u64>)
    requires
        from <= to <= cs.len(),
    ensures
        r == version_part(cs@.subrange(from as int, to as int)),
{
    let ghost p = cs@.subrange(from as int, to as int);
    if to - from > 1 && cs[from] == '0' {
        assert(p[0] == '0');
        return None;
    }
    parse_digits(cs, from, to, u64::MAX)
}

/// Reads a version string.
fn parse_version(value: &str) -> (r: Option<(u64, u64, u64)>)
    ensures
        r == version_of(value@),
{
    let cs = str_chars(value);
    let ghost s = cs@;
    let i = match find_char(&cs, '.', 0) {
        Some(i) => i,
        None => {
            assert forall|i: int, j: int| !two_dots(s, i, j) by {
                if two_dots(s, i, j) {
                    assert(s[i] == '.');
                }
            }
            return None;
        },
    };
    let j = match find_char(&cs, '.', i + 1) {
        Some(j) => j,
        None => {
            assert forall|i2: int, j2: int| !two_dots(s, i2, j2) by {
                if two_dots(s, i2, j2) {
                    assert(s[j2] == '.');
                    assert(s[i2] == '.');
                }
            }
            return None;
        },
    };
    if j + 1 > cs.len() {
        return None;
    }
    match find_char(&cs, '.', j + 1) {
        Some(k) => {
            assert forall|i2: int, j2: int| !two_dots(s, i2, j2) by {
                if two_dots(s, i2, j2) {
                    assert(s[k as int] == '.');
                    assert(s[j as int] == '.');
                    assert(s[i as int] == '.');
                }
            }
            None
        },
        None => {
            assert(two_dots(s, i as int, j as int));
            proof {
                let (i2, j2) = choose|i2: int, j2: int| two_dots(s, i2, j2);
                lemma_two_dots_unique(s, i as int, j as int, i2, j2);
                assert(s.take(i as int) == cs@.subrange(0, i as int));
                assert(s.skip(j + 1) == cs@.subrange(j + 1, cs.len() as int));
            }
            let a = parse_part(&cs, 0, i);
            let b = parse_part(&cs, i + 1, j);
            let c = parse_part(&cs, j + 1, cs.len());
            match (a, b, c) {
                (Some(a), Some(b), Some(c)) => Some((a, b, c)),
                _ => None,
            }
        },
    }
}

impl BuildpackVersion {
    /// A version from its three numbers.
    pub fn new(major: u64, minor: u64, patch: u64) -> (r: Self)
        ensures
            r.major == major,
            r.minor == minor,
            r.patch == patch,
    {
        BuildpackVersion { major, minor, patch }
    }

    /// Parses a version of the form `<X>.<Y>.<Z>`.
    pub fn try_from(value: String) -> (r: Result<Self, BuildpackVersionError>)
        ensures
            match r {
                Ok(v) => version_of(value@) == Some((v.major, v.minor, v.patch)) && version_text(
                    v.major,
                    v.minor,
                    v.patch,
                ) == value@,
                Err(BuildpackVersionError::InvalidBuildpackVersion(v)) => version_of(value@) is None
                    && v@ == value@,
            },
    {
        match parse_version(value.as_str()) {
            Some((a, b, c)) => {
                proof {
                    lemma_version_parse_canonical(value@);
                }
                Ok(Self::new(a, b, c))
            },
            None => Err(BuildpackVersionError::InvalidBuildpackVersion(value)),
        }
    }

    /// The text `<major>.<minor>.<patch>` of this version.
    pub fn to_string(&self) -> (r: String)
        ensures
            r@ == version_text(self.major, self.minor, self.patch),
    {
        let mut s = String::new();
        push_decimal(&mut s, self.major);
        push_char(&mut s, '.');
        push_decimal(&mut s, self.minor);
        push_char(&mut s, '.');
        push_decimal(&mut s, self.patch);
        s
    }
}

impl BuildpackVersionError {
    /// The message of this error: ``Invalid buildpack version: `<value>` ``.
    pub fn to_string(&self) -> (r: String)
        ensures
            r@ == (match self {
                BuildpackVersionError::InvalidBuildpackVersion(v) => "Invalid buildpack version: `"@
                    + v@ + "`"@,
            }),
    {
        match self {
            BuildpackVersionError::InvalidBuildpackVersion(v) => {
                let mut s = String::new();
                push_str(&mut s, "Invalid buildpack version: `");
                push_str(&mut s, v.as_str());
                push_str(&mut s, "`");
                s
            },
        }
    }
}

/// A canonical numeral is accepted as a version part and reads back as its number.
pub proof fn lemma_decimal_is_version_part(n: u64)
    ensures
        version_part(decimal(n as nat)) == Some(n),
{
    lemma_decimal_shape(n as nat);
    lemma_decimal_value(n as nat);
    let p = decimal(n as nat);
    if p.len() > 1 {
        assert(n >= 10);
    }
}

/// A part that is accepted is the numeral of the number it reads as.
pub proof fn lemma_version_part_canonical(p: Seq<char>)
    requires
        version_part(p) is Some,
    ensures
        decimal(version_part(p)->0 as nat) == p,
{
    lemma_digits_canonical(p);
}

/// A version that is accepted is written exactly as its text: parsing and printing again
/// gives back the same string.
pub proof fn lemma_version_parse_canonical(s: Seq<char>)
    requires
        version_of(s) is Some,
    ensures
        version_of(s) matches Some((x, y, z)) && version_text(x, y, z) == s,
{
    let (i, j) = choose|i: int, j: int| two_dots(s, i, j);
    let a = s.take(i);
    let b = s.subrange(i + 1, j);
    let c = s.skip(j + 1);
    lemma_version_part_canonical(a);
    lemma_version_part_canonical(b);
    lemma_version_part_canonical(c);
    assert(s =~= a + seq!['.'] + b + seq!['.'] + c);
}

/// Reading back the text of a version gives that version.
pub proof fn lemma_version_text_roundtrip(major: u64, minor: u64, patch: u64)
    ensures
        version_of(version_text(major, minor, patch)) == Some((major, minor, patch)),
{
    let a = decimal(major as nat);
    let b = decimal(minor as nat);
    let c = decimal(patch as nat);
    let s = version_text(major, minor, patch);
    lemma_decimal_shape(major as nat);
    lemma_decimal_shape(minor as nat);
    lemma_decimal_shape(patch as nat);
    lemma_decimal_is_version_part(major);
    lemma_decimal_is_version_part(minor);
    lemma_decimal_is_version_part(patch);
    let i = a.len() as int;
    let j = (a.len() + 1 + b.len()) as int;
    assert(s[i] == '.');
    assert(s[j] == '.');
    assert forall|k: int| 0 <= k < s.len() && k != i && k != j implies s[k] != '.' by {
        if k < i {
            assert(s[k] == a[k]);
        } else if k < j {
            assert(s[k] == b[k - i - 1]);
        } else {
            assert(s[k] == c[k - j - 1]);
        }
    }
    assert(two_dots(s, i, j));
    let (i2, j2) = choose|i2: int, j2: int| two_dots(s, i2, j2);
    lemma_two_dots_unique(s, i, j, i2, j2);
    assert(s.take(i) == a);
    assert(s.subrange(i + 1, j) == b);
    assert(s.skip(j + 1) == c);
}

} // verus!
