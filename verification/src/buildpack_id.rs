//! The ID of a buildpack.
use crate::text::{is_alnum, push_str, str_chars, str_eq};
use vstd::prelude::*;

verus! {

/// A character allowed in a buildpack ID: a letter, a digit, `.`, `/` or `-`.
pub open spec fn is_buildpack_id_char(c: char) -> bool {
    is_alnum(c) || c == '.' || c == '/' || c == '-'
}

/// A valid buildpack ID: one or more of the allowed characters, and neither `app` nor `config`.
pub open spec fn valid_buildpack_id(s: Seq<char>) -> bool {
    &&& s.len() > 0
    &&& forall|i: int| 0 <= i < s.len() ==> #[trigger] is_buildpack_id_char(s[i])
    &&& s != "app"@
    &&& s != "config"@
}

/// Every non-empty string made only of ASCII letters, digits, `.`, `/` and `-` is a valid
/// buildpack ID, except `app` and `config`; and a string with any other character, or the
/// empty string, is not.
pub proof fn lemma_buildpack_id_alphabet(s: Seq<char>)
    ensures
        (s.len() > 0 && s != "app"@ && s != "config"@ && forall|i: int|
            0 <= i < s.len() ==> {
                let c = #[trigger] s[i];
                ('a' <= c && c <= 'z') || ('A' <= c && c <= 'Z') || ('0' <= c && c <= '9') || c == '.'
                    || c == '/' || c == '-'
            }) ==> valid_buildpack_id(s),
        (exists|i: int|
            0 <= i < s.len() && {
                let c = #[trigger] s[i];
                !(('a' <= c && c <= 'z') || ('A' <= c && c <= 'Z') || ('0' <= c && c <= '9') || c == '.'
                    || c == '/' || c == '-')
            }) ==> !valid_buildpack_id(s),
        s.len() == 0 ==> !valid_buildpack_id(s),
{
    if exists|i: int|
        0 <= i < s.len() && {
            let c = #[trigger] s[i];
            !(('a' <= c && c <= 'z') || ('A' <= c && c <= 'Z') || ('0' <= c && c <= '9') || c == '.'
                || c == '/' || c == '-')
        } {
        let i = choose|i: int|
            0 <= i < s.len() && {
                let c = #[trigger] s[i];
                !(('a' <= c && c <= 'z') || ('A' <= c && c <= 'Z') || ('0' <= c && c <= '9') || c == '.'
                    || c == '/' || c == '-')
            };
        assert(!is_buildpack_id_char(s[i]));
    }
}

/// Whether `c` is allowed in a buildpack ID.
pub fn buildpack_id_char(c: char) -> (r: bool)
    ensures
        r == is_buildpack_id_char(c),
{
    ('0' <= c && c <= '9') || ('a' <= c && c <= 'z') || ('A' <= c && c <= 'Z') || c == '.' || c
        == '/' || c == '-'
}

/// Whether `value` is a valid buildpack ID.
pub fn is_valid_buildpack_id(value: &str) -> (r: bool)
    ensures
        r == valid_buildpack_id(value@),
{
    let cs = str_chars(value);
    if cs.len() == 0 {
        return false;
    }
    let mut i: usize = 0;
    while i < cs.len()
        invariant
            0 <= i <= cs.len(),
            cs@ == value@,
            forall|k: int| 0 <= k < i ==> #[trigger] is_buildpack_id_char(cs@[k]),
        decreases cs.len() - i,
    {
        if !buildpack_id_char(cs[i]) {
            return false;
        }
        i += 1;
    }
    !str_eq(value, "app") && !str_eq(value, "config")
}

/// The ID of a buildpack.
///
/// It MUST only contain numbers, letters, and the characters `.`, `/`, and `-`.
/// It also MUST NOT be `config` or `app`.
#[derive(Debug, PartialEq, Eq, Hash, PartialOrd, Ord)]
pub struct BuildpackId(String);

/// The error of parsing a [`BuildpackId`]: the rejected value.
#[derive(Debug, Clone, PartialEq, Eq)]
pub enum BuildpackIdError {
    InvalidValue(String),
}

impl View for BuildpackId {
    type V = Seq<char>;

    closed spec fn view(&self) -> Seq<char> {
        self.0@
    }
}

impl Clone for BuildpackId {
    fn clone(&self) -> (r: Self)
        ensures
            r@ == self@,
    {
        proof {
            use_type_invariant(self);
        }
        BuildpackId(self.0.clone())
    }
}

impl BuildpackId {
    #[verifier::type_invariant]
    spec fn well_formed(&self) -> bool {
        valid_buildpack_id(self.0@)
    }

    /// Parses a buildpack ID, accepting exactly the valid ones.
    pub fn from_str(value: &str) -> (r: Result<BuildpackId, BuildpackIdError>)
        ensures
            valid_buildpack_id(value@) <==> r is Ok,
            r matches Ok(id) ==> id@ == value@,
            r matches Err(BuildpackIdError::InvalidValue(v)) ==> v@ == value@,
    {
        if is_valid_buildpack_id(value) {
            Ok(BuildpackId(value.to_owned()))
        } else {
            Err(BuildpackIdError::InvalidValue(value.to_owned()))
        }
    }

    /// The ID as a string slice.
    pub fn as_str(&self) -> (r: &str)
        ensures
            r@ == self@,
            valid_buildpack_id(self@),
    {
        proof {
            use_type_invariant(self);
        }
        self.0.as_str()
    }

    /// The ID as a `String`.
    pub fn to_string(&self) -> (r: String)
        ensures
            r@ == self@,
            valid_buildpack_id(r@),
    {
        proof {
            use_type_invariant(self);
        }
        self.0.clone()
    }

    /// Whether two IDs are the same.
    pub fn same_as(&self, other: &BuildpackId) -> (r: bool)
        ensures
            r == (self@ == other@),
    {
        self.0 == other.0
    }
}

impl BuildpackIdError {
    /// The message of this error: `Invalid Value: <value>`.
    pub fn to_string(&self) -> (r: String)
        ensures
            r@ == (match self {
                BuildpackIdError::InvalidValue(v) => "Invalid Value: "@ + v@,
            }),
    {
        match self {
            BuildpackIdError::InvalidValue(v) => {
                let mut s = String::new();
                push_str(&mut s, "Invalid Value: ");
                push_str(&mut s, v.as_str());
                s
            },
        }
    }
}

} // verus!
