//! The ID of a stack.
use crate::text::{is_alnum, push_str, str_chars};
use vstd::prelude::*;

verus! {

/// A character allowed in a stack ID: a letter, a digit, `.`, `/` or `-`.
pub open spec fn is_stack_id_char(c: char) -> bool {
    is_alnum(c) || c == '.' || c == '/' || c == '-'
}

/// A valid stack ID: one or more of the allowed characters, or exactly `*`.
pub open spec fn valid_stack_id(s: Seq<char>) -> bool {
    ||| s.len() > 0 && forall|i: int| 0 <= i < s.len() ==> #[trigger] is_stack_id_char(s[i])
    ||| s == seq!['*']
}

/// Every non-empty string made only of ASCII letters, digits, `.`, `/` and `-` is a valid
/// stack ID, and so is `*`; a string with any other character, other than `*` alone, is not.
pub proof fn lemma_stack_id_alphabet(s: Seq<char>)
    ensures
        (s.len() > 0 && forall|i: int|
            0 <= i < s.len() ==> {
                let c = #[trigger] s[i];
                ('a' <= c && c <= 'z') || ('A' <= c && c <= 'Z') || ('0' <= c && c <= '9') || c == '.'
                    || c == '/' || c == '-'
            }) ==> valid_stack_id(s),
        s == seq!['*'] ==> valid_stack_id(s),
        (s != seq!['*'] && exists|i: int|
            0 <= i < s.len() && {
                let c = #[trigger] s[i];
                !(('a' <= c && c <= 'z') || ('A' <= c && c <= 'Z') || ('0' <= c && c <= '9') || c == '.'
                    || c == '/' || c == '-')
            }) ==> !valid_stack_id(s),
        s.len() == 0 ==> !valid_stack_id(s),
{
    if exists|i: int|
        0 <= i < s.len() && {
            let c = #[trigger] s[i];
            !(('a' <= c && c <= 'z') || ('A' <= c && c <= 'Z') || ('0' <= c && c <= '9') || c == '.'
                || c == '/' || c == '-')
        } {
        let i = choose|i: int|
            0 <= i < s.len() && {
                let c = #[trigger] s[i];
                !(('a' <= c && c <= 'z') || ('A' <= c && c <= 'Z') || ('0' <= c && c <= '9') || c == '.'
                    || c == '/' || c == '-')
            };
        assert(!is_stack_id_char(s[i]));
    }
}

/// Whether `value` is a valid stack ID.
pub fn is_valid_stack_id(value: &str) -> (r: bool)
    ensures
        r == valid_stack_id(value@),
{
    let cs = str_chars(value);
    if cs.len() == 1 && cs[0] == '*' {
        assert(cs@ =~= seq!['*']);
        return true;
    }
    if cs.len() == 0 {
        return false;
    }
    assert(cs@ != seq!['*']) by {
        if cs@ == seq!['*'] {
            assert(cs@[0] == '*');
        }
    }
    let mut i: usize = 0;
    while i < cs.len()
        invariant
            0 <= i <= cs.len(),
            cs@ == value@,
            cs@ != seq!['*'],
            forall|k: int| 0 <= k < i ==> #[trigger] is_stack_id_char(cs@[k]),
        decreases cs.len() - i,
    {
        let c = cs[i];
        if !(('0' <= c && c <= '9') || ('a' <= c && c <= 'z') || ('A' <= c && c <= 'Z') || c == '.'
            || c == '/' || c == '-') {
            assert(!is_stack_id_char(cs@[i as int]));
            return false;
        }
        i += 1;
    }
    true
}

/// Stack Id. It MUST only contain numbers, letters, and the characters `.`, `/`, and `-`,
/// or be `*`.
#[derive(Debug, PartialEq, Eq, Hash, PartialOrd, Ord)]
pub struct StackId(String);

/// The error of parsing a [`StackId`]: the rejected value.
#[derive(Debug, Clone, PartialEq, Eq)]
pub enum StackIdError {
    InvalidStackId(String),
}

impl View for StackId {
    type V = Seq<char>;

    closed spec fn view(&self) -> Seq<char> {
        self.0@
    }
}

impl Clone for StackId {
    fn clone(&self) -> (r: Self)
        ensures
            r@ == self@,
    {
        proof {
            use_type_invariant(self);
        }
        StackId(self.0.clone())
    }
}

impl StackId {
    #[verifier::type_invariant]
    spec fn well_formed(&self) -> bool {
        valid_stack_id(self.0@)
    }

    /// Parses a stack ID, accepting exactly the valid ones.
    pub fn from_str(value: &str) -> (r: Result<StackId, StackIdError>)
        ensures
            valid_stack_id(value@) <==> r is Ok,
            r matches Ok(id) ==> id@ == value@,
            r matches Err(StackIdError::InvalidStackId(v)) ==> v@ == value@,
    {
        if is_valid_stack_id(value) {
            Ok(StackId(value.to_owned()))
        } else {
            Err(StackIdError::InvalidStackId(value.to_owned()))
        }
    }

    /// The ID as a string slice.
    pub fn as_str(&self) -> (r: &str)
        ensures
            r@ == self@,
            valid_stack_id(self@),
    {
        proof {
            use_type_invariant(self);
        }
        self.0.as_str()
    }
}

impl StackIdError {
    /// The message of this error.
    pub fn to_string(&self) -> (r: String)
        ensures
            r@ == (match self {
                StackIdError::InvalidStackId(v) => "Found `"@ + v@
                    + "` but value MUST only contain numbers, letters, and the characters `.`, `/`, and `-`. or only `*`"@,
            }),
    {
        match self {
            StackIdError::InvalidStackId(v) => {
                let mut s = String::new();
                push_str(&mut s, "Found `");
                push_str(&mut s, v.as_str());
                push_str(
                    &mut s,
                    "` but value MUST only contain numbers, letters, and the characters `.`, `/`, and `-`. or only `*`",
                );
                s
            },
        }
    }
}

} // verus!
