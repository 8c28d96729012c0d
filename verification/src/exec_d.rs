//! The output of an exec.d program: environment variables keyed by validated names.
use crate::text::{push_str, str_chars};
use std::collections::HashMap;
use vstd::prelude::*;

verus! {

/// A character allowed in an exec.d output key: an ASCII letter, a digit, `_` or `-`.
pub open spec fn is_exec_d_key_char(c: char) -> bool {
    ('0' <= c && c <= '9') || ('a' <= c && c <= 'z') || ('A' <= c && c <= 'Z') || c == '_' || c
        == '-'
}

/// A valid exec.d output key: one or more of the allowed characters.
pub open spec fn valid_exec_d_key(s: Seq<char>) -> bool {
    &&& s.len() > 0
    &&& forall|i: int| 0 <= i < s.len() ==> #[trigger] is_exec_d_key_char(s[i])
}

/// Whether `value` is a valid exec.d output key.
pub fn is_valid_exec_d_key(value: &str) -> (r: bool)
    ensures
        r == valid_exec_d_key(value@),
{
    let cs = str_chars(value);
    if cs.len() == 0 {
        return false;
    }
    let mut i: usize = 0;
    while i < cs.len()
        invariant
            0 <= i <= cs.len(),
            cs@ == value@,
            forall|k: int| 0 <= k < i ==> #[trigger] is_exec_d_key_char(cs@[k]),
        decreases cs.len() - i,
    {
        let c = cs[i];
        if !(('0' <= c && c <= '9') || ('a' <= c && c <= 'z') || ('A' <= c && c <= 'Z') || c == '_'
            || c == '-') {
            assert(!is_exec_d_key_char(cs@[i as int]));
            return false;
        }
        i += 1;
    }
    true
}

/// A key of exec.d program output.
///
/// It MUST only contain numbers, letters, and the characters `_` and `-`.
#[derive(Debug, PartialEq, Eq, Hash, PartialOrd, Ord)]
pub struct ExecDProgramOutputKey(String);

/// The error of parsing an [`ExecDProgramOutputKey`]: the rejected value.
#[derive(Debug, Clone, PartialEq, Eq)]
pub enum ExecDProgramOutputKeyError {
    InvalidValue(String),
}

impl View for ExecDProgramOutputKey {
    type V = Seq<char>;

    closed spec fn view(&self) -> Seq<char> {
        self.0@
    }
}

impl Clone for ExecDProgramOutputKey {
    fn clone(&self) -> (r: Self)
        ensures
            r@ == self@,
    {
        proof {
            use_type_invariant(self);
        }
        ExecDProgramOutputKey(self.0.clone())
    }
}

impl ExecDProgramOutputKey {
    #[verifier::type_invariant]
    spec fn well_formed(&self) -> bool {
        valid_exec_d_key(self.0@)
    }

    /// Parses a key, accepting exactly the valid ones.
    pub fn from_str(value: &str) -> (r: Result<ExecDProgramOutputKey, ExecDProgramOutputKeyError>)
        ensures
            valid_exec_d_key(value@) <==> r is Ok,
            r matches Ok(k) ==> k@ == value@,
            r matches Err(ExecDProgramOutputKeyError::InvalidValue(v)) ==> v@ == value@,
    {
        if is_valid_exec_d_key(value) {
            Ok(ExecDProgramOutputKey(value.to_owned()))
        } else {
            Err(ExecDProgramOutputKeyError::InvalidValue(value.to_owned()))
        }
    }

    /// The key as a string slice.
    pub fn as_str(&self) -> (r: &str)
        ensures
            r@ == self@,
            valid_exec_d_key(self@),
    {
        proof {
            use_type_invariant(self);
        }
        self.0.as_str()
    }
}

impl ExecDProgramOutputKeyError {
    /// The message of this error: `Invalid Value: <value>`.
    pub fn to_string(&self) -> (r: String)
        ensures
            r@ == (match self {
                ExecDProgramOutputKeyError::InvalidValue(v) => "Invalid Value: "@ + v@,
            }),
    {
        match self {
            ExecDProgramOutputKeyError::InvalidValue(v) => {
                let mut s = String::new();
                push_str(&mut s, "Invalid Value: ");
                push_str(&mut s, v.as_str());
                s
            },
        }
    }
}

/// The output of an exec.d program: values of environment variables by key.
#[derive(Clone)]
pub struct ExecDProgramOutput(pub HashMap<ExecDProgramOutputKey, String>);

impl ExecDProgramOutput {
    /// Output holding the given map.
    pub fn new(map: HashMap<ExecDProgramOutputKey, String>) -> (r: Self)
        ensures
            r.0 == map,
    {
        ExecDProgramOutput(map)
    }
}

} // verus!
