//! The name of a layer.
use crate::text::{push_str, str_chars, str_eq};
use vstd::prelude::*;

verus! {

/// A valid layer name: one or more characters other than a line feed, and none of
/// `build`, `launch` or `store`.
pub open spec fn valid_layer_name(s: Seq<char>) -> bool {
    &&& s.len() > 0
    &&& forall|i: int| 0 <= i < s.len() ==> #[trigger] s[i] != '\n'
    &&& s != "build"@
    &&& s != "launch"@
    &&& s != "store"@
}

/// Whether `value` is a valid layer name.
pub fn is_valid_layer_name(value: &str) -> (r: bool)
    ensures
        r == valid_layer_name(value@),
{
    let cs = str_chars(value);
    if cs.len() == 0 {
        return false;
    }
    let mut i: usize = 0;
    while i < cs.len()
        invariant
            0 <= i <= cs.len(),
            cs@ == value@,
            forall|k: int| 0 <= k < i ==> #[trigger] cs@[k] != '\n',
        decreases cs.len() - i,
    {
        if cs[i] == '\n' {
            return false;
        }
        i += 1;
    }
    !str_eq(value, "build") && !str_eq(value, "launch") && !str_eq(value, "store")
}

/// The name of a layer.
///
/// It can contain all characters supported by the filesystem, but MUST NOT be either `build`,
/// `launch` or `store`.
#[derive(Debug, PartialEq, Eq, Hash, PartialOrd, Ord)]
pub struct LayerName(String);

/// The error of parsing a [`LayerName`]: the rejected value.
#[derive(Debug, Clone, PartialEq, Eq)]
pub enum LayerNameError {
    InvalidValue(String),
}

impl View for LayerName {
    type V = Seq<char>;

    closed spec fn view(&self) -> Seq<char> {
        self.0@
    }
}

impl Clone for LayerName {
    fn clone(&self) -> (r: Self)
        ensures
            r@ == self@,
    {
        proof {
            use_type_invariant(self);
        }
        LayerName(self.0.clone())
    }
}

impl LayerName {
    #[verifier::type_invariant]
    spec fn well_formed(&self) -> bool {
        valid_layer_name(self.0@)
    }

    /// Parses a layer name, accepting exactly the valid ones.
    pub fn from_str(value: &str) -> (r: Result<LayerName, LayerNameError>)
        ensures
            valid_layer_name(value@) <==> r is Ok,
            r matches Ok(n) ==> n@ == value@,
            r matches Err(LayerNameError::InvalidValue(v)) ==> v@ == value@,
    {
        if is_valid_layer_name(value) {
            Ok(LayerName(value.to_owned()))
        } else {
            Err(LayerNameError::InvalidValue(value.to_owned()))
        }
    }

    /// The name as a string slice.
    pub fn as_str(&self) -> (r: &str)
        ensures
            r@ == self@,
            valid_layer_name(self@),
    {
        proof {
            use_type_invariant(self);
        }
        self.0.as_str()
    }

    /// The name as a `String`.
    pub fn to_string(&self) -> (r: String)
        ensures
            r@ == self@,
            valid_layer_name(r@),
    {
        proof {
            use_type_invariant(self);
        }
        self.0.clone()
    }
}

impl LayerNameError {
    /// The message of this error: `Invalid Value: <value>`.
    pub fn to_string(&self) -> (r: String)
        ensures
            r@ == (match self {
                LayerNameError::InvalidValue(v) => "Invalid Value: "@ + v@,
            }),
    {
        match self {
            LayerNameError::InvalidValue(v) => {
                let mut s = String::new();
                push_str(&mut s, "Invalid Value: ");
                push_str(&mut s, v.as_str());
                s
            },
        }
    }
}

} // verus!
