//! URI references, as far as the package descriptors of this crate read them.
use uriparse::URIReference;
use vstd::prelude::*;

verus! {

/// What parsing `text` as a URI reference gives, when it is one: its scheme, if any; its
/// path; whether it is a relative path reference; and its text as the parser writes it back.
pub uninterp spec fn uri_reference_parts(text: Seq<char>) -> Option<(Option<Seq<char>>, Seq<char>, bool, Seq<char>)>;

/// A parsed URI reference.
#[derive(Debug, PartialEq, Eq)]
pub struct UriReference {
    scheme: Option<String>,
    path: String,
    relative_path_reference: bool,
    text: String,
}

/// Parses `text` as a URI reference (`uriparse::URIReference::try_from`), reading back its
/// scheme, its path, whether it is a relative path reference and its written form.
///
/// Claimed: the outcome is a function of the text alone, named by [`uri_reference_parts`];
/// as the source shows, a relative path reference has no scheme. Which texts parse, and
/// into what, is not stated.
#[verifier::external_body]
fn parse_uri_reference(text: &str) -> (r: Option<UriReference>)
    ensures
        match uri_reference_parts(text@) {
            Some(parts) => r matches Some(u) && u.parts() == parts,
            None => r is None,
        },
        r matches Some(u) ==> (u.relative_path_reference ==> u.scheme is None),
{
    match URIReference::try_from(text) {
        Ok(u) => Some(UriReference {
            scheme: u.scheme().map(|s| s.as_str().to_string()),
            path: u.path().to_string(),
            relative_path_reference: u.is_relative_path_reference(),
            text: u.to_string(),
        }),
        Err(_) => None,
    }
}

impl Clone for UriReference {
    fn clone(&self) -> (r: Self)
        ensures
            r.parts() == self.parts(),
    {
        let scheme = match &self.scheme {
            Some(s) => Some(s.clone()),
            None => None,
        };
        UriReference {
            scheme,
            path: self.path.clone(),
            relative_path_reference: self.relative_path_reference,
            text: self.text.clone(),
        }
    }
}

impl UriReference {
    /// The scheme, path, relative-path flag and text of the reference.
    pub closed spec fn parts(&self) -> (Option<Seq<char>>, Seq<char>, bool, Seq<char>) {
        (
            match self.scheme {
                Some(s) => Some(s@),
                None => None,
            },
            self.path@,
            self.relative_path_reference,
            self.text@,
        )
    }

    /// Parses a URI reference.
    pub fn parse(text: &str) -> (r: Option<UriReference>)
        ensures
            match uri_reference_parts(text@) {
                Some(parts) => r matches Some(u) && u.parts() == parts,
                None => r is None,
            },
    {
        parse_uri_reference(text)
    }

    /// The scheme, if there is one.
    pub fn scheme(&self) -> (r: Option<&str>)
        ensures
            match self.parts().0 {
                Some(s) => r matches Some(x) && x@ == s,
                None => r is None,
            },
    {
        match &self.scheme {
            Some(s) => Some(s.as_str()),
            None => None,
        }
    }

    /// The path.
    pub fn path(&self) -> (r: &str)
        ensures
            r@ == self.parts().1,
    {
        self.path.as_str()
    }

    /// Whether the reference is a relative path reference: no scheme, no authority, and a
    /// path that does not start with `/`.
    pub fn is_relative_path_reference(&self) -> (r: bool)
        ensures
            r == self.parts().2,
    {
        self.relative_path_reference
    }

    /// The reference written out.
    pub fn to_string(&self) -> (r: String)
        ensures
            r@ == self.parts().3,
    {
        self.text.clone()
    }
}

} // verus!
