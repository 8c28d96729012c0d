//! Finding the root directory of a Cargo workspace from the output of
//! `cargo locate-project --workspace --message-format plain`.
use crate::normalize::{parent_of, path_parent};
use crate::text::str_chars;
use vstd::prelude::*;

verus! {

/// A character with the Unicode `White_Space` property (as `char::is_whitespace` tests).
pub open spec fn is_white_space(c: char) -> bool {
    ||| '\t' <= c <= '\r'
    ||| c == ' '
    ||| c == '\u{85}'
    ||| c == '\u{a0}'
    ||| c == '\u{1680}'
    ||| '\u{2000}' <= c <= '\u{200a}'
    ||| c == '\u{2028}'
    ||| c == '\u{2029}'
    ||| c == '\u{202f}'
    ||| c == '\u{205f}'
    ||| c == '\u{3000}'
}

/// `s` without its leading and trailing white space: the part from `start` to `end`.
pub open spec fn trimmed_at(s: Seq<char>, start: int, end: int) -> bool {
    &&& 0 <= start <= end <= s.len()
    &&& forall|i: int| 0 <= i < start ==> is_white_space(#[trigger] s[i])
    &&& forall|i: int| end <= i < s.len() ==> is_white_space(#[trigger] s[i])
    &&& start < end ==> !is_white_space(s[start]) && !is_white_space(s[end - 1])
}

/// Whether `c` has the Unicode `White_Space` property.
fn white_space(c: char) -> (r: bool)
    ensures
        r == is_white_space(c),
{
    ('\t' <= c && c <= '\r') || c == ' ' || c == '\u{85}' || c == '\u{a0}' || c == '\u{1680}' || ('\u{2000}'
        <= c && c <= '\u{200a}') || c == '\u{2028}' || c == '\u{2029}' || c == '\u{202f}' || c
        == '\u{205f}' || c == '\u{3000}'
}

/// `s` without leading and trailing white space (`str::trim`).
pub fn trim(s: &str) -> (r: String)
    ensures
        exists|start: int, end: int| trimmed_at(s@, start, end) && r@ == s@.subrange(start, end),
{
    let cs = str_chars(s);
    let mut start: usize = 0;
    while start < cs.len() && white_space(cs[start])
        invariant
            0 <= start <= cs@.len(),
            cs@ == s@,
            forall|i: int| 0 <= i < start ==> is_white_space(#[trigger] cs@[i]),
        decreases cs@.len() - start,
    {
        start += 1;
    }
    let mut end: usize = cs.len();
    while end > start && white_space(cs[end - 1])
        invariant
            start <= end <= cs@.len(),
            cs@ == s@,
            forall|i: int| end <= i < cs@.len() ==> is_white_space(#[trigger] cs@[i]),
        decreases end,
    {
        end -= 1;
    }
    let mut r = String::new();
    crate::text::push_chars(&mut r, &cs, start, end);
    assert(trimmed_at(s@, start as int, end as int));
    r
}

/// The root directory of the workspace, from the output of `cargo locate-project`: the
/// parent of the trimmed output, the path of the workspace's `Cargo.toml`. Fails with the
/// trimmed output where it has no parent.
pub fn workspace_root_from_locate_project(stdout: &str) -> (r: Result<String, String>)
    ensures
        exists|start: int, end: int| #![trigger trimmed_at(stdout@, start, end)]
            trimmed_at(stdout@, start, end) && match path_parent(stdout@.subrange(start, end)) {
                Some(p) => r matches Ok(x) && x@ == p,
                None => r matches Err(x) && x@ == stdout@.subrange(start, end),
            },
{
    let manifest = trim(stdout);
    match parent_of(manifest.as_str()) {
        Some(p) => Ok(p),
        None => Err(manifest),
    }
}

} // verus!
