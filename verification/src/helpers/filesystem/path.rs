//! Joining of path texts.

use crate::text::{append_text, chars_of};
use vstd::prelude::*;

verus! {

/// `file` adjoined to `base`: an absolute `file` replaces `base`; otherwise
/// the two are put together, with one `/` between them unless `base` is
/// empty or already ends in one.
pub open spec fn joined_path(base: Seq<char>, file: Seq<char>) -> Seq<char> {
    if file.len() > 0 && file.first() == '/' {
        file
    } else if base.len() > 0 && base.last() != '/' {
        base + seq!['/'] + file
    } else {
        base + file
    }
}

/// Appends a file or directory name to a base path.
pub fn append_path(base_path: &str, file: &str) -> (joined: String)
    ensures
        joined@ == joined_path(base_path@, file@),
{
    let base = chars_of(base_path);
    let name = chars_of(file);
    let mut joined = String::new();
    if name.len() > 0 && name[0] == '/' {
        append_text(&mut joined, file);
    } else {
        append_text(&mut joined, base_path);
        if base.len() > 0 && base[base.len() - 1] != '/' {
            joined.push('/');
        }
        append_text(&mut joined, file);
    }
    joined
}

} // verus!
