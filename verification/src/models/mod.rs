//! The documents that the tool reads and writes.

pub mod app_config;
pub mod docker_compose;
pub mod project;
pub mod version;

use crate::text::append_text;
use vstd::prelude::*;

verus! {

/// The YAML document marker, with its line feed.
pub open spec fn document_marker() -> Seq<char> {
    seq!['-', '-', '-', '\n']
}

/// A serialized document as it is written to its file: the document marker
/// and then the body.
pub fn to_document(body: &str) -> (document: String)
    ensures
        document@ == document_marker() + body@,
{
    let mut document = String::new();
    proof {
        reveal_strlit("---\n");
        assert("---\n"@ =~= document_marker());
    }
    append_text(&mut document, "---\n");
    append_text(&mut document, body);
    document
}

} // verus!
