//! Resolution of project-relative paths, and the inventory entry built from
//! one of them.

use crate::models::app_config::AppConfigFile;
use crate::text::{append_text, chars_of};
use vstd::prelude::*;

verus! {

/// One declared submodule: where it should be, and whether it is there.
#[derive(Debug, PartialEq)]
pub struct SubmoduleEntry {
    /// `declared_path` resolved against the project root.
    pub absolute_path: String,
    /// The path as the submodules file declares it.
    pub declared_path: String,
    /// Whether `absolute_path` existed when the entry was made.
    pub exists: bool,
}

/// `path` resolved against `project_path`: a path that begins with `/` is
/// absolute already and stays as it is; any other is put behind the project
/// root and a `/`. Nothing is normalized.
pub open spec fn absolute_path(project_path: Seq<char>, path: Seq<char>) -> Seq<char> {
    if path.len() > 0 && path.first() == '/' {
        path
    } else {
        project_path + seq!['/'] + path
    }
}

/// Whether `entry` is the entry of the declared path `declared` under
/// `project_path`: it holds the declared path and its resolution. Its
/// existence flag is left open.
pub open spec fn entry_of(entry: SubmoduleEntry, project_path: Seq<char>, declared: Seq<char>) -> bool {
    &&& entry.declared_path@ == declared
    &&& entry.absolute_path@ == absolute_path(project_path, declared)
}

/// Calls `std::path::Path::exists`, which reports whether the path names
/// an existing file system entry. The answer depends on the disk at the
/// time of the call, so the contract claims nothing of it.
#[verifier::external_body]
pub(crate) fn path_exists(path: &str) -> bool {
    std::path::Path::new(path).exists()
}

/// Resolves `path` against the project root recorded in `config`.
pub fn get_absolute_path(config: &AppConfigFile, path: &str) -> (resolved: String)
    ensures
        resolved@ == absolute_path(config.project_path@, path@),
{
    let chars = chars_of(path);
    let mut resolved = String::new();
    if chars.len() > 0 && chars[0] == '/' {
        append_text(&mut resolved, path);
    } else {
        append_text(&mut resolved, config.project_path.as_str());
        resolved.push('/');
        append_text(&mut resolved, path);
    }
    resolved
}

/// Asks the file system whether `path`, resolved against the project root,
/// exists. The answer is the file system's: it may differ from one call to
/// the next.
pub fn check_if_directory_exists(config: &AppConfigFile, path: &str) -> bool {
    let resolved = get_absolute_path(config, path);
    path_exists(resolved.as_str())
}

/// The inventory entry of one declared path, from the answer of its probe.
pub fn inventory_entry(config: &AppConfigFile, declared: &str, exists: bool) -> (entry:
    SubmoduleEntry)
    ensures
        entry_of(entry, config.project_path@, declared@),
        entry.exists == exists,
{
    let mut declared_path = String::new();
    append_text(&mut declared_path, declared);
    SubmoduleEntry { absolute_path: get_absolute_path(config, declared), declared_path, exists }
}

/// Maps each declared path to its inventory entry, in order: the resolved
/// path, the declared path, and whether the resolved path exists now.
pub fn map_dirs(config: &AppConfigFile, list_dirs: &Vec<String>) -> (entries: Vec<SubmoduleEntry>)
    ensures
        entries@.len() == list_dirs@.len(),
        forall|i: int|
            0 <= i < list_dirs@.len() ==> entry_of(
                #[trigger] entries@[i],
                config.project_path@,
                list_dirs@[i]@,
            ),
{
    let mut entries: Vec<SubmoduleEntry> = Vec::new();
    let mut i: usize = 0;
    while i < list_dirs.len()
        invariant
            i <= list_dirs.len(),
            entries@.len() == i,
            forall|k: int|
                0 <= k < i ==> entry_of(#[trigger] entries@[k], config.project_path@, list_dirs@[k]@),
        decreases list_dirs.len() - i,
    {
        let declared = list_dirs[i].as_str();
        let exists = check_if_directory_exists(config, declared);
        entries.push(inventory_entry(config, declared, exists));
        i += 1;
    }
    entries
}

} // verus!
