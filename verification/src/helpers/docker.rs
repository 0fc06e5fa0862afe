//! Where the compose document lives.

use crate::helpers::filesystem::path::{append_path, joined_path};
use crate::models::app_config::AppConfigFile;
use vstd::prelude::*;

verus! {

/// The path of the compose document: its file name adjoined to the project
/// root.
pub fn get_path_to_docker_compose(config: &AppConfigFile) -> (path: String)
    ensures
        path@ == joined_path(config.project_path@, config.docker_compose@),
{
    append_path(config.project_path.as_str(), config.docker_compose.as_str())
}

} // verus!
