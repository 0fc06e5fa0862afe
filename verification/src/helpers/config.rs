//! Loading the project configuration.
//!
//! The configuration lives in `config.yaml` in the working directory. The
//! caller looks for the file and parses it; what follows from what it found
//! is decided here.

use crate::error::ToolError;
use crate::helpers::filesystem::dir::path_exists;
use crate::helpers::filesystem::path::{append_path, joined_path};
use crate::models::app_config::AppConfigFile;
use crate::text::{append_text, same_text};
use vstd::prelude::*;

verus! {

/// What the caller found at the place of the configuration file.
#[derive(Debug, PartialEq)]
pub enum StoredConfig {
    /// No file is there.
    Absent,
    /// A file is there, and this is what it holds.
    Parsed(AppConfigFile),
    /// A file is there, and it cannot be parsed.
    Unparseable,
}

/// What loading the configuration came to.
#[derive(Debug, PartialEq)]
pub enum LoadedConfig {
    /// No file was there. This is the default configuration; it is to be
    /// written to the file.
    Created(AppConfigFile),
    /// The configuration of the file. Where `root_mismatch` is set, the
    /// project root that it records is not the working directory: the
    /// caller warns, and nothing is corrected.
    Loaded { config: AppConfigFile, root_mismatch: bool },
    /// The file is corrupt; the process ends with exit code 1.
    Failed(ToolError),
}

/// Whether `config` is the default configuration of a project rooted at
/// `current_dir`.
pub open spec fn is_default_config(config: AppConfigFile, current_dir: Seq<char>) -> bool {
    &&& config.project_path@ == current_dir
    &&& config.docker_compose@ == "docker-compose.yaml"@
    &&& config.gitmodules@ == ".gitmodules"@
    &&& config.project_name@ == "project"@
    &&& config.project_version@ == "0.1.0-alpha"@
    &&& config.github_api_token is None
}

/// The path of the configuration file of a project rooted at
/// `current_dir`.
pub fn config_path(current_dir: &str) -> (path: String)
    ensures
        path@ == joined_path(current_dir@, "config.yaml"@),
{
    append_path(current_dir, "config.yaml")
}

/// The default configuration of a project rooted at `current_dir`.
pub fn create_config(current_dir: &str) -> (config: AppConfigFile)
    ensures
        is_default_config(config, current_dir@),
{
    let mut project_path = String::new();
    append_text(&mut project_path, current_dir);
    let mut docker_compose = String::new();
    append_text(&mut docker_compose, "docker-compose.yaml");
    let mut gitmodules = String::new();
    append_text(&mut gitmodules, ".gitmodules");
    let mut project_name = String::new();
    append_text(&mut project_name, "project");
    let mut project_version = String::new();
    append_text(&mut project_version, "0.1.0-alpha");
    AppConfigFile {
        project_path,
        docker_compose,
        gitmodules,
        project_name,
        project_version,
        github_api_token: None,
    }
}

/// Asks the file system whether the configuration file of a project rooted
/// at `current_dir` exists. The answer is the file system's.
pub fn check_if_config_exists(current_dir: &str) -> bool {
    let path = config_path(current_dir);
    path_exists(path.as_str())
}

/// Whether `loaded` is what loading comes to in the working directory
/// `current_dir` when `stored` was found at the place of the file: an
/// absent file gives the default configuration, a parsed one is taken as it
/// is, with a flag where its root is not the working directory, and a file
/// that cannot be parsed is a corrupt configuration.
pub open spec fn is_load_of(loaded: LoadedConfig, current_dir: Seq<char>, stored: StoredConfig) -> bool {
    match stored {
        StoredConfig::Absent => loaded matches LoadedConfig::Created(config) && is_default_config(
            config,
            current_dir,
        ),
        StoredConfig::Parsed(found) => loaded == (LoadedConfig::Loaded {
            config: found,
            root_mismatch: found.project_path@ != current_dir,
        }),
        StoredConfig::Unparseable => loaded == LoadedConfig::Failed(ToolError::ConfigCorrupt),
    }
}

/// A default configuration loads as itself. Where the first load found no
/// file and made the default, and the second load finds that very
/// configuration in the file, the second load returns it unchanged and
/// flags no mismatch of the root.
pub proof fn lemma_default_config_reloads(
    current_dir: Seq<char>,
    first: LoadedConfig,
    second: LoadedConfig,
)
    requires
        is_load_of(first, current_dir, StoredConfig::Absent),
        is_load_of(second, current_dir, StoredConfig::Parsed(first->Created_0)),
    ensures
        second == (LoadedConfig::Loaded { config: first->Created_0, root_mismatch: false }),
{
}

/// Loads the configuration of the project rooted at the working directory
/// `current_dir`, from what the caller found at the place of its file.
pub fn get_config(current_dir: &str, stored: StoredConfig) -> (loaded: LoadedConfig)
    ensures
        is_load_of(loaded, current_dir@, stored),
{
    match stored {
        StoredConfig::Absent => LoadedConfig::Created(create_config(current_dir)),
        StoredConfig::Parsed(config) => {
            let root_mismatch = !same_text(config.project_path.as_str(), current_dir);
            LoadedConfig::Loaded { config, root_mismatch }
        },
        StoredConfig::Unparseable => LoadedConfig::Failed(ToolError::ConfigCorrupt),
    }
}

} // verus!
