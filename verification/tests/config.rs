use project_tools::error::{exit_code, is_fatal, ToolError};
use project_tools::helpers::config::{
    check_if_config_exists, config_path, create_config, get_config, LoadedConfig, StoredConfig,
};
use project_tools::helpers::docker::get_path_to_docker_compose;
use project_tools::helpers::filesystem::dir::{
    check_if_directory_exists, get_absolute_path, inventory_entry, map_dirs,
};
use project_tools::helpers::filesystem::path::append_path;
use project_tools::models::app_config::AppConfigFile;

#[test]
fn default_config_for_a_fresh_project() {
    let config = create_config("/proj");
    assert_eq!(
        config,
        AppConfigFile {
            project_path: "/proj".to_string(),
            docker_compose: "docker-compose.yaml".to_string(),
            gitmodules: ".gitmodules".to_string(),
            project_name: "project".to_string(),
            project_version: "0.1.0-alpha".to_string(),
            github_api_token: None,
        }
    );
}

#[test]
fn load_creates_the_default_when_the_file_is_absent() {
    assert_eq!(
        get_config("/proj", StoredConfig::Absent),
        LoadedConfig::Created(create_config("/proj"))
    );
}

#[test]
fn load_takes_a_parsed_file_as_it_is() {
    let mut stored = create_config("/proj");
    stored.project_name = "tools".to_string();
    assert_eq!(
        get_config("/proj", StoredConfig::Parsed(create_config("/proj"))),
        LoadedConfig::Loaded { config: create_config("/proj"), root_mismatch: false }
    );
    let loaded = get_config("/proj", StoredConfig::Parsed(stored));
    match loaded {
        LoadedConfig::Loaded { config, root_mismatch } => {
            assert_eq!(config.project_name, "tools");
            assert!(!root_mismatch);
        }
        other => panic!("{:?}", other),
    }
}

#[test]
fn load_flags_a_root_that_is_not_the_working_directory() {
    assert_eq!(
        get_config("/elsewhere", StoredConfig::Parsed(create_config("/proj"))),
        LoadedConfig::Loaded { config: create_config("/proj"), root_mismatch: true }
    );
    assert_eq!(
        get_config("/proj", StoredConfig::Parsed(create_config("."))),
        LoadedConfig::Loaded { config: create_config("."), root_mismatch: true }
    );
}

#[test]
fn load_fails_on_a_file_that_cannot_be_parsed() {
    assert_eq!(
        get_config("/proj", StoredConfig::Unparseable),
        LoadedConfig::Failed(ToolError::ConfigCorrupt)
    );
}

#[test]
fn config_file_lives_in_the_working_directory() {
    assert_eq!(config_path("/proj"), "/proj/config.yaml");
    assert_eq!(config_path("/"), "/config.yaml");
    assert!(!check_if_config_exists("/definitely/not/a/project/root"));
}

#[test]
fn compose_file_is_adjoined_to_the_root() {
    let mut config = create_config("/proj");
    assert_eq!(get_path_to_docker_compose(&config), "/proj/docker-compose.yaml");
    config.docker_compose = "/etc/compose.yaml".to_string();
    assert_eq!(get_path_to_docker_compose(&config), "/etc/compose.yaml");
}

#[test]
fn append_path_agrees_with_the_standard_library() {
    let bases = ["", "/", "/proj", "/proj/", "rel", "rel/", "a//", "é"];
    let files = ["", "x", "x/y", "/abs", "/", "./x", "../x", "é.yaml"];
    for base in bases {
        for file in files {
            let expected = std::path::Path::new(base).join(file);
            assert_eq!(append_path(base, file), expected.to_str().unwrap(), "{:?} {:?}", base, file);
        }
    }
}

#[test]
fn append_path_examples() {
    assert_eq!(append_path("/proj", "config.yaml"), "/proj/config.yaml");
    assert_eq!(append_path("/proj/", "config.yaml"), "/proj/config.yaml");
    assert_eq!(append_path("/proj", "/abs"), "/abs");
    assert_eq!(append_path("", "x"), "x");
    assert_eq!(append_path("/proj", ""), "/proj/");
}

#[test]
fn absolute_paths_pass_through_and_relative_ones_go_under_the_root() {
    let config = create_config("/proj");
    assert_eq!(get_absolute_path(&config, "backend"), "/proj/backend");
    assert_eq!(get_absolute_path(&config, "/opt/x"), "/opt/x");
    assert_eq!(get_absolute_path(&config, ""), "/proj/");
    assert_eq!(get_absolute_path(&config, "../x//y"), "/proj/../x//y");
    let config = create_config("/proj/");
    assert_eq!(get_absolute_path(&config, "backend"), "/proj//backend");
}

#[test]
fn existence_is_asked_of_the_resolved_path() {
    let config = create_config("/");
    assert!(check_if_directory_exists(&config, "/"));
    assert!(check_if_directory_exists(&config, ""));
    assert!(!check_if_directory_exists(&config, "definitely/not/here"));
    let config = create_config("/definitely/not/a/project/root");
    assert!(!check_if_directory_exists(&config, "x"));
    assert!(check_if_directory_exists(&config, "/"));
}

#[test]
fn map_dirs_keeps_order_and_resolves_each_path() {
    let config = create_config("/definitely/not/a/project/root");
    let dirs = vec!["b".to_string(), "/".to_string(), "a".to_string()];
    let entries = map_dirs(&config, &dirs);
    assert_eq!(entries.len(), 3);
    assert_eq!(entries[0], inventory_entry(&config, "b", false));
    assert_eq!(entries[1], inventory_entry(&config, "/", true));
    assert_eq!(entries[2], inventory_entry(&config, "a", false));
    assert_eq!(entries[0].absolute_path, "/definitely/not/a/project/root/b");
    assert_eq!(entries[0].declared_path, "b");
    assert_eq!(map_dirs(&config, &Vec::new()), Vec::new());
}

#[test]
fn only_whole_command_failures_are_fatal() {
    assert!(is_fatal(ToolError::ConfigCorrupt));
    assert!(is_fatal(ToolError::ConfigWriteError));
    assert!(is_fatal(ToolError::SubmodulesFileMissing));
    assert!(!is_fatal(ToolError::SubmoduleUpdateFailed));
    assert!(!is_fatal(ToolError::DirectoryRemovalFailed));
}

#[test]
fn only_a_corrupt_config_changes_the_exit_code() {
    assert_eq!(exit_code(ToolError::ConfigCorrupt), 1);
    assert_eq!(exit_code(ToolError::ConfigWriteError), 0);
    assert_eq!(exit_code(ToolError::SubmodulesFileMissing), 0);
    assert_eq!(exit_code(ToolError::SubmoduleUpdateFailed), 0);
    assert_eq!(exit_code(ToolError::DirectoryRemovalFailed), 0);
}
