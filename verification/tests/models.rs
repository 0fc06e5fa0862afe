use project_tools::helpers::config::create_config;
use project_tools::models::app_config::AppConfigFile;
use project_tools::models::project::Project;
use project_tools::models::to_document;
use project_tools::models::version::{push_decimal, Version, VersionChange};

fn version(major: u64, minor: u64, patch: u64, pre: &str, build: &str) -> Version {
    Version { major, minor, patch, pre: pre.to_string(), build: build.to_string() }
}

fn config(version: &str) -> AppConfigFile {
    AppConfigFile {
        project_path: ".".to_string(),
        docker_compose: "docker-compose.yaml".to_string(),
        gitmodules: ".gitmodules".to_string(),
        project_name: "project".to_string(),
        project_version: version.to_string(),
        github_api_token: None,
    }
}

fn project(version: &str) -> Project {
    Project {
        name: "test-project".to_string(),
        domain: "test-domain.test".to_string(),
        version: version.to_string(),
        description: "This is a test project".to_string(),
        languages: Some(vec!["rust".to_string()]),
        frameworks: None,
        services: None,
        repo: None,
        parent: None,
        from_template: Some(false),
        template: None,
    }
}

fn to_yaml(config: &AppConfigFile) -> String {
    let text = |s: &str| serde_yaml::Value::String(s.to_string());
    let mut fields = serde_yaml::Mapping::new();
    fields.insert(text("project_path"), text(&config.project_path));
    fields.insert(text("docker_compose"), text(&config.docker_compose));
    fields.insert(text("gitmodules"), text(&config.gitmodules));
    fields.insert(text("project_name"), text(&config.project_name));
    fields.insert(text("project_version"), text(&config.project_version));
    fields.insert(
        text("github_api_token"),
        match &config.github_api_token {
            Some(token) => text(token),
            None => serde_yaml::Value::Null,
        },
    );
    to_document(&serde_yaml::to_string(&fields).unwrap())
}

fn from_yaml(yaml: &str) -> AppConfigFile {
    let document: serde_yaml::Value = serde_yaml::from_str(yaml).unwrap();
    let field = |name: &str| document.get(name).unwrap().as_str().unwrap().to_string();
    AppConfigFile {
        project_path: field("project_path"),
        docker_compose: field("docker_compose"),
        gitmodules: field("gitmodules"),
        project_name: field("project_name"),
        project_version: field("project_version"),
        github_api_token: document
            .get("github_api_token")
            .and_then(|token| token.as_str())
            .map(|token| token.to_string()),
    }
}

#[test]
fn app_config_test_app_config() {
    let config = AppConfigFile {
        project_path: ".".to_string(),
        docker_compose: "docker-compose.yaml".to_string(),
        gitmodules: ".gitmodules".to_string(),
        project_name: "project".to_string(),
        project_version: Version::new(0, 1, 0).to_text(),
        github_api_token: None,
    };

    let config_yaml = "---\nproject_path: .\ndocker_compose: docker-compose.yaml\ngitmodules: .gitmodules\nproject_name: project\nproject_version: 0.1.0\ngithub_api_token: null\n";

    assert_eq!(config, from_yaml(config_yaml));
    assert_eq!(config_yaml, to_yaml(&config));
}

#[test]
fn test_app_config_update_version() {
    let mut config = AppConfigFile {
        project_path: ".".to_string(),
        docker_compose: "docker-compose.yaml".to_string(),
        gitmodules: ".gitmodules".to_string(),
        project_name: "project".to_string(),
        project_version: Version::new(0, 1, 0).to_text(),
        github_api_token: None,
    };

    let config_yaml = "---\nproject_path: .\ndocker_compose: docker-compose.yaml\ngitmodules: .gitmodules\nproject_name: project\nproject_version: 0.1.0\ngithub_api_token: null\n";

    assert_eq!(config, from_yaml(config_yaml));
    assert_eq!(config_yaml, to_yaml(&config));

    config.update_version(&Version::parse("0.2.0").unwrap());

    let config_yaml = "---\nproject_path: .\ndocker_compose: docker-compose.yaml\ngitmodules: .gitmodules\nproject_name: project\nproject_version: 0.2.0\ngithub_api_token: null\n";

    assert_eq!(config, from_yaml(config_yaml));
    assert_eq!(config_yaml, to_yaml(&config));
}

#[test]
fn document_starts_with_the_marker() {
    assert_eq!(to_document("a: 1\n"), "---\na: 1\n");
    assert_eq!(to_document(""), "---\n");
    assert_eq!(to_document("---\n"), "---\n---\n");
}

#[test]
fn default_config_serializes_the_same_twice() {
    let config = create_config("/proj");
    let first = to_yaml(&config);
    assert_eq!(
        first,
        "---\nproject_path: /proj\ndocker_compose: docker-compose.yaml\ngitmodules: .gitmodules\nproject_name: project\nproject_version: 0.1.0-alpha\ngithub_api_token: null\n"
    );
    let again = from_yaml(&first);
    assert_eq!(again, config);
    assert_eq!(to_yaml(&again), first);
}

#[test]
fn parse_reads_every_part() {
    assert_eq!(Version::parse("1.2.3"), Some(version(1, 2, 3, "", "")));
    assert_eq!(Version::parse("0.1.0-alpha"), Some(version(0, 1, 0, "alpha", "")));
    assert_eq!(
        Version::parse("10.20.30-rc.1+build.5"),
        Some(version(10, 20, 30, "rc.1", "build.5"))
    );
    assert_eq!(Version::parse("1.0.0+001"), Some(version(1, 0, 0, "", "001")));
    assert_eq!(
        Version::parse("18446744073709551615.0.0"),
        Some(version(u64::MAX, 0, 0, "", ""))
    );
}

#[test]
fn parse_refuses_what_is_no_version() {
    for text in ["", "1", "1.0", "1.q.r", "01.0.0", " 1.0.0", "1.0.0 ", "1.0.0-", "1.0.0-01", "1.0.0+", "v1.0.0", "18446744073709551616.0.0"] {
        assert_eq!(Version::parse(text), None, "{:?}", text);
    }
}

#[test]
fn parse_agrees_with_semver() {
    for text in ["1.2.3", "0.0.0", "1.0.0-alpha.beta", "1.0.0-0.3.7", "1.0.0-x-y-z.--", "1.0.0+20130313144700", "1.0.0-beta+exp.sha.5114f85", "bad", "1.0.0-ä"] {
        let ours = Version::parse(text);
        match semver::Version::parse(text) {
            Ok(theirs) => {
                let ours = ours.unwrap();
                assert_eq!(ours.major, theirs.major);
                assert_eq!(ours.minor, theirs.minor);
                assert_eq!(ours.patch, theirs.patch);
                assert_eq!(ours.pre, theirs.pre.as_str());
                assert_eq!(ours.build, theirs.build.as_str());
                assert_eq!(ours.to_text(), theirs.to_string());
                assert_eq!(ours.to_text(), text);
            }
            Err(_) => assert_eq!(ours, None),
        }
    }
}

#[test]
fn to_text_writes_every_part() {
    assert_eq!(Version::new(0, 1, 0).to_text(), "0.1.0");
    assert_eq!(version(0, 1, 0, "alpha", "").to_text(), "0.1.0-alpha");
    assert_eq!(version(1, 2, 3, "", "b5").to_text(), "1.2.3+b5");
    assert_eq!(version(1, 2, 3, "rc.1", "b5").to_text(), "1.2.3-rc.1+b5");
    assert_eq!(
        version(u64::MAX, 10, 909, "", "").to_text(),
        "18446744073709551615.10.909"
    );
}

#[test]
fn push_decimal_writes_base_ten() {
    for n in [0u64, 1, 9, 10, 11, 99, 100, 1234567890, u64::MAX] {
        let mut out = String::from("v");
        push_decimal(&mut out, n);
        assert_eq!(out, format!("v{}", n));
    }
}

#[test]
fn identifiers_are_judged_by_semver() {
    for text in ["", "alpha", "rc.1", "0", "x-y", "-", "a b", "01", "a..b", ".a", "a.", "a+b", "é", "001", "1.02"] {
        assert_eq!(
            Version::is_prerelease(text),
            semver::Prerelease::new(text).is_ok(),
            "{:?}",
            text
        );
        assert_eq!(
            Version::is_build_metadata(text),
            semver::BuildMetadata::new(text).is_ok(),
            "{:?}",
            text
        );
    }
    assert!(Version::is_prerelease("alpha"));
    assert!(!Version::is_prerelease("01"));
    assert!(Version::is_build_metadata("01"));
    assert!(!Version::is_build_metadata("a b"));
}

#[test]
fn config_version_is_read_from_its_text() {
    assert_eq!(config("1.2.3-rc.1").get_version(), version(1, 2, 3, "rc.1", ""));
    assert_eq!(config("1.2.3").try_get_version(), Some(version(1, 2, 3, "", "")));
    assert_eq!(config("one").try_get_version(), None);
    assert_eq!(create_config("/proj").get_version(), version(0, 1, 0, "alpha", ""));
}

#[test]
fn config_version_parts_are_set_one_by_one() {
    let mut c = config("0.1.0-alpha+b1");
    c.update_major_version(2);
    assert_eq!(c, config("2.1.0-alpha+b1"));
    c.update_minor_version(0);
    assert_eq!(c, config("2.0.0-alpha+b1"));
    c.update_patch_version(17);
    assert_eq!(c, config("2.0.17-alpha+b1"));
    c.update_prerelease_version("rc.2");
    assert_eq!(c, config("2.0.17-rc.2+b1"));
    c.update_build_version("exp.sha.5114f85");
    assert_eq!(c, config("2.0.17-rc.2+exp.sha.5114f85"));
    c.update_prerelease_version("");
    assert_eq!(c, config("2.0.17+exp.sha.5114f85"));
    c.update_build_version("");
    assert_eq!(c, config("2.0.17"));
    c.update_version(&version(3, 4, 5, "x", "y"));
    assert_eq!(c, config("3.4.5-x+y"));
}

#[test]
fn config_changes_are_made_where_they_can_be() {
    let mut c = config("0.1.0");
    assert!(c.change_version(&VersionChange::Major(1)));
    assert_eq!(c, config("1.1.0"));
    assert!(c.change_version(&VersionChange::Minor(2)));
    assert!(c.change_version(&VersionChange::Patch(3)));
    assert!(c.change_version(&VersionChange::Prerelease("beta".to_string())));
    assert!(c.change_version(&VersionChange::Build("7".to_string())));
    assert_eq!(c, config("1.2.3-beta+7"));
}

#[test]
fn config_changes_that_cannot_be_made_change_nothing() {
    let mut c = config("1.2.3");
    assert!(!c.change_version(&VersionChange::Prerelease("not ok".to_string())));
    assert!(!c.change_version(&VersionChange::Prerelease("01".to_string())));
    assert!(!c.change_version(&VersionChange::Build("a+b".to_string())));
    assert_eq!(c, config("1.2.3"));
    let mut c = config("not a version");
    assert!(!c.change_version(&VersionChange::Major(1)));
    assert!(!c.change_version(&VersionChange::Build("ok".to_string())));
    assert_eq!(c, config("not a version"));
}

#[test]
fn project_version_parts_are_set_one_by_one() {
    let mut p = project("0.1.0");
    assert_eq!(p.get_version(), Version::new(0, 1, 0));
    p.update_major_version(1);
    assert_eq!(p.version, "1.1.0");
    p.update_minor_version(2);
    assert_eq!(p.version, "1.2.0");
    p.update_patch_version(3);
    assert_eq!(p.version, "1.2.3");
    p.update_prerelease_version("alpha.1");
    assert_eq!(p.version, "1.2.3-alpha.1");
    p.update_build_version("b");
    assert_eq!(p.version, "1.2.3-alpha.1+b");
    p.update_version(&Version::new(9, 9, 9));
    assert_eq!(p.version, "9.9.9");
    assert_eq!(p.name, "test-project");
    assert_eq!(p.languages, Some(vec!["rust".to_string()]));
    assert_eq!(p.from_template, Some(false));
}

#[test]
fn project_changes_are_made_where_they_can_be() {
    let mut p = project("0.1.0");
    assert!(p.change_version(&VersionChange::Patch(4)));
    assert_eq!(p.version, "0.1.4");
    assert!(!p.change_version(&VersionChange::Prerelease("..".to_string())));
    assert_eq!(p.version, "0.1.4");
    assert_eq!(p.try_get_version(), Some(Version::new(0, 1, 4)));
    let mut p = project("0.1");
    assert_eq!(p.try_get_version(), None);
    assert!(!p.change_version(&VersionChange::Patch(4)));
    assert_eq!(p.version, "0.1");
}
