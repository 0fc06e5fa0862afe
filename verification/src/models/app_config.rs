//! The project configuration document.

use crate::models::version::{
    build_metadata_accepted, change_applies, changed, prerelease_accepted, version_of,
    version_text, Version, VersionChange, VersionView,
};
use crate::text::append_text;
use vstd::prelude::*;

verus! {

/// The configuration of one project, as persisted in `config.yaml` under the
/// project root.
#[derive(Debug, PartialEq)]
pub struct AppConfigFile {
    /// Absolute path of the project root.
    pub project_path: String,
    /// File name of the compose document, relative to the root.
    pub docker_compose: String,
    /// File name of the submodules declaration, relative to the root.
    pub gitmodules: String,
    pub project_name: String,
    /// The project's semantic version, as text.
    pub project_version: String,
    pub github_api_token: Option<String>,
}

impl AppConfigFile {
    /// Whether `self` is `before` but for the version text.
    pub open spec fn keeps_all_but_version(self, before: AppConfigFile) -> bool {
        &&& self.project_path == before.project_path
        &&& self.docker_compose == before.docker_compose
        &&& self.gitmodules == before.gitmodules
        &&& self.project_name == before.project_name
        &&& self.github_api_token == before.github_api_token
    }

    /// Whether `self` is `before` with `version` for its version.
    pub open spec fn has_version_of(self, before: AppConfigFile, version: VersionView) -> bool {
        &&& self.keeps_all_but_version(before)
        &&& self.project_version@ == version_text(version)
    }

    /// The project version. The version text must be one.
    pub fn get_version(&self) -> (version: Version)
        requires
            version_of(self.project_version@) is Some,
        ensures
            Some(version@) == version_of(self.project_version@),
    {
        match Version::parse(self.project_version.as_str()) {
            Some(version) => version,
            None => vstd::pervasive::unreached(),
        }
    }

    /// The project version, or `None` where the version text is none.
    pub fn try_get_version(&self) -> (version: Option<Version>)
        ensures
            version is Some <==> version_of(self.project_version@) is Some,
            version is Some ==> Some(version->0@) == version_of(self.project_version@),
    {
        if Version::parse(self.project_version.as_str()).is_some() {
            Some(self.get_version())
        } else {
            None
        }
    }

    /// Sets the project version.
    pub fn update_version(&mut self, version: &Version)
        ensures
            final(self).has_version_of(*old(self), version@),
    {
        self.project_version = version.to_text();
    }

    /// Sets the major number of the project version.
    pub fn update_major_version(&mut self, major: u64)
        requires
            version_of(old(self).project_version@) is Some,
        ensures
            final(self).has_version_of(
                *old(self),
                changed(version_of(old(self).project_version@)->0, VersionChange::Major(major)),
            ),
    {
        let mut version = self.get_version();
        version.major = major;
        self.update_version(&version);
    }

    /// Sets the minor number of the project version.
    pub fn update_minor_version(&mut self, minor: u64)
        requires
            version_of(old(self).project_version@) is Some,
        ensures
            final(self).has_version_of(
                *old(self),
                changed(version_of(old(self).project_version@)->0, VersionChange::Minor(minor)),
            ),
    {
        let mut version = self.get_version();
        version.minor = minor;
        self.update_version(&version);
    }

    /// Sets the patch number of the project version.
    pub fn update_patch_version(&mut self, patch: u64)
        requires
            version_of(old(self).project_version@) is Some,
        ensures
            final(self).has_version_of(
                *old(self),
                changed(version_of(old(self).project_version@)->0, VersionChange::Patch(patch)),
            ),
    {
        let mut version = self.get_version();
        version.patch = patch;
        self.update_version(&version);
    }

    /// Sets the pre-release identifier of the project version; the empty
    /// text takes it away.
    pub fn update_prerelease_version(&mut self, prerelease: &str)
        requires
            version_of(old(self).project_version@) is Some,
            prerelease_accepted(prerelease@),
        ensures
            final(self).has_version_of(
                *old(self),
                VersionView { pre: prerelease@, ..version_of(old(self).project_version@)->0 },
            ),
    {
        let mut version = self.get_version();
        let mut pre = String::new();
        append_text(&mut pre, prerelease);
        version.pre = pre;
        self.update_version(&version);
    }

    /// Sets the build metadata of the project version; the empty text takes
    /// it away.
    pub fn update_build_version(&mut self, build: &str)
        requires
            version_of(old(self).project_version@) is Some,
            build_metadata_accepted(build@),
        ensures
            final(self).has_version_of(
                *old(self),
                VersionView { build: build@, ..version_of(old(self).project_version@)->0 },
            ),
    {
        let mut version = self.get_version();
        let mut metadata = String::new();
        append_text(&mut metadata, build);
        version.build = metadata;
        self.update_version(&version);
    }

    /// Makes `change` to the project version where that can be done: where
    /// the version text is one and the change holds an identifier that a
    /// version can have. Says whether it was done; otherwise nothing is
    /// changed.
    pub fn change_version(&mut self, change: &VersionChange) -> (done: bool)
        ensures
            done == change_applies(old(self).project_version@, *change),
            done ==> final(self).has_version_of(
                *old(self),
                changed(version_of(old(self).project_version@)->0, *change),
            ),
            !done ==> *final(self) == *old(self),
    {
        if self.try_get_version().is_none() {
            return false;
        }
        match change {
            VersionChange::Major(major) => {
                self.update_major_version(*major);
                true
            },
            VersionChange::Minor(minor) => {
                self.update_minor_version(*minor);
                true
            },
            VersionChange::Patch(patch) => {
                self.update_patch_version(*patch);
                true
            },
            VersionChange::Prerelease(pre) => {
                if Version::is_prerelease(pre.as_str()) {
                    self.update_prerelease_version(pre.as_str());
                    true
                } else {
                    false
                }
            },
            VersionChange::Build(build) => {
                if Version::is_build_metadata(build.as_str()) {
                    self.update_build_version(build.as_str());
                    true
                } else {
                    false
                }
            },
        }
    }
}

} // verus!
