//! Semantic versions as plain values.
//!
//! The grammar of a version text is the `semver` crate's: reading a text
//! and judging an identifier are calls into it, and what they return is
//! known here by name only. Writing a version is a few lines and is done
//! and proved here.

use crate::text::append_text;
use vstd::prelude::*;

verus! {

/// A semantic version: three numbers, a pre-release identifier and build
/// metadata, the last two empty where the version has none.
#[derive(Debug, PartialEq, Eq)]
pub struct Version {
    pub major: u64,
    pub minor: u64,
    pub patch: u64,
    pub pre: String,
    pub build: String,
}

/// The mathematical value of a [`Version`].
pub struct VersionView {
    pub major: u64,
    pub minor: u64,
    pub patch: u64,
    pub pre: Seq<char>,
    pub build: Seq<char>,
}

impl View for Version {
    type V = VersionView;

    open spec fn view(&self) -> VersionView {
        VersionView {
            major: self.major,
            minor: self.minor,
            patch: self.patch,
            pre: self.pre@,
            build: self.build@,
        }
    }
}

/// What `semver::Version::parse` makes of `text`: the numbers, the
/// pre-release identifier and the build metadata of the version that it
/// returns, or `None` where it returns an error.
pub uninterp spec fn parsed_version(text: Seq<char>) -> Option<
    (u64, u64, u64, Seq<char>, Seq<char>),
>;

/// Whether `semver::Prerelease::new` accepts `text`.
pub uninterp spec fn prerelease_accepted(text: Seq<char>) -> bool;

/// Whether `semver::BuildMetadata::new` accepts `text`.
pub uninterp spec fn build_metadata_accepted(text: Seq<char>) -> bool;

/// The version that `text` reads as, if it is a version text.
pub open spec fn version_of(text: Seq<char>) -> Option<VersionView> {
    match parsed_version(text) {
        Some((major, minor, patch, pre, build)) => Some(
            VersionView { major, minor, patch, pre, build },
        ),
        None => None,
    }
}

/// A change to one part of a version.
#[derive(Debug, PartialEq, Eq)]
pub enum VersionChange {
    Major(u64),
    Minor(u64),
    Patch(u64),
    /// A new pre-release identifier; the empty text for none.
    Prerelease(String),
    /// New build metadata; the empty text for none.
    Build(String),
}

/// `version` with `change` made to it.
pub open spec fn changed(version: VersionView, change: VersionChange) -> VersionView {
    match change {
        VersionChange::Major(major) => VersionView { major, ..version },
        VersionChange::Minor(minor) => VersionView { minor, ..version },
        VersionChange::Patch(patch) => VersionView { patch, ..version },
        VersionChange::Prerelease(pre) => VersionView { pre: pre@, ..version },
        VersionChange::Build(build) => VersionView { build: build@, ..version },
    }
}

/// Whether `change` can be made to the version text `text`: `text` is a
/// version text, and an identifier that the change brings is accepted.
pub open spec fn change_applies(text: Seq<char>, change: VersionChange) -> bool {
    &&& version_of(text) is Some
    &&& match change {
        VersionChange::Prerelease(pre) => prerelease_accepted(pre@),
        VersionChange::Build(build) => build_metadata_accepted(build@),
        _ => true,
    }
}

/// The character of the decimal digit `d`.
pub open spec fn digit(d: nat) -> char {
    (48 + d) as char
}

/// `n` in base 10, without leading zeros.
pub open spec fn decimal(n: nat) -> Seq<char>
    decreases n,
{
    if n < 10 {
        seq![digit(n)]
    } else {
        decimal(n / 10).push(digit(n % 10))
    }
}

/// The text of a version: the three numbers in base 10 with dots between
/// them, then `-` and the pre-release identifier if there is one, then `+`
/// and the build metadata if there is any.
pub open spec fn version_text(version: VersionView) -> Seq<char> {
    decimal(version.major as nat) + seq!['.'] + decimal(version.minor as nat) + seq!['.']
        + decimal(version.patch as nat) + (if version.pre.len() > 0 {
        seq!['-'] + version.pre
    } else {
        Seq::empty()
    }) + (if version.build.len() > 0 {
        seq!['+'] + version.build
    } else {
        Seq::empty()
    })
}

/// Calls `semver::Version::parse`. The contract claims only that the
/// outcome is the one that [`parsed_version`] names for this text: `None`
/// for an error, and otherwise the three numbers and the texts of the two
/// identifiers of the version that came back.
#[verifier::external_body]
fn semver_parse(text: &str) -> (parsed: Option<Version>)
    ensures
        parsed is Some <==> parsed_version(text@) is Some,
        parsed is Some ==> Some(parsed->0@) == version_of(text@),
{
    match semver::Version::parse(text) {
        Ok(v) => Some(
            Version {
                major: v.major,
                minor: v.minor,
                patch: v.patch,
                pre: v.pre.as_str().to_string(),
                build: v.build.as_str().to_string(),
            },
        ),
        Err(_) => None,
    }
}

/// Calls `semver::Prerelease::new` and says whether it returned `Ok`. The
/// contract claims only that this is what [`prerelease_accepted`] names
/// for this text.
#[verifier::external_body]
fn semver_prerelease_accepts(text: &str) -> (accepted: bool)
    ensures
        accepted == prerelease_accepted(text@),
{
    semver::Prerelease::new(text).is_ok()
}

/// Calls `semver::BuildMetadata::new` and says whether it returned `Ok`.
/// The contract claims only that this is what [`build_metadata_accepted`]
/// names for this text.
#[verifier::external_body]
fn semver_build_metadata_accepts(text: &str) -> (accepted: bool)
    ensures
        accepted == build_metadata_accepted(text@),
{
    semver::BuildMetadata::new(text).is_ok()
}

impl Version {
    /// The version `major.minor.patch`, without pre-release identifier and
    /// build metadata.
    pub fn new(major: u64, minor: u64, patch: u64) -> (version: Version)
        ensures
            version@ == (VersionView {
                major,
                minor,
                patch,
                pre: Seq::empty(),
                build: Seq::empty(),
            }),
    {
        Version { major, minor, patch, pre: String::new(), build: String::new() }
    }

    /// Reads a version text; `None` where `text` is none.
    pub fn parse(text: &str) -> (parsed: Option<Version>)
        ensures
            parsed is Some <==> version_of(text@) is Some,
            parsed is Some ==> Some(parsed->0@) == version_of(text@),
    {
        semver_parse(text)
    }

    /// Whether `text` can be the pre-release identifier of a version.
    pub fn is_prerelease(text: &str) -> (accepted: bool)
        ensures
            accepted == prerelease_accepted(text@),
    {
        semver_prerelease_accepts(text)
    }

    /// Whether `text` can be the build metadata of a version.
    pub fn is_build_metadata(text: &str) -> (accepted: bool)
        ensures
            accepted == build_metadata_accepted(text@),
    {
        semver_build_metadata_accepts(text)
    }

    /// Writes the version as text.
    pub fn to_text(&self) -> (text: String)
        ensures
            text@ == version_text(self@),
    {
        let mut text = String::new();
        push_decimal(&mut text, self.major);
        text.push('.');
        push_decimal(&mut text, self.minor);
        text.push('.');
        push_decimal(&mut text, self.patch);
        let ghost numbers = text@;
        if !self.pre.as_str().is_empty() {
            text.push('-');
            append_text(&mut text, self.pre.as_str());
        }
        assert(text@ == numbers + (if self@.pre.len() > 0 {
            seq!['-'] + self@.pre
        } else {
            Seq::empty()
        }));
        let ghost before = text@;
        if !self.build.as_str().is_empty() {
            text.push('+');
            append_text(&mut text, self.build.as_str());
        }
        assert(text@ == before + (if self@.build.len() > 0 {
            seq!['+'] + self@.build
        } else {
            Seq::empty()
        }));
        text
    }
}

/// Appends `n` in base 10 to `out`.
pub fn push_decimal(out: &mut String, n: u64)
    ensures
        final(out)@ == old(out)@ + decimal(n as nat),
{
    let mut reversed: Vec<char> = Vec::new();
    reversed.push(digit_char(n % 10));
    let mut rest: u64 = n / 10;
    let ghost mut written: Seq<char> = seq![digit((n % 10) as nat)];
    while rest > 0
        invariant
            reversed@.len() == written.len(),
            forall|k: int|
                0 <= k < written.len() ==> #[trigger] reversed@[k] == written[written.len() - 1
                    - k],
            decimal(n as nat) == (if rest > 0 {
                decimal(rest as nat)
            } else {
                Seq::empty()
            }) + written,
        decreases rest,
    {
        let d = digit_char(rest % 10);
        reversed.push(d);
        proof {
            written = seq![d] + written;
        }
        rest = rest / 10;
    }
    let mut i: usize = reversed.len();
    while i > 0
        invariant
            i <= reversed@.len() == written.len(),
            forall|k: int|
                0 <= k < written.len() ==> #[trigger] reversed@[k] == written[written.len() - 1
                    - k],
            out@ == old(out)@ + written.take(written.len() - i),
        decreases i,
    {
        i -= 1;
        out.push(reversed[i]);
        assert(written.take(written.len() - i) == written.take(written.len() - i - 1).push(
            written[written.len() - i - 1],
        ));
    }
    assert(written.take(written.len() as int) == written);
}

/// The character of one decimal digit.
fn digit_char(d: u64) -> (c: char)
    requires
        d < 10,
    ensures
        c == digit(d as nat),
{
    (48u8 + d as u8) as char
}

} // verus!
