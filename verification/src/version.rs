//! Bun's version and the Node.js version Bun masquerades as, and the version the
//! wrapper reports for itself.

use vstd::prelude::*;

use crate::error::{BunodeError, BunodeErrorView};
use crate::text::{chars_of, decimal, push_decimal, string_from_chars, trim, trimmed};

verus! {

/// A semantic version as the `semver` crate splits it.
#[derive(Debug)]
pub struct SemVersion {
    pub major: u64,
    pub minor: u64,
    pub patch: u64,
    /// The pre-release identifiers (after `-`), empty when there are none.
    pub pre: String,
    /// The build metadata (after `+`), empty when there is none.
    pub build: String,
}

/// The mathematical form of a [`SemVersion`].
pub struct SemVersionView {
    pub major: u64,
    pub minor: u64,
    pub patch: u64,
    pub pre: Seq<char>,
    pub build: Seq<char>,
}

impl View for SemVersion {
    type V = SemVersionView;

    open spec fn view(&self) -> SemVersionView {
        SemVersionView { major: self.major, minor: self.minor, patch: self.patch, pre: self.pre@, build: self.build@ }
    }
}

/// What `semver::Version::parse` makes of `text`: its numbers, pre-release and build
/// strings, or `None` when the text is not a semantic version.
pub uninterp spec fn semver_parse(text: Seq<char>) -> Option<(u64, u64, u64, Seq<char>, Seq<char>)>;

/// The parts of a version, as [`semver_parse`] gives them.
pub open spec fn version_parts(v: SemVersionView) -> (u64, u64, u64, Seq<char>, Seq<char>) {
    (v.major, v.minor, v.patch, v.pre, v.build)
}

/// The version whose parts are `parts`.
pub open spec fn version_of_parts(parts: (u64, u64, u64, Seq<char>, Seq<char>)) -> SemVersionView {
    SemVersionView { major: parts.0, minor: parts.1, patch: parts.2, pre: parts.3, build: parts.4 }
}

/// Parses a semantic version with `semver::Version::parse`; the contract ties the result
/// to [`semver_parse`] and says nothing more of which texts are accepted.
#[verifier::external_body]
fn parse_semver(text: &str) -> (result: Option<SemVersion>)
    ensures
        semver_parse(text@) == match result {
            Some(v) => Some(version_parts(v@)),
            None => None,
        },
{
    match semver::Version::parse(text) {
        Ok(v) => Some(SemVersion {
            major: v.major,
            minor: v.minor,
            patch: v.patch,
            pre: v.pre.as_str().to_string(),
            build: v.build.as_str().to_string(),
        }),
        Err(_) => None,
    }
}

/// How `semver` prints a version: `major.minor.patch`, then `-pre` and `+build` when
/// they are not empty.
pub open spec fn spec_version_text(v: SemVersionView) -> Seq<char> {
    decimal(v.major as nat) + "."@ + decimal(v.minor as nat) + "."@ + decimal(v.patch as nat)
        + (if v.pre.len() > 0 { "-"@ + v.pre } else { Seq::empty() })
        + (if v.build.len() > 0 { "+"@ + v.build } else { Seq::empty() })
}

/// The printed form of a version.
pub fn version_text(version: &SemVersion) -> (text: String)
    ensures
        text@ == spec_version_text(version@),
{
    let mut text = String::new();
    push_decimal(&mut text, version.major);
    text.append(".");
    push_decimal(&mut text, version.minor);
    text.append(".");
    push_decimal(&mut text, version.patch);
    let ghost numbers = text@;
    if !version.pre.as_str().is_empty() {
        text.append("-");
        text.append(version.pre.as_str());
    }
    let ghost with_pre = text@;
    if !version.build.as_str().is_empty() {
        text.append("+");
        text.append(version.build.as_str());
    }
    assert(text@ =~= spec_version_text(version@));
    text
}

/// A stable Bun version: neither pre-release identifiers nor build metadata.
pub open spec fn spec_check_bun_semver(v: SemVersionView) -> Result<SemVersionView, BunodeErrorView> {
    if v.pre.len() == 0 && v.build.len() == 0 {
        Ok(v)
    } else {
        Err(BunodeErrorView::UnsupporttedBunVersion(spec_version_text(v)))
    }
}

/// Accepts a Bun version only when it has neither pre-release identifiers nor build
/// metadata.
pub fn check_bun_semver(version: SemVersion) -> (result: Result<SemVersion, BunodeError>)
    ensures
        match (result, spec_check_bun_semver(version@)) {
            (Ok(v), Ok(expected)) => v@ == expected,
            (Err(e), Err(expected)) => e@ == expected,
            _ => false,
        },
{
    if version.pre.as_str().is_empty() && version.build.as_str().is_empty() {
        Ok(version)
    } else {
        Err(BunodeError::UnsupporttedBunVersion(version_text(&version)))
    }
}

/// Bun's version from what `bun --version` printed: the trimmed output must be a stable
/// semantic version.
pub fn bun_version_from_output(output: &str) -> (result: Result<SemVersion, BunodeError>)
    ensures
        match (result, semver_parse(trim(output@))) {
            (Err(e), None) => e@ == BunodeErrorView::BadBunVersion(trim(output@)),
            (Ok(v), Some(parts)) => version_parts(v@) == parts && v@.pre.len() == 0 && v@.build.len() == 0,
            (Err(e), Some(parts)) => (parts.3.len() > 0 || parts.4.len() > 0)
                && e@ == BunodeErrorView::UnsupporttedBunVersion(spec_version_text(version_of_parts(parts))),
            _ => false,
        },
{
    let text = trimmed(output);
    match parse_semver(text.as_str()) {
        Some(version) => check_bun_semver(version),
        None => Err(BunodeError::BadBunVersion(text)),
    }
}

/// A Node.js version as `process.version` prints it, without its leading `v`.
pub open spec fn without_v(text: Seq<char>) -> Seq<char> {
    if text.len() > 0 && text[0] == 'v' { text.drop_first() } else { text }
}

/// The Node.js version Bun masquerades as, from what `bun -p process.version` printed
/// (`v26.3.0` is the version 26.3.0): the trimmed output, without its leading `v`, must be
/// a semantic version.
pub fn masqueraded_version_from_output(output: &str) -> (result: Result<SemVersion, BunodeError>)
    ensures
        match (result, semver_parse(without_v(trim(output@)))) {
            (Err(e), None) => e@ == BunodeErrorView::BadNodeCompatibleShimVersion(trim(output@)),
            (Ok(v), Some(parts)) => version_parts(v@) == parts,
            _ => false,
        },
{
    let text = trimmed(output);
    let chars = chars_of(text.as_str());
    let bare = if chars.len() > 0 && chars[0] == 'v' {
        string_from_chars(&chars, 1, chars.len())
    } else {
        string_from_chars(&chars, 0, chars.len())
    };
    assert(chars@.subrange(0, chars@.len() as int) =~= chars@);
    assert(chars@.len() > 0 ==> chars@.subrange(1, chars@.len() as int) =~= chars@.drop_first());
    match parse_semver(bare.as_str()) {
        Some(version) => Ok(version),
        None => Err(BunodeError::BadNodeCompatibleShimVersion(text)),
    }
}

/// The build metadata naming a Bun version: `bun.major.minor.patch`.
pub open spec fn bun_build_metadata(bun: SemVersionView) -> Seq<char> {
    "bun."@ + decimal(bun.major as nat) + "."@ + decimal(bun.minor as nat) + "."@ + decimal(bun.patch as nat)
}

/// The wrapper's own version: the masqueraded Node.js release, with the Bun release as
/// build metadata (so that it keeps Node's precedence).
pub open spec fn spec_bunode_version(bun: SemVersionView, masqueraded: SemVersionView) -> SemVersionView {
    SemVersionView {
        major: masqueraded.major,
        minor: masqueraded.minor,
        patch: masqueraded.patch,
        pre: Seq::empty(),
        build: bun_build_metadata(bun),
    }
}

/// The wrapper's own version.
pub fn bunode_version(bun_version: &SemVersion, masqueraded_version: &SemVersion) -> (version: SemVersion)
    ensures
        version@ == spec_bunode_version(bun_version@, masqueraded_version@),
{
    let mut build = String::from_str("bun.");
    push_decimal(&mut build, bun_version.major);
    build.append(".");
    push_decimal(&mut build, bun_version.minor);
    build.append(".");
    push_decimal(&mut build, bun_version.patch);
    assert(build@ =~= bun_build_metadata(bun_version@));
    let version = SemVersion {
        major: masqueraded_version.major,
        minor: masqueraded_version.minor,
        patch: masqueraded_version.patch,
        pre: String::new(),
        build,
    };
    assert(version@ =~= spec_bunode_version(bun_version@, masqueraded_version@));
    version
}

/// What `node --version` prints for the wrapper: `v`, the Node.js release, `+bun.` and
/// the Bun release.
pub open spec fn spec_bunode_version_text(bun: SemVersionView, masqueraded: SemVersionView) -> Seq<char> {
    "v"@ + spec_version_text(spec_bunode_version(bun, masqueraded))
}

/// The text `node --version` prints for the wrapper.
pub fn bunode_version_text(bun_version: &SemVersion, masqueraded_version: &SemVersion) -> (text: String)
    ensures
        text@ == spec_bunode_version_text(bun_version@, masqueraded_version@),
{
    let version = bunode_version(bun_version, masqueraded_version);
    let body = version_text(&version);
    let mut text = String::from_str("v");
    text.append(body.as_str());
    text
}

} // verus!
