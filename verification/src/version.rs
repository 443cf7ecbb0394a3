//! The version that the engine reports of itself.
//!
//! The engine hands out a string. Whether it is a semantic version, and which
//! one, is decided by the `semver` crate.

use vstd::prelude::*;

verus! {

/// One dot-separated part of a pre-release tag or of build metadata.
#[derive(Clone, Debug, PartialEq, Eq)]
pub enum Identifier {
    /// A part made of digits only.
    Numeric(u64),
    /// A part with letters or hyphens in it.
    AlphaNumeric(String),
}

/// A semantic version: three numbers, a pre-release tag and build metadata.
#[derive(Clone, Debug, PartialEq, Eq)]
pub struct Version {
    pub major: u64,
    pub minor: u64,
    pub patch: u64,
    pub pre: Vec<Identifier>,
    pub build: Vec<Identifier>,
}

/// The engine reported a string that is no semantic version.
#[derive(Clone, Copy, Debug, PartialEq, Eq, Structural)]
pub struct VersionParseError;

/// What an [`Identifier`] holds.
pub enum IdentifierView {
    Numeric(u64),
    AlphaNumeric(Seq<char>),
}

/// What a [`Version`] holds.
pub struct VersionView {
    pub major: u64,
    pub minor: u64,
    pub patch: u64,
    pub pre: Seq<IdentifierView>,
    pub build: Seq<IdentifierView>,
}

impl View for Identifier {
    type V = IdentifierView;

    open spec fn view(&self) -> IdentifierView {
        match self {
            Identifier::Numeric(n) => IdentifierView::Numeric(*n),
            Identifier::AlphaNumeric(s) => IdentifierView::AlphaNumeric(s@),
        }
    }
}

impl View for Version {
    type V = VersionView;

    open spec fn view(&self) -> VersionView {
        VersionView {
            major: self.major,
            minor: self.minor,
            patch: self.patch,
            pre: Seq::new(self.pre@.len(), |i: int| self.pre@[i]@),
            build: Seq::new(self.build@.len(), |i: int| self.build@[i]@),
        }
    }
}

/// The error of `semver` for a string that it cannot parse.
#[verifier::external_type_specification]
#[verifier::external_body]
pub struct ExSemVerError(semver::SemVerError);

/// The semantic version that `semver` reads out of a string, if it reads one.
pub uninterp spec fn semver_parse(text: Seq<char>) -> Option<VersionView>;

/// `semver::Version::parse`: the version that the string spells, or the
/// crate's error when it spells none.
#[verifier::external_body]
fn parse_semver(text: &str) -> (parsed: Result<Version, semver::SemVerError>)
    ensures
        parsed matches Ok(v) ==> semver_parse(text@) == Some(v@),
        parsed is Err ==> semver_parse(text@) is None,
{
    let identifier = |id| match id {
        semver::Identifier::Numeric(n) => Identifier::Numeric(n),
        semver::Identifier::AlphaNumeric(s) => Identifier::AlphaNumeric(s),
    };
    let v = semver::Version::parse(text)?;
    Ok(Version {
        major: v.major,
        minor: v.minor,
        patch: v.patch,
        pre: v.pre.into_iter().map(identifier).collect(),
        build: v.build.into_iter().map(identifier).collect(),
    })
}

/// Turns what the parser said into the version or into this crate's error.
pub fn version_from_parsed(parsed: Result<Version, semver::SemVerError>) -> (version: Result<
    Version,
    VersionParseError,
>)
    ensures
        match parsed {
            Ok(v) => version == Ok::<Version, VersionParseError>(v),
            Err(_) => version == Err::<Version, VersionParseError>(VersionParseError),
        },
{
    match parsed {
        Ok(v) => Ok(v),
        Err(_) => Err(VersionParseError),
    }
}

/// Reads the version that the engine reported.
pub fn parse_version(reported: &str) -> (version: Result<Version, VersionParseError>)
    ensures
        match version {
            Ok(v) => semver_parse(reported@) == Some(v@),
            Err(_) => semver_parse(reported@) is None,
        },
{
    version_from_parsed(parse_semver(reported))
}

} // verus!
