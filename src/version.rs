//! Checking the document's OpenAPI version against the supported range.

use vstd::prelude::*;
use crate::error::{Error, ErrorView};
use crate::spec::Spec;

verus! {

/// A semantic version: three numbers, then pre-release and build texts (empty
/// where absent).
#[derive(Debug, PartialEq)]
pub struct SemanticVersion {
    pub major: u64,
    pub minor: u64,
    pub patch: u64,
    pub pre: String,
    pub build: String,
}

/// The parts of a semantic version, as character sequences.
pub type VersionParts = (u64, u64, u64, Seq<char>, Seq<char>);

impl SemanticVersion {
    pub open spec fn parts(&self) -> VersionParts {
        (self.major, self.minor, self.patch, self.pre@, self.build@)
    }
}

/// What `semver::Version::parse` makes of a text: none where it refuses it.
pub uninterp spec fn parsed_version(text: Seq<char>) -> Option<VersionParts>;

/// Relies on `semver::Version::parse` for the SemVer 2.0 grammar: the result
/// depends on the text alone; its fields are copied over as they are.
#[verifier::external_body]
fn parse_semver(text: &str) -> (r: Option<SemanticVersion>)
    ensures
        r matches Some(v) ==> parsed_version(text@) == Some(v.parts()),
        r is None ==> parsed_version(text@) is None,
{
    match semver::Version::parse(text) {
        Ok(v) => Some(
            SemanticVersion {
                major: v.major,
                minor: v.minor,
                patch: v.patch,
                pre: v.pre.as_str().to_string(),
                build: v.build.as_str().to_string(),
            },
        ),
        Err(_) => None,
    }
}

/// Whether the version `v` is of the same major version as the release
/// `major.minor.patch` and does not precede it. A pre-release precedes the
/// release of the same three numbers; build metadata plays no part.
pub open spec fn supported_by(v: VersionParts, major: u64, minor: u64, patch: u64) -> bool {
    &&& v.0 == major
    &&& (v.1 > minor || (v.1 == minor && (v.2 > patch || (v.2 == patch && v.3.len() == 0))))
}

/// `3.0.0`, the least OpenAPI version that this library reads.
pub const MINIMUM_OPENAPI30_VERSION: &'static str = "3.0.0";

/// Accepts the versions of one major version from a minimum release on: with
/// the minimum `3.0.0`, the range `>=3.0.0, <4.0.0`.
#[derive(Clone, Copy, Debug, PartialEq, Eq)]
pub struct VersionValidator {
    pub major: u64,
    pub minor: u64,
    pub patch: u64,
}

impl VersionValidator {
    pub open spec fn accepts(&self, v: VersionParts) -> bool {
        supported_by(v, self.major, self.minor, self.patch)
    }

    /// The validator whose minimum is `MINIMUM_OPENAPI30_VERSION`.
    pub fn openapi30() -> (r: Self)
        ensures
            r.major == 3 && r.minor == 0 && r.patch == 0,
    {
        VersionValidator { major: 3, minor: 0, patch: 0 }
    }

    /// The validator whose minimum is the release written in `minimum`; none
    /// where it does not parse or is a pre-release.
    pub fn new(minimum: &str) -> (r: Option<Self>)
        ensures
            match parsed_version(minimum@) {
                Some(p) => if p.3.len() == 0 {
                    r matches Some(v) && v.major == p.0 && v.minor == p.1 && v.patch == p.2
                } else {
                    r is None
                },
                None => r is None,
            },
    {
        match parse_semver(minimum) {
            Some(v) => {
                if v.pre.as_str().unicode_len() == 0 {
                    Some(VersionValidator { major: v.major, minor: v.minor, patch: v.patch })
                } else {
                    None
                }
            },
            None => None,
        }
    }

    /// Whether this validator accepts the version `v`.
    pub fn accepts_version(&self, v: &SemanticVersion) -> (r: bool)
        ensures
            r == self.accepts(v.parts()),
    {
        v.major == self.major && (v.minor > self.minor || (v.minor == self.minor && (v.patch
            > self.patch || (v.patch == self.patch && v.pre.as_str().unicode_len() == 0))))
    }

    /// The version that `version` declares, where it parses and is accepted;
    /// otherwise `UnsupportedVersion` with the text found.
    pub fn validate(&self, version: &str) -> (r: Result<SemanticVersion, Error>)
        ensures
            match parsed_version(version@) {
                Some(p) => if self.accepts(p) {
                    r matches Ok(v) && v.parts() == p
                } else {
                    r matches Err(e) && e@ == ErrorView::UnsupportedVersion(version@)
                },
                None => r matches Err(e) && e@ == ErrorView::UnsupportedVersion(version@),
            },
    {
        match parse_semver(version) {
            Some(v) => {
                if self.accepts_version(&v) {
                    Ok(v)
                } else {
                    Err(Error::UnsupportedVersion(String::from_str(version)))
                }
            },
            None => Err(Error::UnsupportedVersion(String::from_str(version))),
        }
    }
}

impl Spec {
    /// The document's version, where `openapi` is in `>=3.0.0, <4.0.0`.
    pub fn validate_version(&self) -> (r: Result<SemanticVersion, Error>)
        ensures
            match parsed_version(self.openapi@) {
                Some(p) => if supported_by(p, 3, 0, 0) {
                    r matches Ok(v) && v.parts() == p
                } else {
                    r matches Err(e) && e@ == ErrorView::UnsupportedVersion(self.openapi@)
                },
                None => r matches Err(e) && e@ == ErrorView::UnsupportedVersion(self.openapi@),
            },
    {
        VersionValidator::openapi30().validate(self.openapi.as_str())
    }
}

} // verus!
