//! Semantic versions and version requirements.

use vstd::prelude::*;
use crate::text::{decimal, decimal_text};

verus! {

/// A semantic version: three numbers, with optional pre-release and build
/// identifiers (empty when absent).
#[derive(Debug, Clone, PartialEq, Eq, Hash)]
pub struct Version {
    pub major: u64,
    pub minor: u64,
    pub patch: u64,
    pub pre: String,
    pub build: String,
}

impl Version {
    /// A release version with no pre-release or build identifiers.
    pub fn new(major: u64, minor: u64, patch: u64) -> (r: Version)
        ensures
            r.major == major,
            r.minor == minor,
            r.patch == patch,
            r.pre@ == Seq::<char>::empty(),
            r.build@ == Seq::<char>::empty(),
    {
        Version { major, minor, patch, pre: String::new(), build: String::new() }
    }

    /// A copy equal to this version.
    pub fn duplicate(&self) -> (r: Version)
        ensures
            r == *self,
    {
        Version { major: self.major, minor: self.minor, patch: self.patch, pre: self.pre.clone(), build: self.build.clone() }
    }
}

} // verus!

verus! {

/// Whether `req` is a valid requirement and `v` satisfies it, by semver's rules.
pub uninterp spec fn req_matches(req: Seq<char>, major: u64, minor: u64, patch: u64, pre: Seq<char>, build: Seq<char>) -> bool;

/// Whether `text` is a valid semver requirement.
pub uninterp spec fn req_valid(text: Seq<char>) -> bool;

/// Relies on semver's `VersionReq::parse` succeeding exactly on valid requirements.
#[verifier::external_body]
fn parse_requirement(text: &str) -> (r: bool)
    ensures
        r == req_valid(text@),
{
    semver::VersionReq::parse(text).is_ok()
}

/// Relies on semver's `VersionReq::parse` and `VersionReq::matches`. A
/// pre-release or build text that semver would not accept makes no match.
#[verifier::external_body]
fn requirement_matches(req: &str, v: &Version) -> (r: bool)
    ensures
        r == req_matches(req@, v.major, v.minor, v.patch, v.pre@, v.build@),
{
    let (Ok(pre), Ok(build)) = (semver::Prerelease::new(&v.pre), semver::BuildMetadata::new(&v.build)) else {
        return false;
    };
    let version = semver::Version { major: v.major, minor: v.minor, patch: v.patch, pre, build };
    semver::VersionReq::parse(req).is_ok_and(|q| q.matches(&version))
}

/// A semver version requirement such as `^1.0`, `>=2, <3` or `*`, kept as its text.
#[derive(Debug, Clone)]
pub struct VersionReq {
    text: String,
}

impl VersionReq {
    pub closed spec fn text_view(&self) -> Seq<char> {
        self.text@
    }

    /// Accepts the text if semver does.
    pub fn parse(text: &str) -> (r: Result<VersionReq, String>)
        ensures
            r is Ok <==> req_valid(text@),
            r is Ok ==> r->Ok_0.text_view() == text@,
    {
        if parse_requirement(text) {
            Ok(VersionReq { text: String::from_str(text) })
        } else {
            Err(String::from_str("invalid version requirement"))
        }
    }

    /// The requirement as written.
    pub fn as_str(&self) -> (r: &str)
        ensures
            r@ == self.text_view(),
    {
        self.text.as_str()
    }

    /// Whether the version satisfies this requirement.
    pub fn matches(&self, version: &Version) -> (r: bool)
        ensures
            r == req_matches(self.text_view(), version.major, version.minor, version.patch, version.pre@, version.build@),
    {
        requirement_matches(self.text.as_str(), version)
    }
}

} // verus!

verus! {

/// The fields of the version `text` denotes, or `None` when it is not a
/// valid semantic version.
pub uninterp spec fn parsed_version(text: Seq<char>) -> Option<(u64, u64, u64, Seq<char>, Seq<char>)>;

/// Relies on semver's `Version::parse`, taking its numbers and the text of
/// its pre-release and build identifiers.
#[verifier::external_body]
fn parse_version(text: &str) -> (r: Option<Version>)
    ensures
        match (r, parsed_version(text@)) {
            (None, None) => true,
            (Some(v), Some(p)) => p == (v.major, v.minor, v.patch, v.pre@, v.build@),
            _ => false,
        },
{
    semver::Version::parse(text).ok().map(|v| Version {
        major: v.major,
        minor: v.minor,
        patch: v.patch,
        pre: v.pre.as_str().to_string(),
        build: v.build.as_str().to_string(),
    })
}

impl Version {
    pub open spec fn fields(&self) -> (u64, u64, u64, Seq<char>, Seq<char>) {
        (self.major, self.minor, self.patch, self.pre@, self.build@)
    }

    /// Parses a semantic version such as `1.2.3-alpha.1+build.5`.
    pub fn parse(text: &str) -> (r: Result<Version, String>)
        ensures
            r is Ok <==> parsed_version(text@) is Some,
            r is Ok ==> Some(r->Ok_0.fields()) == parsed_version(text@),
    {
        match parse_version(text) {
            Some(v) => Ok(v),
            None => Err(String::from_str("invalid semantic version")),
        }
    }

    /// `major.minor.patch`, then `-pre` and `+build` when present.
    pub open spec fn text(&self) -> Seq<char> {
        decimal_text(self.major as nat) + "."@ + decimal_text(self.minor as nat) + "."@ + decimal_text(self.patch as nat)
            + (if self.pre@.len() > 0 { "-"@ + self.pre@ } else { Seq::empty() })
            + (if self.build@.len() > 0 { "+"@ + self.build@ } else { Seq::empty() })
    }

    /// The version written out.
    pub fn to_text(&self) -> (r: String)
        ensures
            r@ == self.text(),
    {
        let mut s = decimal(self.major);
        s.append(".");
        let minor = decimal(self.minor);
        s.append(minor.as_str());
        s.append(".");
        let patch = decimal(self.patch);
        s.append(patch.as_str());
        if self.pre.unicode_len() > 0 {
            s.append("-");
            s.append(self.pre.as_str());
        }
        if self.build.unicode_len() > 0 {
            s.append("+");
            s.append(self.build.as_str());
        }
        proof {
            reveal_strlit("");
        }
        s
    }
}

} // verus!
