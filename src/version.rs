//! The compare policy: whether a remote version calls for an update of a
//! local one, by exact text or by semantic-version precedence.

use std::cmp::Ordering;
use vstd::prelude::*;

use crate::text::str_eq;

verus! {

/// How two version strings are judged.
#[derive(Clone, Copy, Debug, PartialEq, Eq, Structural)]
pub enum CompareMode {
    /// Opaque identifiers: any difference calls for an update.
    String,
    /// Semantic versions: an update is due when the local one precedes the remote one.
    Semver,
}

impl Default for CompareMode {
    fn default() -> (r: CompareMode)
        ensures
            r == CompareMode::String,
    {
        CompareMode::String
    }
}

/// A semantic version, read by semver; its numbers and the text of its
/// pre-release and build parts are what the contracts speak of.
#[derive(Debug)]
pub struct SemVer {
    major: u64,
    minor: u64,
    patch: u64,
    pre: String,
    build: String,
    parsed: semver::Version,
}

/// Major, minor, patch, pre-release text, build text.
pub type VersionParts = (u64, u64, u64, Seq<char>, Seq<char>);

impl View for SemVer {
    type V = VersionParts;

    closed spec fn view(&self) -> VersionParts {
        (self.major, self.minor, self.patch, self.pre@, self.build@)
    }
}

/// What the semantic-version grammar reads in `s`, or `None` where `s` is
/// not a semantic version.
pub uninterp spec fn semver_parts(s: Seq<char>) -> Option<VersionParts>;

/// Order of two distinct, non-empty pre-release texts under the rules of
/// semantic versioning.
pub uninterp spec fn prerelease_order(a: Seq<char>, b: Seq<char>) -> Ordering;

/// semver's parse error, carried without looking inside.
#[verifier::external_type_specification]
#[verifier::external_body]
pub struct ExSemverError(semver::Error);

/// semver's version, held beside the plain values read from it.
#[verifier::external_type_specification]
#[verifier::external_body]
pub struct ExSemverVersion(semver::Version);

/// Relies on semver::Version::parse: on success its major, minor and patch
/// numbers and the text of its pre-release and build parts, which depend
/// on `s` alone; its error exactly where `s` is not a semantic version.
#[verifier::external_body]
fn semver_parse(s: &str) -> (r: Result<SemVer, semver::Error>)
    ensures
        match r {
            Ok(v) => semver_parts(s@) == Some(v@),
            Err(_) => semver_parts(s@) is None,
        },
{
    match semver::Version::parse(s) {
        Ok(v) => Ok(SemVer {
            major: v.major,
            minor: v.minor,
            patch: v.patch,
            pre: v.pre.as_str().to_string(),
            build: v.build.as_str().to_string(),
            parsed: v,
        }),
        Err(e) => Err(e),
    }
}

/// Ordering of two integers.
pub open spec fn cmp_int(a: int, b: int) -> Ordering {
    if a < b {
        Ordering::Less
    } else if a > b {
        Ordering::Greater
    } else {
        Ordering::Equal
    }
}

/// Semantic-version precedence: major, minor and patch as numbers, then the
/// pre-release text, where a release follows every pre-release of the same
/// numbers; build metadata takes no part.
pub open spec fn precedence(a: VersionParts, b: VersionParts) -> Ordering {
    if a.0 != b.0 {
        cmp_int(a.0 as int, b.0 as int)
    } else if a.1 != b.1 {
        cmp_int(a.1 as int, b.1 as int)
    } else if a.2 != b.2 {
        cmp_int(a.2 as int, b.2 as int)
    } else if a.3 == b.3 {
        Ordering::Equal
    } else if a.3.len() == 0 {
        Ordering::Greater
    } else if b.3.len() == 0 {
        Ordering::Less
    } else {
        prerelease_order(a.3, b.3)
    }
}

/// Relies on semver::Version::cmp_precedence: the tuple order of major,
/// minor, patch and pre-release, where semver's pre-release order makes
/// equal texts equal and the empty text greater than any other.
#[verifier::external_body]
pub(crate) fn precedence_cmp(a: &SemVer, b: &SemVer) -> (r: Ordering)
    ensures
        r == precedence(a@, b@),
        a@.0 == b@.0 && a@.1 == b@.1 && a@.2 == b@.2 && a@.3 != b@.3 && a@.3.len() > 0
            && b@.3.len() > 0 ==> r == prerelease_order(a@.3, b@.3),
{
    a.parsed.cmp_precedence(&b.parsed)
}

/// Why a version could not be compared.
#[derive(Debug)]
pub struct VersionError {
    /// The text that is not a semantic version.
    pub text: String,
}

impl SemVer {
    /// Reads `s` as a semantic version.
    pub fn parse(s: &str) -> (r: Result<SemVer, VersionError>)
        ensures
            match r {
                Ok(v) => semver_parts(s@) == Some(v@),
                Err(e) => semver_parts(s@) is None && e.text@ == s@,
            },
    {
        match semver_parse(s) {
            Ok(v) => Ok(v),
            Err(_) => Err(VersionError { text: s.to_owned() }),
        }
    }

    pub fn major(&self) -> (r: u64)
        ensures
            r == self@.0,
    {
        self.major
    }

    pub fn minor(&self) -> (r: u64)
        ensures
            r == self@.1,
    {
        self.minor
    }

    pub fn patch(&self) -> (r: u64)
        ensures
            r == self@.2,
    {
        self.patch
    }

    /// The pre-release text, empty for a release.
    pub fn pre(&self) -> (r: &str)
        ensures
            r@ == self@.3,
    {
        self.pre.as_str()
    }

    /// The build metadata text, empty where there is none.
    pub fn build(&self) -> (r: &str)
        ensures
            r@ == self@.4,
    {
        self.build.as_str()
    }
}

/// Whether an update is due under `mode` for a local version `local` and a
/// remote version `remote`, or `None` where the two cannot be compared.
pub open spec fn update_due(mode: CompareMode, local: Seq<char>, remote: Seq<char>) -> Option<
    bool,
> {
    match mode {
        CompareMode::String => Some(local != remote),
        CompareMode::Semver => match (semver_parts(local), semver_parts(remote)) {
            (Some(l), Some(r)) => Some(precedence(l, r) == Ordering::Less),
            _ => None,
        },
    }
}

/// Two versions that could not be compared under semantic-version rules.
#[derive(Debug)]
pub struct CompareError {
    pub local: String,
    pub remote: String,
}

/// Whether `local` precedes `remote`, so that an update is due.
pub fn semver_needs_update(local: &SemVer, remote: &SemVer) -> (r: bool)
    ensures
        r == (precedence(local@, remote@) == Ordering::Less),
{
    match precedence_cmp(local, remote) {
        Ordering::Less => true,
        _ => false,
    }
}

/// Whether an update is needed: in string mode exactly when the two texts
/// differ; in semantic-version mode exactly when `local_ver` precedes
/// `remote_ver`, and an error naming both texts when either is not a
/// semantic version.
pub fn needs_update(compare_mode: CompareMode, local_ver: &str, remote_ver: &str) -> (r: Result<
    bool,
    CompareError,
>)
    ensures
        match r {
            Ok(b) => update_due(compare_mode, local_ver@, remote_ver@) == Some(b),
            Err(e) => update_due(compare_mode, local_ver@, remote_ver@) is None && e.local@
                == local_ver@ && e.remote@ == remote_ver@,
        },
{
    match compare_mode {
        CompareMode::String => Ok(!str_eq(local_ver, remote_ver)),
        CompareMode::Semver => {
            let l = SemVer::parse(local_ver);
            let r = SemVer::parse(remote_ver);
            match (l, r) {
                (Ok(lv), Ok(rv)) => Ok(semver_needs_update(&lv, &rv)),
                _ => Err(CompareError { local: local_ver.to_owned(), remote: remote_ver.to_owned() }),
            }
        },
    }
}

/// Under either mode, a version never calls for an update to itself.
pub proof fn lemma_same_version_no_update(mode: CompareMode, s: Seq<char>)
    ensures
        update_due(mode, s, s) != Some(true),
{
}

} // verus!
