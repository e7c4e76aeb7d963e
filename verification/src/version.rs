//! Semantic versions, read and ordered by the `semver` crate.
//!
//! A parsed version is a `semver::Version`, which stays opaque here. The
//! crate's calls stand behind the two functions at the end of this module,
//! whose contracts are taken on trust.

use vstd::prelude::*;
use std::cmp::Ordering;
use crate::status::Status;

verus! {

/// `semver::Version`, a parsed version, carried through unopened.
#[verifier::external_type_specification]
#[verifier::external_body]
pub struct ExVersion(semver::Version);

/// `semver::Error`, the error of a text that is no version; only its
/// presence is looked at.
#[verifier::external_type_specification]
#[verifier::external_body]
pub struct ExVersionError(semver::Error);

/// The version that `semver` reads from a text, if the text is a version.
pub uninterp spec fn version_of(text: Seq<char>) -> Option<semver::Version>;

/// How `left` stands to `right` in precedence: by major, minor and patch
/// number, then by pre-release identifiers, with build metadata ignored.
pub uninterp spec fn precedence(left: semver::Version, right: semver::Version) -> Ordering;

/// The status that an ordering of the resolved version against the declared
/// one stands for: out of date where the resolved version is the greater.
pub open spec fn freshness_of(order: Ordering) -> Status {
    match order {
        Ordering::Greater => Status::OutOfDate,
        Ordering::Less | Ordering::Equal => Status::UpToDate,
    }
}

/// The status of a dependency, given how its resolved version stands to its
/// declared version.
pub fn freshness(order: Ordering) -> (status: Status)
    ensures
        status == freshness_of(order),
{
    match order {
        Ordering::Greater => Status::OutOfDate,
        Ordering::Less | Ordering::Equal => Status::UpToDate,
    }
}

/// Whether the resolved version has strictly greater precedence than the
/// declared one.
pub open spec fn supersedes(resolved: semver::Version, declared: semver::Version) -> bool {
    precedence(resolved, declared) is Greater
}

/// Calls `semver::Version::parse`. Trusted: the outcome depends on the text
/// alone, so it is the named version or, for a text that is no version, an
/// error.
#[verifier::external_body]
pub(crate) fn parse_version(text: &str) -> (r: Result<semver::Version, semver::Error>)
    ensures
        match r {
            Ok(version) => version_of(text@) == Some(version),
            Err(_) => version_of(text@) is None,
        },
{
    semver::Version::parse(text)
}

/// Calls `semver::Version::cmp_precedence`. Trusted: the outcome depends on
/// the two versions alone.
#[verifier::external_body]
pub(crate) fn compare_precedence(left: &semver::Version, right: &semver::Version) -> (r: Ordering)
    ensures
        r == precedence(*left, *right),
{
    left.cmp_precedence(right)
}

} // verus!
