//! Semantic versions, as the `semver` crate parses, ranks and prints them.
//!
//! A `semver::Version` is opaque here. What the analysis needs of it is named
//! below, and the functions at the end of this file are believed, not proved.

use vstd::prelude::*;

verus! {

/// A parsed semantic version of the `semver` crate, carried through as it is.
#[verifier::external_type_specification]
#[verifier::external_body]
pub struct ExVersion(semver::Version);

/// What `semver::Version::parse` makes of a text: the version, or `None` where
/// the text is not a semantic version.
pub uninterp spec fn parsed_version(text: Seq<char>) -> Option<semver::Version>;

/// The canonical text of a version, as its `Display` impl prints it.
pub uninterp spec fn version_text(v: semver::Version) -> Seq<char>;

/// The numbers of a version: major, minor and patch.
pub uninterp spec fn version_core(v: semver::Version) -> (u64, u64, u64);

/// Whether a version has pre-release identifiers.
pub uninterp spec fn has_pre_release(v: semver::Version) -> bool;

/// Whether `a` stands above `b` by its pre-release identifiers, where both
/// versions have some.
pub uninterp spec fn pre_release_exceeds(a: semver::Version, b: semver::Version) -> bool;

/// `a` is greater than `b`, major first, then minor, then patch, each
/// compared as a number.
pub open spec fn core_exceeds(a: (u64, u64, u64), b: (u64, u64, u64)) -> bool {
    a.0 > b.0 || (a.0 == b.0 && (a.1 > b.1 || (a.1 == b.1 && a.2 > b.2)))
}

/// `a` has precedence over `b`: by its numbers, or, where the numbers are
/// the same, by the pre-release identifiers. A version without them stands
/// above one with them. Build metadata has no part in it.
pub open spec fn exceeds(a: semver::Version, b: semver::Version) -> bool {
    core_exceeds(version_core(a), version_core(b)) || (version_core(a) == version_core(b)
        && has_pre_release(b) && (!has_pre_release(a) || pre_release_exceeds(a, b)))
}

/// Calls `semver::Version::parse`. The contract claims that the outcome
/// depends on the text alone, and names it; an error becomes `None`.
#[verifier::external_body]
pub(crate) fn parse_version(text: &str) -> (parsed: Option<semver::Version>)
    ensures
        parsed == parsed_version(text@),
{
    semver::Version::parse(text).ok()
}

/// Calls `to_string` on a `semver::Version`. The contract names the text that
/// its `Display` impl writes.
#[verifier::external_body]
pub(crate) fn render_version(v: &semver::Version) -> (text: String)
    ensures
        text@ == version_text(*v),
{
    v.to_string()
}

/// Calls `semver::Version::cmp_precedence` and says whether `a` came out
/// greater. That comparison goes over major, minor, patch and the pre-release
/// identifiers, in this order, and disregards build metadata. The contract
/// states it for the three numbers, claims that with equal numbers a version
/// without pre-release identifiers stands above one with them and level with
/// another without them, and names what the identifiers decide between two
/// versions that both have some.
#[verifier::external_body]
pub(crate) fn version_exceeds(a: &semver::Version, b: &semver::Version) -> (greater: bool)
    ensures
        greater == (core_exceeds(version_core(*a), version_core(*b)) || (version_core(*a)
            == version_core(*b) && has_pre_release(*b) && (!has_pre_release(*a)
            || pre_release_exceeds(*a, *b)))),
{
    a.cmp_precedence(b).is_gt()
}

} // verus!
