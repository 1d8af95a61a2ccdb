//! The parts of the `semver` crate that the engine version check goes through.
//!
//! Matching a version against a requirement in general takes the whole `semver` evaluator
//! to state, so its result has a name here; what `semver` documents for the tilde
//! requirements that this library uses is stated over that name.

use semver::{BuildMetadata, Prerelease, Version, VersionReq};
use vstd::prelude::*;

verus! {

#[verifier::external_type_specification]
#[verifier::external_body]
pub struct ExVersion(Version);

#[verifier::external_type_specification]
#[verifier::external_body]
pub struct ExVersionReq(VersionReq);

#[verifier::external_type_specification]
#[verifier::external_body]
pub struct ExPrerelease(Prerelease);

#[verifier::external_type_specification]
#[verifier::external_body]
pub struct ExBuildMetadata(BuildMetadata);

#[verifier::external_type_specification]
#[verifier::external_body]
pub struct ExSemverError(semver::Error);

/// `true` for the characters an identifier segment may hold: `0-9`, `A-Z`, `a-z` and `-`.
pub open spec fn is_identifier_char(c: char) -> bool {
    ||| crate::text::is_digit(c)
    ||| ('A' <= c && c <= 'Z')
    ||| ('a' <= c && c <= 'z')
    ||| c == '-'
}

/// `true` if `t` is empty, or is made of non-empty segments of identifier characters
/// separated by single dots.
pub open spec fn dotted_identifiers(t: Seq<char>) -> bool {
    t.len() == 0 || {
        &&& forall|i: int| 0 <= i < t.len() ==> (is_identifier_char(#[trigger] t[i]) || t[i] == '.')
        &&& t[0] != '.'
        &&& t[t.len() - 1] != '.'
        &&& forall|i: int| 0 <= i < t.len() - 1 ==> !(#[trigger] t[i] == '.' && t[i + 1] == '.')
    }
}

/// `true` if the segment `t[start..end]` is a numeric segment with a leading zero, such
/// as `01`.
pub open spec fn leading_zero_segment(t: Seq<char>, start: int, end: int) -> bool {
    &&& 0 <= start
    &&& start + 1 < end <= t.len()
    &&& start == 0 || t[start - 1] == '.'
    &&& end == t.len() || t[end] == '.'
    &&& forall|k: int| start <= k < end ==> crate::text::is_digit(#[trigger] t[k])
    &&& t[start] == '0'
}

/// The texts that `BuildMetadata::new` accepts.
pub open spec fn valid_build_metadata(t: Seq<char>) -> bool {
    dotted_identifiers(t)
}

/// The texts that `Prerelease::new` accepts: those of build metadata, without a numeric
/// segment that has a leading zero.
pub open spec fn valid_prerelease(t: Seq<char>) -> bool {
    &&& dotted_identifiers(t)
    &&& forall|start: int, end: int| !#[trigger] leading_zero_segment(t, start, end)
}

/// The text `~I.J.K` of a tilde requirement.
pub open spec fn tilde_text(major: u64, minor: u64, patch: u64) -> Seq<char> {
    seq!['~'] + crate::text::decimal(major as nat) + seq!['.'] + crate::text::decimal(minor as nat) + seq!['.'] + crate::text::decimal(
        patch as nat,
    )
}

/// The pre-release that `Prerelease::new` makes of an accepted text.
pub uninterp spec fn prerelease_of(text: Seq<char>) -> Prerelease;

/// The build metadata that `BuildMetadata::new` makes of an accepted text.
pub uninterp spec fn build_metadata_of(text: Seq<char>) -> BuildMetadata;

/// The version with the given numbers, whose pre-release and build metadata are those
/// made of the texts `pre` and `build`.
pub uninterp spec fn version_of(
    major: u64,
    minor: u64,
    patch: u64,
    pre: Seq<char>,
    build: Seq<char>,
) -> Version;

/// The requirement that `VersionReq::parse` makes of an accepted text.
pub uninterp spec fn version_req_of(text: Seq<char>) -> VersionReq;

/// What `VersionReq::matches` answers for the requirement parsed from `req` and the version
/// [`version_of`] the other arguments.
pub uninterp spec fn req_matches(
    req: Seq<char>,
    major: u64,
    minor: u64,
    patch: u64,
    pre: Seq<char>,
    build: Seq<char>,
) -> bool;

/// Calls `semver::Prerelease::new`, which accepts exactly the [`valid_prerelease`] texts.
#[verifier::external_body]
pub(crate) fn new_prerelease(text: &str) -> (r: Result<Prerelease, semver::Error>)
    ensures
        r is Ok <==> valid_prerelease(text@),
        r matches Ok(p) ==> p == prerelease_of(text@),
{
    Prerelease::new(text)
}

/// Calls `semver::BuildMetadata::new`, which accepts exactly the [`valid_build_metadata`]
/// texts.
#[verifier::external_body]
pub(crate) fn new_build_metadata(text: &str) -> (r: Result<BuildMetadata, semver::Error>)
    ensures
        r is Ok <==> valid_build_metadata(text@),
        r matches Ok(b) ==> b == build_metadata_of(text@),
{
    BuildMetadata::new(text)
}

/// Builds a `semver::Version` from its five public fields; `pre_text` and `build_text` are
/// the texts the pre-release and the build metadata were made of.
#[verifier::external_body]
pub(crate) fn make_version(
    major: u64,
    minor: u64,
    patch: u64,
    pre: Prerelease,
    pre_text: &str,
    build: BuildMetadata,
    build_text: &str,
) -> (r: Version)
    requires
        pre == prerelease_of(pre_text@),
        build == build_metadata_of(build_text@),
    ensures
        r == version_of(major, minor, patch, pre_text@, build_text@),
{
    Version { major, minor, patch, pre, build }
}

/// Calls `semver::VersionReq::parse`, which accepts every tilde requirement `~I.J.K`.
#[verifier::external_body]
pub(crate) fn parse_version_req(text: &str) -> (r: Result<VersionReq, semver::Error>)
    ensures
        r matches Ok(q) ==> q == version_req_of(text@),
        forall|major: u64, minor: u64, patch: u64|
            text@ == #[trigger] tilde_text(major, minor, patch) ==> r is Ok,
{
    VersionReq::parse(text)
}

/// Calls `semver::VersionReq::matches` on `req`, parsed from `req_text`, and `version`,
/// built from the other arguments. For a tilde requirement `~I.J.K` and accepted pre-release
/// and build texts, the version matches exactly when its major and minor numbers are `I`
/// and `J`, its patch number is at least `K`, and it has no pre-release part; build metadata
/// plays no part.
#[verifier::external_body]
pub(crate) fn version_req_matches(
    req: &VersionReq,
    req_text: &str,
    version: &Version,
    major: u64,
    minor: u64,
    patch: u64,
    pre_text: &str,
    build_text: &str,
) -> (r: bool)
    requires
        *req == version_req_of(req_text@),
        *version == version_of(major, minor, patch, pre_text@, build_text@),
    ensures
        r == req_matches(req_text@, major, minor, patch, pre_text@, build_text@),
        forall|i: u64, j: u64, k: u64|
            req_text@ == #[trigger] tilde_text(i, j, k) && valid_prerelease(pre_text@)
                && valid_build_metadata(build_text@) ==> (r <==> (major == i && minor == j && patch
                >= k && pre_text@.len() == 0)),
{
    req.matches(version)
}

} // verus!
