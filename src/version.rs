//! Whether the registry knows of a newer release of the tool.
use vstd::prelude::*;

verus! {

/// `semver::Version`, a parsed version; opaque here.
#[verifier::external_type_specification]
#[verifier::external_body]
pub struct ExVersion(semver::Version);

/// `semver::Error`, why a text is not a version; opaque here.
#[verifier::external_type_specification]
#[verifier::external_body]
pub struct ExSemverError(semver::Error);

/// The text is one that `semver::Version::parse` accepts.
pub uninterp spec fn is_semver_text(text: Seq<char>) -> bool;

/// Relies on `semver::Version::parse`: whether it accepts a text (the semver
/// grammar, with numbers that fit in 64 bits) depends on the text alone.
pub assume_specification[ semver::Version::parse ](text: &str) -> (r: Result<semver::Version, semver::Error>)
    ensures
        r is Ok <==> is_semver_text(text@),
;

/// Relies on the `PartialOrd` impl of `semver::Version`, which orders
/// versions by major, minor and patch numbers, then pre-release and build.
#[verifier::external_body]
fn version_greater(a: &semver::Version, b: &semver::Version) -> bool {
    a > b
}

/// Whether `latest`, the newest release the registry knows of, is a valid
/// version greater than `current`. Any text that is not a version gives
/// false, so that an odd registry entry never gets in the way.
pub fn newer_version_available(latest: Option<&str>, current: &str) -> (r: bool)
    ensures
        r ==> latest is Some && is_semver_text(latest->0@) && is_semver_text(current@),
{
    match latest {
        Some(text) => match semver::Version::parse(text) {
            Ok(registry_version) => match semver::Version::parse(current) {
                Ok(current_version) => version_greater(&registry_version, &current_version),
                Err(_) => false,
            },
            Err(_) => false,
        },
        None => false,
    }
}

} // verus!
