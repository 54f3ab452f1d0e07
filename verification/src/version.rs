//! The canonical protocol-version enumeration and the bidirectional table
//! that translates it to and from a host runtime's own version values.
//!
//! Every request adapter and every response adapter goes through this one
//! table, so the two translation directions are provably inverse.

use vstd::prelude::*;

verus! {

/// The protocol versions the canonical model recognizes.
#[derive(Clone, Copy, Debug, PartialEq, Eq, Structural)]
pub enum Version {
    H09,
    H10,
    H11,
    H2,
    H3,
}

/// A host runtime's view of the protocol version: one of the five members of
/// the canonical enumeration, or a value this layer does not recognize.
///
/// The runtimes' version types are open-ended, so an adapter must be prepared
/// for a value outside the canonical set; such a value is carried here as
/// `Unrecognized`.
#[derive(Clone, Copy, Debug, PartialEq, Eq, Structural)]
pub enum NativeVersion {
    H09,
    H10,
    H11,
    H2,
    H3,
    Unrecognized,
}

/// Errors an adapter surfaces before the protocol handler is ever invoked.
#[derive(Clone, Copy, Debug, PartialEq, Eq, Structural)]
pub enum AdapterError {
    /// The inbound request carried a protocol version the canonical model
    /// does not recognize; the request is rejected without being handled.
    UnsupportedVersion,
}

pub open spec fn spec_version_from_native(n: NativeVersion) -> Option<Version> {
    match n {
        NativeVersion::H09 => Some(Version::H09),
        NativeVersion::H10 => Some(Version::H10),
        NativeVersion::H11 => Some(Version::H11),
        NativeVersion::H2 => Some(Version::H2),
        NativeVersion::H3 => Some(Version::H3),
        NativeVersion::Unrecognized => None,
    }
}

pub open spec fn spec_version_to_native(v: Version) -> NativeVersion {
    match v {
        Version::H09 => NativeVersion::H09,
        Version::H10 => NativeVersion::H10,
        Version::H11 => NativeVersion::H11,
        Version::H2 => NativeVersion::H2,
        Version::H3 => NativeVersion::H3,
    }
}

/// Translate a runtime-native version into the canonical enumeration.
///
/// A version outside the canonical set is a hard failure for the request: the
/// protocol handler has no way to express that response class itself.
pub fn version_from_native(n: NativeVersion) -> (r: Result<Version, AdapterError>)
    ensures
        match spec_version_from_native(n) {
            Some(v) => r == Ok::<Version, AdapterError>(v),
            None => r == Err::<Version, AdapterError>(AdapterError::UnsupportedVersion),
        },
{
    match n {
        NativeVersion::H09 => Ok(Version::H09),
        NativeVersion::H10 => Ok(Version::H10),
        NativeVersion::H11 => Ok(Version::H11),
        NativeVersion::H2 => Ok(Version::H2),
        NativeVersion::H3 => Ok(Version::H3),
        NativeVersion::Unrecognized => Err(AdapterError::UnsupportedVersion),
    }
}

/// Translate a canonical version back into the runtime's enumeration.
///
/// Every canonical version has a native counterpart, so this direction is
/// total.
pub fn version_to_native(v: Version) -> (r: NativeVersion)
    ensures
        r == spec_version_to_native(v),
{
    match v {
        Version::H09 => NativeVersion::H09,
        Version::H10 => NativeVersion::H10,
        Version::H11 => NativeVersion::H11,
        Version::H2 => NativeVersion::H2,
        Version::H3 => NativeVersion::H3,
    }
}

/// For every canonical version, translating out to the native enumeration and
/// back in again yields the original version.
pub proof fn lemma_version_round_trip(v: Version)
    ensures
        spec_version_from_native(spec_version_to_native(v)) == Some(v),
{
}

/// For every recognized native version, translating into the canonical
/// enumeration and back out again yields the original native value.
pub proof fn lemma_native_version_round_trip(n: NativeVersion)
    ensures
        spec_version_from_native(n) matches Some(v) ==> spec_version_to_native(v) == n,
{
}

} // verus!
