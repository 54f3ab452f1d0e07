//! The request adapter: from the plain values read out of a runtime-native
//! request to the canonical request plus the computed path prefix.
//!
//! The host side only reads the native handle's fields (method, target,
//! version, header pairs, the router's matched path and unconsumed tail) and
//! hands them here unchanged; everything that decides is below and verified.

use vstd::prelude::*;

use crate::body::Body;
use crate::header::HeaderField;
use crate::message::CanonicalRequest;
use crate::prefix::{compute_prefix, is_suffix_of, spec_prefix};
use crate::version::{version_from_native, spec_version_from_native, AdapterError, NativeVersion};

verus! {

/// A canonical request together with the path prefix the host router had
/// already consumed when the handler was invoked.
#[derive(Debug)]
pub struct DavRequest {
    pub request: CanonicalRequest,
    pub prefix: Option<Vec<u8>>,
}

impl DavRequest {
    /// The computed prefix, at the specification level.
    pub open spec fn spec_prefix_value(&self) -> Option<Seq<u8>> {
        match self.prefix {
            Some(p) => Some(p@),
            None => None,
        }
    }

    /// The request path minus the tail, or `None` for a root mount.
    pub fn prefix(&self) -> (r: &Option<Vec<u8>>)
        ensures
            match r {
                Some(p) => self.spec_prefix_value() == Some(p@),
                None => self.spec_prefix_value() is None,
            },
    {
        &self.prefix
    }
}

/// Build the canonical request from the plain values of a native request.
///
/// The native version must translate into the canonical enumeration; a
/// version outside it is rejected here, before the protocol handler is ever
/// invoked.  Headers are preserved exactly: same count, same order, same
/// names and values, with no case normalization.  The body is wrapped, never
/// read.  The prefix is the matched path minus the unconsumed tail, with a
/// consumed portion of `""` or `"/"` collapsed to "no prefix".
pub fn from_native(
    method: String,
    target: String,
    version: NativeVersion,
    headers: Vec<HeaderField>,
    path: &[u8],
    tail: &[u8],
    body: Body,
) -> (r: Result<DavRequest, AdapterError>)
    requires
        is_suffix_of(tail@, path@),
    ensures
        r is Ok <==> spec_version_from_native(version) is Some,
        r is Err ==> r == Err::<DavRequest, AdapterError>(AdapterError::UnsupportedVersion),
        r matches Ok(d) ==> {
            &&& Some(d.request.version) == spec_version_from_native(version)
            &&& d.request.method == method
            &&& d.request.target == target
            &&& d.request.headers == headers
            &&& d.request.body == body
            &&& d.spec_prefix_value() == spec_prefix(path@, tail@)
        },
{
    let v = match version_from_native(version) {
        Ok(v) => v,
        Err(e) => {
            return Err(e);
        },
    };
    let prefix = compute_prefix(path, tail);
    Ok(DavRequest {
        request: CanonicalRequest { method, target, version: v, headers, body },
        prefix,
    })
}

} // verus!
