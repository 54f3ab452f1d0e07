//! The canonical request and response model, shared by every adapter and by
//! the protocol handler.

use vstd::prelude::*;

use crate::body::Body;
use crate::header::HeaderField;
use crate::version::Version;

verus! {

/// The runtime-independent request: method, target URI, protocol version, an
/// ordered header list and a canonical body.  Immutable once constructed and
/// owned exclusively by whoever holds the value.
#[derive(Debug)]
pub struct CanonicalRequest {
    pub method: String,
    pub target: String,
    pub version: Version,
    pub headers: Vec<HeaderField>,
    pub body: Body,
}

/// The runtime-independent response: numeric status code, protocol version,
/// header list and canonical body.  Constructed exactly once and consumed
/// exactly once by a response adapter.
#[derive(Debug)]
pub struct CanonicalResponse {
    pub status: u16,
    pub version: Version,
    pub headers: Vec<HeaderField>,
    pub body: Body,
}

/// A status code the canonical model admits.
pub open spec fn status_valid(status: u16) -> bool {
    100 <= status <= 599
}

impl CanonicalResponse {
    /// Well-formedness of a response: its status code is in the admitted
    /// range.
    pub open spec fn wf(&self) -> bool {
        status_valid(self.status)
    }
}

} // verus!
