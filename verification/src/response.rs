//! The response adapter: from a canonical response to the plain rendering
//! plan a host runtime executes.
//!
//! The plan says verbatim which status and headers to write, which native
//! version to stamp, and whether to use the runtime's buffered or streaming
//! body constructor.  The one place the adapter overrides the canonical
//! value: a status for which the protocol handler guarantees an empty body
//! must not take the streaming path, because a streaming encoder can emit a
//! framing artifact (an empty chunked terminator) that a strict client could
//! misinterpret on that status.

use vstd::prelude::*;

use crate::body::{Body, DavBody};
use crate::header::HeaderField;
use crate::message::CanonicalResponse;
use crate::version::{version_to_native, spec_version_to_native, NativeVersion};

verus! {

/// How the native response body is to be written.
#[derive(Debug)]
pub enum BodyEncoding {
    /// Write through the runtime's buffered-body constructor; `None` means
    /// zero bytes.
    Buffered(Option<Vec<u8>>),
    /// Write through the runtime's streaming-body constructor, pulling
    /// frames through the valve.
    Streamed(DavBody),
}

/// Everything the host runtime needs in order to build its native response.
#[derive(Debug)]
pub struct ResponsePlan {
    pub status: u16,
    pub version: NativeVersion,
    pub headers: Vec<HeaderField>,
    pub encoding: BodyEncoding,
}

/// The status on which a stream body is forced onto the buffered path.  The
/// protocol handler's contract guarantees the body is empty for this status,
/// and the streaming encoder of at least one runtime emits a stray chunked
/// terminator for it.
pub open spec fn spec_forces_buffered_empty(status: u16) -> bool {
    status == 204
}

/// Turn a canonical response into the plan its native rendering follows.
///
/// Status and headers are copied verbatim in order; the version goes through
/// the inverse of the request-side enumeration table.  An `Empty` or `Bytes`
/// body takes the buffered path; a `Stream` body takes the streaming path,
/// except on a status whose body is guaranteed empty, where an empty
/// buffered body is forced instead.
pub fn plan_response(resp: CanonicalResponse) -> (r: ResponsePlan)
    ensures
        r.status == resp.status,
        r.version == spec_version_to_native(resp.version),
        r.headers == resp.headers,
        match resp.body {
            Body::Empty => r.encoding matches BodyEncoding::Buffered(None),
            Body::Bytes(b) => (r.encoding matches BodyEncoding::Buffered(bb) && bb == b),
            Body::Stream(g) => {
                if spec_forces_buffered_empty(resp.status) {
                    r.encoding matches BodyEncoding::Buffered(None)
                } else {
                    (r.encoding matches BodyEncoding::Streamed(gg) && gg == g)
                }
            },
        },
{
    let CanonicalResponse { status, version, headers, body } = resp;
    let native_version = version_to_native(version);
    let encoding = match body {
        Body::Empty => BodyEncoding::Buffered(None),
        Body::Bytes(b) => BodyEncoding::Buffered(b),
        Body::Stream(g) => {
            if status == 204 {
                BodyEncoding::Buffered(None)
            } else {
                BodyEncoding::Streamed(g)
            }
        },
    };
    ResponsePlan { status, version: native_version, headers, encoding }
}

} // verus!
