//! The credential screen that sits in front of request handling.
//!
//! When authentication is enabled and no recognized credential header is
//! present, the screen produces a complete 401 challenge response itself and
//! the protocol handler is never invoked.  When a credential is present, its
//! principal is forwarded as a per-call override, stored nowhere.

use vstd::prelude::*;
use vstd::string::StringSliceAdditionalSpecFns;

use crate::body::Body;
use crate::header::{bytes_of, find_header, spec_find_header, HeaderField};
use crate::message::CanonicalResponse;
use crate::version::Version;

verus! {

/// The principal a Basic credential header value decodes to, or nothing when
/// the value is not a well-formed Basic credential.
pub uninterp spec fn basic_principal_of(value: Seq<u8>) -> Option<Seq<char>>;

/// Relies on `headers::Authorization<Basic>`: recognizes the `Basic` scheme
/// case-insensitively, decodes the base64 payload and yields the username
/// before the first colon.  The result depends on the bytes alone.
#[verifier::external_body]
fn parse_basic_credential(value: &[u8]) -> (r: Option<String>)
    ensures
        (match r {
            Some(p) => Some(p@),
            None => None::<Seq<char>>,
        }) == basic_principal_of(value@),
{
    let hv = match http::HeaderValue::from_bytes(value) {
        Ok(v) => v,
        Err(_) => return None,
    };
    let mut values = std::iter::once(&hv);
    match <headers::Authorization<headers::authorization::Basic> as headers::Header>::decode(
        &mut values,
    ) {
        Ok(auth) => Some(auth.0.username().to_string()),
        Err(_) => None,
    }
}

/// What the screen decided for one request.
#[derive(Debug)]
pub enum AuthOutcome {
    /// Reject before handling: respond with this challenge and never invoke
    /// the protocol handler.
    Challenge(CanonicalResponse),
    /// Hand the request to the protocol handler, with this principal (if
    /// any) as a per-call override.
    Forward(Option<String>),
}

/// The exact challenge the screen produces: 401, one `WWW-Authenticate`
/// header, and a short human-readable buffered body.
pub open spec fn is_challenge(resp: CanonicalResponse) -> bool {
    &&& resp.status == 401
    &&& resp.version == Version::H11
    &&& resp.headers@.len() == 1
    &&& resp.headers@[0].name@ == "WWW-Authenticate".spec_bytes()
    &&& resp.headers@[0].value@ == "Basic realm=\"foo\"".spec_bytes()
    &&& (resp.body matches Body::Bytes(b) && (b matches Some(m) && m@ == "please auth".spec_bytes()))
}

/// Build the 401 challenge response.
pub fn challenge_response() -> (r: CanonicalResponse)
    ensures
        is_challenge(r),
        r.wf(),
{
    let mut headers: Vec<HeaderField> = Vec::new();
    headers.push(HeaderField {
        name: bytes_of("WWW-Authenticate"),
        value: bytes_of("Basic realm=\"foo\""),
    });
    CanonicalResponse {
        status: 401,
        version: Version::H11,
        headers,
        body: Body::Bytes(Some(bytes_of("please auth"))),
    }
}

/// Decide from the authentication flag and the decoded credential (if any)
/// whether to challenge or to forward, and with which principal.
pub fn screen_principal(auth_required: bool, principal: Option<String>) -> (r: AuthOutcome)
    ensures
        !auth_required ==> (r matches AuthOutcome::Forward(p) && p is None),
        auth_required && principal is None ==> (r matches AuthOutcome::Challenge(resp)
            && is_challenge(resp) && resp.wf()),
        auth_required && principal is Some ==> (r matches AuthOutcome::Forward(p)
            && p == principal),
{
    if !auth_required {
        AuthOutcome::Forward(None)
    } else {
        match principal {
            Some(p) => AuthOutcome::Forward(Some(p)),
            None => AuthOutcome::Challenge(challenge_response()),
        }
    }
}

/// The credential the header list carries: the decoded principal of the
/// first `Authorization` header, where that header exists and is a
/// well-formed Basic credential.
pub open spec fn spec_request_principal(fields: Seq<HeaderField>) -> Option<Seq<char>> {
    match spec_find_header(fields, "Authorization".spec_bytes()) {
        Some(i) => basic_principal_of(fields[i].value@),
        None => None,
    }
}

/// Screen one request's header list.
///
/// With authentication disabled, the request is forwarded with no principal.
/// With it enabled: a request whose headers carry no recognizable Basic
/// credential draws the 401 challenge, and the protocol handler is not to be
/// invoked; otherwise the request is forwarded with exactly the decoded
/// principal, and the request itself is left untouched.
pub fn screen_request(auth_required: bool, fields: &Vec<HeaderField>) -> (r: AuthOutcome)
    ensures
        !auth_required ==> (r matches AuthOutcome::Forward(p) && p is None),
        auth_required && spec_request_principal(fields@) is None ==> (
        r matches AuthOutcome::Challenge(resp) && is_challenge(resp) && resp.wf()),
        auth_required && spec_request_principal(fields@) is Some ==> (
        r matches AuthOutcome::Forward(p) && p matches Some(s) && Some(s@)
            == spec_request_principal(fields@)),
{
    if !auth_required {
        return AuthOutcome::Forward(None);
    }
    let name = bytes_of("Authorization");
    let principal = match find_header(fields, name.as_slice()) {
        Some(i) => parse_basic_credential(fields[i].value.as_slice()),
        None => None,
    };
    screen_principal(auth_required, principal)
}

} // verus!
