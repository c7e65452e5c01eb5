//! The request/response adapter: structural conversion across the
//! isolation boundary.
//!
//! Inbound, a transport request becomes the guest-facing request after its
//! headers pass well-formedness checks; a request with a malformed header is
//! rejected before any guest code runs.  Outbound, the guest's response
//! metadata and its streamed body chunks become the transport response
//! unchanged: chunks are forwarded in order and never buffered here.

use vstd::prelude::*;

use crate::errors::BridgeError;
use crate::headers::first_malformed_header;
use crate::headers::well_formed_headers;
use crate::http_model::Header;
use crate::http_model::RequestParts;
use crate::http_model::ResponseMeta;

verus! {

/// The inbound request as the guest sees it.  A value of this type exists
/// only for a request whose headers passed the adapter's checks.
pub struct GuestRequest {
    parts: RequestParts,
}

impl GuestRequest {
    /// The adapted request at the specification level.
    pub closed spec fn spec_parts(&self) -> RequestParts {
        self.parts
    }

    /// Every header of an adapted request is well formed.
    pub fn parts(&self) -> (p: &RequestParts)
        ensures
            *p == self.spec_parts(),
    {
        &self.parts
    }

    /// Surrenders the adapted request, e.g. to route it as an outbound call.
    pub fn into_parts(self) -> (p: RequestParts)
        ensures
            p == self.spec_parts(),
    {
        self.parts
    }
}

/// Converts a transport request into the guest-facing representation.  The
/// conversion is structural — method, authority, path and headers are kept
/// exactly — and fails only when a header is malformed, in which case no
/// guest-facing request exists for it.
pub fn adapt_request(parts: RequestParts) -> (r: Result<GuestRequest, BridgeError>)
    ensures
        match r {
            Ok(adapted) => well_formed_headers(parts.headers@) && adapted.spec_parts() == parts,
            Err(e) => !well_formed_headers(parts.headers@) && e == BridgeError::MalformedHeader,
        },
{
    match first_malformed_header(&parts.headers) {
        Some(_) => Err(BridgeError::MalformedHeader),
        None => Ok(GuestRequest { parts }),
    }
}

/// The response as it is handed back to the transport: the guest's metadata
/// plus the body chunks in the order the guest streamed them.
pub struct TransportResponse {
    pub status: u16,
    pub headers: Vec<Header>,
    pub body_chunks: Vec<String>,
}

/// Converts the guest's response metadata and its streamed body back into a
/// transport response.  The conversion is structural: status and headers are
/// kept exactly, and the body chunks are forwarded in order, unbuffered.
pub fn adapt_response(meta: ResponseMeta, body_chunks: Vec<String>) -> (r: TransportResponse)
    ensures
        r.status == meta.status,
        r.headers == meta.headers,
        r.body_chunks == body_chunks,
{
    TransportResponse { status: meta.status, headers: meta.headers, body_chunks }
}

} // verus!
