//! Error taxonomy of the bridge.

use vstd::prelude::*;

verus! {

/// Structured error codes a guest-level operation can produce: the value an
/// outbound call is denied with, or the value the guest places in the
/// response outparam when it fails.
#[derive(Clone, Copy, Debug, PartialEq, Eq, Structural)]
pub enum ErrorCode {
    /// An outbound call was blocked because its authority is the rejected one.
    RequestDenied,
    /// A request or outbound call carried a forbidden header.
    ForbiddenHeader,
    /// The guest reported an internal fault of its own.
    InternalFault,
}

/// The structured errors a whole request can end with.  A request produces
/// exactly one of: a transport response, or one of these.
#[derive(Clone, Copy, Debug, PartialEq, Eq, Structural)]
pub enum BridgeError {
    /// The capability table could not be established (e.g. the filesystem
    /// root cannot be opened under the requested permission set).  Surfaced
    /// before any guest code runs.
    Configuration,
    /// The transport request cannot be adapted for the guest (a malformed
    /// header).  No guest invocation occurs.
    MalformedHeader,
    /// The guest delivered an explicit error code through the outparam.
    GuestFailed(ErrorCode),
    /// The guest unit trapped or faulted during execution.
    GuestExecutionFault,
    /// The guest task ended without ever delivering a response.
    GuestAbandoned,
}

} // verus!
