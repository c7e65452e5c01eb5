//! The capability table and the outbound-call policy.
//!
//! A capability table enumerates, per execution context, what the guest may
//! touch: one mounted filesystem root with a fixed permission mode, the
//! bound on each captured diagnostic stream, and the outbound-call policy
//! (an optional rejected authority, a denylist of forbidden header names,
//! and whether a host-supplied interceptor replaces the default transport).

use vstd::prelude::*;

use crate::errors::ErrorCode;
use crate::http_model::Header;
use crate::http_model::RequestParts;

verus! {

/// Permission mode of the one filesystem root the guest sees, fixed at
/// execution-context construction.
#[derive(Clone, Copy, Debug, PartialEq, Eq, Structural)]
pub enum DirPerms {
    ReadOnly,
    ReadWrite,
}

/// Everything the guest of one execution context is permitted to use.
pub struct CapabilityTable {
    /// Host path mounted as the guest's filesystem root.
    pub fs_root: String,
    /// Permission mode of that root.
    pub fs_perms: DirPerms,
    /// Bound, in characters, on each captured diagnostic stream.
    pub capture_limit: usize,
    /// Outbound calls whose authority equals this string are denied.
    pub rejected_authority: Option<String>,
    /// Header names that may not cross the boundary in either direction.
    pub forbidden_headers: Vec<String>,
    /// Whether a host-supplied interceptor stands in for the default
    /// outbound transport.
    pub has_interceptor: bool,
}

/// Whether the table forbids a header of this name.
pub open spec fn spec_is_forbidden(table: &CapabilityTable, name: Seq<char>) -> bool {
    exists|i: int|
        0 <= i < table.forbidden_headers@.len() && #[trigger] table.forbidden_headers@[i]@ == name
}

/// Whether the table rejects this outbound authority.  A call without an
/// authority matches no rejected authority.
pub open spec fn spec_authority_rejected(
    table: &CapabilityTable,
    authority: &Option<String>,
) -> bool {
    match (&table.rejected_authority, authority) {
        (Some(rejected), Some(a)) => rejected@ == a@,
        _ => false,
    }
}

/// Where an admitted outbound call is dispatched.
#[derive(Clone, Copy, Debug, PartialEq, Eq, Structural)]
pub enum OutboundRoute {
    /// Through the host-supplied interceptor.
    Interceptor,
    /// Through the default pass-through transport.
    DefaultTransport,
}

/// The policy's verdict on one outbound call: where to dispatch it, or the
/// error code it is denied with before any dispatch.
#[derive(Clone, Copy, Debug, PartialEq, Eq, Structural)]
pub enum OutboundDecision {
    Dispatch(OutboundRoute),
    Deny(ErrorCode),
}

/// What the policy decides for an outbound call with this authority and
/// these headers: denial by authority is checked first, then the header
/// denylist, and only a call that passes both is dispatched — through the
/// interceptor when one is configured, else through the default transport.
pub open spec fn spec_outbound_decision(
    table: &CapabilityTable,
    authority: &Option<String>,
    headers: Seq<Header>,
) -> OutboundDecision {
    if spec_authority_rejected(table, authority) {
        OutboundDecision::Deny(ErrorCode::RequestDenied)
    } else if exists|i: int|
        0 <= i < headers.len() && spec_is_forbidden(table, (#[trigger] headers[i]).name@) {
        OutboundDecision::Deny(ErrorCode::ForbiddenHeader)
    } else if table.has_interceptor {
        OutboundDecision::Dispatch(OutboundRoute::Interceptor)
    } else {
        OutboundDecision::Dispatch(OutboundRoute::DefaultTransport)
    }
}

impl CapabilityTable {
    /// Whether a header of this name may not cross the boundary.
    pub fn is_forbidden_header(&self, name: &String) -> (r: bool)
        ensures
            r == spec_is_forbidden(self, name@),
    {
        let mut i: usize = 0;
        while i < self.forbidden_headers.len()
            invariant
                0 <= i <= self.forbidden_headers@.len(),
                forall|j: int| 0 <= j < i ==> #[trigger] self.forbidden_headers@[j]@ != name@,
            decreases self.forbidden_headers@.len() - i,
        {
            if self.forbidden_headers[i] == *name {
                return true;
            }
            i += 1;
        }
        false
    }

    /// The index of the first forbidden header of the list, if any.
    pub fn first_forbidden_header(&self, headers: &Vec<Header>) -> (r: Option<usize>)
        ensures
            match r {
                Some(i) => i < headers@.len() && spec_is_forbidden(self, headers@[i as int].name@)
                    && (forall|j: int|
                        0 <= j < i ==> !spec_is_forbidden(self, (#[trigger] headers@[j]).name@)),
                None => forall|j: int|
                    0 <= j < headers@.len()
                        ==> !spec_is_forbidden(self, (#[trigger] headers@[j]).name@),
            },
    {
        let mut i: usize = 0;
        while i < headers.len()
            invariant
                0 <= i <= headers@.len(),
                forall|j: int|
                    0 <= j < i ==> !spec_is_forbidden(self, (#[trigger] headers@[j]).name@),
            decreases headers@.len() - i,
        {
            if self.is_forbidden_header(&headers[i].name) {
                return Some(i);
            }
            i += 1;
        }
        None
    }

    /// Whether the table rejects this outbound authority.
    pub fn authority_rejected(&self, authority: &Option<String>) -> (r: bool)
        ensures
            r == spec_authority_rejected(self, authority),
    {
        match (&self.rejected_authority, authority) {
            (Some(rejected), Some(a)) => *rejected == *a,
            _ => false,
        }
    }

    /// Routes one outbound call attempted by the guest.  A denied call is
    /// never dispatched: the caller performs no transport work unless the
    /// decision is `Dispatch`.
    pub fn check_outbound(&self, request: &RequestParts) -> (r: OutboundDecision)
        ensures
            r == spec_outbound_decision(self, &request.authority, request.headers@),
    {
        if self.authority_rejected(&request.authority) {
            return OutboundDecision::Deny(ErrorCode::RequestDenied);
        }
        match self.first_forbidden_header(&request.headers) {
            Some(_) => OutboundDecision::Deny(ErrorCode::ForbiddenHeader),
            None => {
                if self.has_interceptor {
                    OutboundDecision::Dispatch(OutboundRoute::Interceptor)
                } else {
                    OutboundDecision::Dispatch(OutboundRoute::DefaultTransport)
                }
            },
        }
    }
}

} // verus!
