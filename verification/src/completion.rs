//! The completion-signalling protocol: the write-once response outparam,
//! the one-shot signal it feeds, and the host's reading of both.
//!
//! The guest is handed a single-assignment slot for its response metadata;
//! the slot's eventual content — or its absence, when the guest ends without
//! ever writing it — travels to the awaiting host task as a one-shot signal.
//! Observing the signal tells the host the metadata is ready while the guest
//! may still be streaming the body; it says nothing yet about how the guest
//! task itself ended, which the host awaits separately.

use vstd::prelude::*;

use crate::errors::BridgeError;
use crate::errors::ErrorCode;
use crate::http_model::ResponseMeta;

verus! {

/// What the guest delivers through the outparam: response metadata, or a
/// structured error code.
pub type Delivery = Result<ResponseMeta, ErrorCode>;

/// What the one-shot signal carries to the host: the delivered value, or
/// `None` when the guest task ended without ever setting the outparam.
pub type Signal = Option<Delivery>;

/// What a write-once slot holds after a write: the first write fills an
/// empty slot; every later write is ignored.
pub open spec fn spec_set(slot: Signal, delivery: Delivery) -> Signal {
    if slot is Some {
        slot
    } else {
        Some(delivery)
    }
}

/// The write-once slot the guest delivers its response through.
pub struct ResponseOutparam {
    slot: Signal,
}

impl ResponseOutparam {
    /// The slot's content: `None` until the guest sets it.
    pub closed spec fn value(&self) -> Signal {
        self.slot
    }

    /// A fresh, unset outparam, made once per request.
    pub fn new() -> (r: ResponseOutparam)
        ensures
            r.value() is None,
    {
        ResponseOutparam { slot: None }
    }

    /// The guest's one way to deliver its response.  The first call fills
    /// the slot; a second call is the guest violating its contract, and is
    /// ignored: the slot keeps the first delivery.
    pub fn set(&mut self, delivery: Delivery) -> (accepted: bool)
        ensures
            accepted == (old(self).value() is None),
            final(self).value() == spec_set(old(self).value(), delivery),
    {
        if self.slot.is_none() {
            self.slot = Some(delivery);
            true
        } else {
            false
        }
    }

    /// The one-shot delivery to the host task: what the slot held when the
    /// guest side was done with it.  `None` is the closed-without-delivery
    /// case the host must treat as an error, never as a reason to wait on.
    pub fn into_signal(self) -> (signal: Signal)
        ensures
            signal == self.value(),
    {
        self.slot
    }
}

/// The host-visible state of one request's completion protocol.
pub enum CompletionState {
    /// The guest task is dispatched and the signal not yet observed.
    Pending,
    /// The guest delivered response metadata; its body may still stream.
    MetadataDelivered(ResponseMeta),
    /// The guest delivered an explicit error code.
    GuestFailed(ErrorCode),
    /// The signal closed without a delivery: the guest task ended without
    /// ever producing a response.
    GuestAbandoned,
}

impl CompletionState {
    /// A state the protocol can rest in: everything but `Pending`.
    pub open spec fn is_terminal(&self) -> bool {
        !(*self is Pending)
    }
}

/// How the host reads the observed signal.  Never `Pending`: once the
/// signal is observed the protocol has left its initial state for good.
pub open spec fn completion_of_signal(signal: Signal) -> CompletionState {
    match signal {
        Some(Ok(meta)) => CompletionState::MetadataDelivered(meta),
        Some(Err(code)) => CompletionState::GuestFailed(code),
        None => CompletionState::GuestAbandoned,
    }
}

/// Reads the observed one-shot signal: metadata delivered, an explicit
/// guest failure, or abandonment.  The host acts on this immediately —
/// adapting delivered metadata for the transport while the guest still
/// streams the body — without waiting for the guest task to end.
pub fn resolve_signal(signal: Signal) -> (state: CompletionState)
    ensures
        state == completion_of_signal(signal),
        state.is_terminal(),
{
    match signal {
        Some(Ok(meta)) => CompletionState::MetadataDelivered(meta),
        Some(Err(code)) => CompletionState::GuestFailed(code),
        None => CompletionState::GuestAbandoned,
    }
}

/// How the guest-invocation task itself ended, observed at the second await
/// point, after the signal.
#[derive(Clone, Copy, Debug, PartialEq, Eq, Structural)]
pub enum GuestTermination {
    /// The task ran to completion.
    Completed,
    /// The guest unit trapped or faulted; not expressible as a structured
    /// error code through the outparam.
    Trapped,
}

/// The outcome of a request once both await points have been observed:
/// exactly one of a response to relay, or a structured error.  A trap
/// outranks whatever the outparam holds — an execution fault is surfaced
/// even when metadata had been delivered before it; with a normal
/// termination the outcome is the delivery, or abandonment when there was
/// none.
pub open spec fn spec_outcome(signal: Signal, termination: GuestTermination) -> Result<
    ResponseMeta,
    BridgeError,
> {
    match termination {
        GuestTermination::Trapped => Err(BridgeError::GuestExecutionFault),
        GuestTermination::Completed => match signal {
            Some(Ok(meta)) => Ok(meta),
            Some(Err(code)) => Err(BridgeError::GuestFailed(code)),
            None => Err(BridgeError::GuestAbandoned),
        },
    }
}

/// Decides the request's outcome from the two observations the host made:
/// the one-shot signal, and how the guest task ended.
pub fn finish_request(signal: Signal, termination: GuestTermination) -> (outcome: Result<
    ResponseMeta,
    BridgeError,
>)
    ensures
        outcome == spec_outcome(signal, termination),
{
    match termination {
        GuestTermination::Trapped => Err(BridgeError::GuestExecutionFault),
        GuestTermination::Completed => match signal {
            Some(Ok(meta)) => Ok(meta),
            Some(Err(code)) => Err(BridgeError::GuestFailed(code)),
            None => Err(BridgeError::GuestAbandoned),
        },
    }
}

} // verus!
