//! The request lifecycle: the bridge's protocol from transport request to
//! exactly one outcome.
//!
//! The synchronous prelude (`prepare`) builds the execution context and
//! adapts the request; its errors are surfaced before any guest code runs.
//! Once the guest task is dispatched, a `RequestLifecycle` value tracks the
//! two await points the host must pass — the one-shot completion signal,
//! then the guest task's own termination — and only a lifecycle that has
//! passed both can be finished, which is also the one step that tears the
//! execution context down and drains its captured diagnostics.

use vstd::prelude::*;

use crate::adapter::GuestRequest;
use crate::adapter::adapt_request;
use crate::completion::CompletionState;
use crate::completion::GuestTermination;
use crate::completion::Signal;
use crate::completion::completion_of_signal;
use crate::completion::spec_outcome;
use crate::completion::spec_set;
use crate::context::CapturedOutput;
use crate::context::ExecutionContext;
use crate::errors::BridgeError;
use crate::errors::ErrorCode;
use crate::headers::well_formed_headers;
use crate::http_model::RequestParts;
use crate::http_model::ResponseMeta;
use crate::policy::CapabilityTable;

verus! {

/// The synchronous prelude of one request: bind the capability table into a
/// fresh execution context, then adapt the transport request for the guest.
/// Both failures are surfaced here, before any guest code runs: a filesystem
/// root that cannot be opened is a configuration error, and a request with a
/// malformed header adapts to nothing.  The configuration check comes first.
pub fn prepare(table: CapabilityTable, request: RequestParts, root_open: bool) -> (r: Result<
    (ExecutionContext, GuestRequest),
    BridgeError,
>)
    ensures
        match r {
            Ok((context, adapted)) => {
                &&& root_open
                &&& well_formed_headers(request.headers@)
                &&& context.spec_table() == table
                &&& context.wf()
                &&& context.stdout_captured() =~= Seq::<char>::empty()
                &&& context.stderr_captured() =~= Seq::<char>::empty()
                &&& adapted.spec_parts() == request
            },
            Err(e) => {
                &&& !root_open ==> e == BridgeError::Configuration
                &&& root_open ==> !well_formed_headers(request.headers@)
                    && e == BridgeError::MalformedHeader
            },
        },
{
    let context = match ExecutionContext::new(table, root_open) {
        Ok(context) => context,
        Err(e) => {
            return Err(e);
        },
    };
    match adapt_request(request) {
        Ok(adapted) => Ok((context, adapted)),
        Err(e) => Err(e),
    }
}

/// Where one dispatched request stands between the host's two await points.
#[derive(Clone, Copy, Debug, PartialEq, Eq, Structural)]
pub enum LifecyclePhase {
    /// The guest task is running; the host awaits the completion signal.
    Dispatched,
    /// The signal was observed; the host still awaits the guest task's end.
    SignalObserved,
    /// Both await points passed; the lifecycle is ready to finish.
    Joined,
}

/// One request's passage through the completion protocol.  Its contracts
/// admit only the order dispatch → observe signal → observe termination →
/// finish: the outcome cannot be produced, nor the execution context torn
/// down, before both await points have been passed, and finishing consumes
/// the lifecycle, so each request has at most one outcome and one teardown.
pub struct RequestLifecycle {
    phase: LifecyclePhase,
    signal: Signal,
    termination: GuestTermination,
}

impl RequestLifecycle {
    /// Where the lifecycle stands.
    pub closed spec fn spec_phase(&self) -> LifecyclePhase {
        self.phase
    }

    /// The signal observed at the first await point.
    pub closed spec fn spec_signal(&self) -> Signal {
        self.signal
    }

    /// The termination observed at the second await point.
    pub closed spec fn spec_termination(&self) -> GuestTermination {
        self.termination
    }

    /// Records that the guest task has been dispatched and the host is
    /// awaiting the completion signal.
    pub fn dispatch() -> (r: RequestLifecycle)
        ensures
            r.spec_phase() == LifecyclePhase::Dispatched,
    {
        RequestLifecycle {
            phase: LifecyclePhase::Dispatched,
            signal: None,
            termination: GuestTermination::Completed,
        }
    }

    /// The first await point: the one-shot signal arrived (or closed with
    /// nothing).  Observable exactly once, and only while dispatched.
    pub fn observe_signal(&mut self, signal: Signal)
        requires
            old(self).spec_phase() == LifecyclePhase::Dispatched,
        ensures
            final(self).spec_phase() == LifecyclePhase::SignalObserved,
            final(self).spec_signal() == signal,
    {
        self.signal = signal;
        self.phase = LifecyclePhase::SignalObserved;
    }

    /// The second await point: the guest task itself ended.  Comes only
    /// after the signal was observed — the host never tears state down
    /// while the guest might still be writing.
    pub fn observe_termination(&mut self, termination: GuestTermination)
        requires
            old(self).spec_phase() == LifecyclePhase::SignalObserved,
        ensures
            final(self).spec_phase() == LifecyclePhase::Joined,
            final(self).spec_signal() == old(self).spec_signal(),
            final(self).spec_termination() == termination,
    {
        self.termination = termination;
        self.phase = LifecyclePhase::Joined;
    }

    /// Finishes the request: decides the one outcome from the two
    /// observations and tears the execution context down, draining its
    /// captured diagnostics.  Requires both await points passed, and
    /// consumes lifecycle and context: teardown happens exactly once, on
    /// every path that reaches an outcome.
    pub fn finish(self, context: ExecutionContext) -> (r: (
        Result<ResponseMeta, BridgeError>,
        CapturedOutput,
    ))
        requires
            self.spec_phase() == LifecyclePhase::Joined,
        ensures
            r.0 == spec_outcome(self.spec_signal(), self.spec_termination()),
            r.1.stdout@ == context.stdout_captured(),
            r.1.stderr@ == context.stderr_captured(),
    {
        let outcome = crate::completion::finish_request(self.signal, self.termination);
        let captured = context.teardown();
        (outcome, captured)
    }
}

/// For every pair of observations a request can end with, the outcome is
/// exactly one of a transport response and a structured error — never both,
/// never neither.  `finish_request` is total and panic-free, so every
/// dispatched request reaches one of the two.
pub proof fn lemma_exactly_one_outcome(signal: Signal, termination: GuestTermination)
    ensures
        (spec_outcome(signal, termination) is Ok) != (spec_outcome(signal, termination) is Err),
{
}

/// If the guest sets a fresh outparam to response metadata and then
/// terminates normally, the host-visible completion is `MetadataDelivered`
/// with exactly that metadata, and the request's outcome relays it.
pub proof fn lemma_delivery_is_exact(meta: ResponseMeta)
    ensures
        ({
            let slot = spec_set(None, Ok(meta));
            &&& completion_of_signal(slot) == CompletionState::MetadataDelivered(meta)
            &&& spec_outcome(slot, GuestTermination::Completed) == Ok::<
                ResponseMeta,
                BridgeError,
            >(meta)
        }),
{
}

/// If the guest terminates without ever setting the outparam, the signal
/// closes empty and the host-visible completion is `GuestAbandoned` — for
/// any amount of body data the guest may have streamed beforehand, which
/// plays no part in the outcome.
pub proof fn lemma_abandonment(body_streamed: Seq<Seq<char>>)
    ensures
        completion_of_signal(None) == CompletionState::GuestAbandoned,
        spec_outcome(None, GuestTermination::Completed) == Err::<ResponseMeta, BridgeError>(
            BridgeError::GuestAbandoned,
        ),
{
}

/// A second write to the outparam is a no-op: the slot keeps the first
/// delivery, whatever the second would have been.
pub proof fn lemma_second_set_ignored(
    first: Result<ResponseMeta, ErrorCode>,
    second: Result<ResponseMeta, ErrorCode>,
)
    ensures
        spec_set(spec_set(None, first), second) == spec_set(None, first),
{
}

} // verus!
