//! The per-source dispatch loop as a state machine. The driver owns the
//! suspension points (initialize, fetch, the two outbound HTTP calls); every
//! decision between them stands here: which step follows which outcome, and
//! that a message is acknowledged exactly when its trigger call succeeded.
//! Per-message failures return the loop to its ready point; only a failed
//! initialization ends a loop.

use vstd::prelude::*;
use vstd::string::StringExecFns;

use crate::interfaces::{Error, QMessage};

verus! {

/// Where the loop stands. `Ready` is the iteration boundary: the fetch is
/// issued from it, and every per-message failure returns to it. `Failed` is
/// reached only when initialization fails, or when the driver reports an event
/// that cannot occur in the current state.
#[derive(Debug, Clone, Copy, PartialEq, Eq, Structural)]
pub enum LoopState {
    Uninitialized,
    Ready,
    Routing,
    Triggering,
    Acknowledging,
    Failed,
}

/// What the driver observed while carrying out the last directive.
#[derive(Debug)]
pub enum LoopEvent {
    InitOk,
    InitFailed(Error),
    /// `next()` yielded one message; the event carries its text content.
    Fetched(String),
    /// `next()` yielded no message now.
    FetchedNone,
    Routed(QMessage),
    RouteFailed(Error),
    /// The trigger call succeeded; the event carries the created run's name.
    TriggerOk(String),
    TriggerFailed(Error),
    AckDone,
}

/// What the driver must do next.
#[derive(Debug)]
pub enum LoopDirective {
    Initialize,
    Fetch,
    Route(String),
    Trigger(QMessage),
    Acknowledge,
    Halt,
}

/// The transition relation of the loop: from a state and the observed event to
/// the next state and the next directive. A failed initialization halts the
/// loop; a fetch that found nothing retries; a routing or trigger failure
/// abandons the iteration without acknowledging, so a redelivery-capable
/// backend sees the message again; only a successful trigger is acknowledged.
pub open spec fn step_spec(state: LoopState, event: LoopEvent) -> (LoopState, LoopDirective) {
    match (state, event) {
        (LoopState::Uninitialized, LoopEvent::InitOk) => (LoopState::Ready, LoopDirective::Fetch),
        (LoopState::Uninitialized, LoopEvent::InitFailed(e)) => (
            LoopState::Failed,
            LoopDirective::Halt,
        ),
        (LoopState::Ready, LoopEvent::Fetched(content)) => (
            LoopState::Routing,
            LoopDirective::Route(content),
        ),
        (LoopState::Ready, LoopEvent::FetchedNone) => (LoopState::Ready, LoopDirective::Fetch),
        (LoopState::Routing, LoopEvent::Routed(env)) => (
            LoopState::Triggering,
            LoopDirective::Trigger(env),
        ),
        (LoopState::Routing, LoopEvent::RouteFailed(e)) => (
            LoopState::Ready,
            LoopDirective::Fetch,
        ),
        (LoopState::Triggering, LoopEvent::TriggerOk(run)) => (
            LoopState::Acknowledging,
            LoopDirective::Acknowledge,
        ),
        (LoopState::Triggering, LoopEvent::TriggerFailed(e)) => (
            LoopState::Ready,
            LoopDirective::Fetch,
        ),
        (LoopState::Acknowledging, LoopEvent::AckDone) => (LoopState::Ready, LoopDirective::Fetch),
        (_, _) => (LoopState::Failed, LoopDirective::Halt),
    }
}

/// The state and directive a loop starts from: initialize the source once.
pub fn loop_start() -> (r: (LoopState, LoopDirective))
    ensures
        r.0 is Uninitialized,
        r.1 is Initialize,
{
    (LoopState::Uninitialized, LoopDirective::Initialize)
}

/// One transition of the loop.
pub fn loop_step(state: LoopState, event: LoopEvent) -> (r: (LoopState, LoopDirective))
    ensures
        r == step_spec(state, event),
{
    match (state, event) {
        (LoopState::Uninitialized, LoopEvent::InitOk) => (LoopState::Ready, LoopDirective::Fetch),
        (LoopState::Uninitialized, LoopEvent::InitFailed(_)) => (
            LoopState::Failed,
            LoopDirective::Halt,
        ),
        (LoopState::Ready, LoopEvent::Fetched(content)) => (
            LoopState::Routing,
            LoopDirective::Route(content),
        ),
        (LoopState::Ready, LoopEvent::FetchedNone) => (LoopState::Ready, LoopDirective::Fetch),
        (LoopState::Routing, LoopEvent::Routed(env)) => (
            LoopState::Triggering,
            LoopDirective::Trigger(env),
        ),
        (LoopState::Routing, LoopEvent::RouteFailed(_)) => (LoopState::Ready, LoopDirective::Fetch),
        (LoopState::Triggering, LoopEvent::TriggerOk(_)) => (
            LoopState::Acknowledging,
            LoopDirective::Acknowledge,
        ),
        (LoopState::Triggering, LoopEvent::TriggerFailed(_)) => (
            LoopState::Ready,
            LoopDirective::Fetch,
        ),
        (LoopState::Acknowledging, LoopEvent::AckDone) => (LoopState::Ready, LoopDirective::Fetch),
        (_, _) => (LoopState::Failed, LoopDirective::Halt),
    }
}

/// A message is acknowledged exactly when the trigger call for it returned
/// success: in every state and on every event, the loop directs an
/// acknowledgement if and only if it was triggering and the trigger succeeded.
pub proof fn lemma_ack_iff_trigger_success(state: LoopState, event: LoopEvent)
    ensures
        step_spec(state, event).1 is Acknowledge <==> (state is Triggering
            && event is TriggerOk),
{
}

/// A per-message failure never ends the loop: whatever a fetch, routing or
/// trigger step reported, the loop is directed back to fetching, never halted.
pub proof fn lemma_iteration_failures_return_to_ready(state: LoopState, event: LoopEvent)
    ensures
        !(state is Uninitialized) && !(step_spec(state, event).0 is Failed) ==> !(step_spec(
            state,
            event,
        ).1 is Halt),
        state is Routing ==> (step_spec(state, event).0 is Failed <==> !(event is Routed
            || event is RouteFailed)),
        state is Triggering ==> (step_spec(state, event).0 is Failed <==> !(event is TriggerOk
            || event is TriggerFailed)),
{
}

/// The log line for a successfully triggered deployment.
pub fn success_log_line(loop_name: &str, flow_name: &str, deployment_name: &str, run_name: &str) -> (r:
    String)
    ensures
        r@ == loop_name@ + ": Successfully triggered "@ + flow_name@ + "/"@ + deployment_name@
            + ": "@ + run_name@,
{
    String::from_str(loop_name)
        .concat(": Successfully triggered ")
        .concat(flow_name)
        .concat("/")
        .concat(deployment_name)
        .concat(": ")
        .concat(run_name)
}

/// The log line for a failed step of an iteration, carrying the error's kind
/// and detail.
pub fn failure_log_line(loop_name: &str, error: &Error) -> (r: String)
    ensures
        r@ == loop_name@ + ": "@ + error.to_string_spec(),
{
    String::from_str(loop_name).concat(": ").concat(error.to_string().as_str())
}

} // verus!
