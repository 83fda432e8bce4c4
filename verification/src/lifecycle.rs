//! The handle lifecycle protocol at the foreign-caller boundary.
//!
//! A host drives a session through an opaque handle with no compile-time
//! ownership checking on its side, so the safety of the boundary rests on an
//! explicit protocol: run a handle exactly once, send at most one stop
//! request, and never touch the handle again after it — the stop both ends
//! the session and destroys the handle. The state machine here is that
//! protocol; the unverified boundary layer consults it and aborts on any
//! refused transition rather than risk corrupting shared memory.

use vstd::prelude::*;

use crate::events::GBEvent;

verus! {

/// Lifecycle states of an execution handle.
#[derive(Clone, Copy, PartialEq, Eq, Structural, Debug)]
pub enum HandleState {
    /// Constructed; the engine is built but nothing runs yet.
    Created,
    /// The scheduler loop owns the engine on its own thread.
    Running,
    /// A stop request was sent; the handle is destroyed and must never be
    /// used again.
    Terminated,
}

/// An operation a host may attempt on a handle.
#[derive(Clone, Copy, PartialEq, Eq, Structural, Debug)]
pub enum HandleOp {
    /// Hand the engine bundle to the scheduler loop.
    Run,
    /// Fetch the next rendered frame.
    PollFrame,
    /// Enqueue a control event.
    SendEvent(GBEvent),
}

/// A fatal breach of the handle protocol; the boundary must abort, not
/// recover.
#[derive(Clone, Copy, PartialEq, Eq, Structural, Debug)]
pub enum ProtocolError {
    /// `Run` was attempted on a handle already running.
    SecondRun,
    /// The handle was used after its stop-triggered destruction.
    UseAfterStop,
}

/// The transition table of the handle protocol.
pub open spec fn spec_handle_step(state: HandleState, op: HandleOp) -> Result<
    HandleState,
    ProtocolError,
> {
    match state {
        HandleState::Terminated => Err(ProtocolError::UseAfterStop),
        _ => match op {
            HandleOp::Run => if state is Created {
                Ok(HandleState::Running)
            } else {
                Err(ProtocolError::SecondRun)
            },
            HandleOp::PollFrame => Ok(state),
            HandleOp::SendEvent(ev) => if ev is Stop {
                Ok(HandleState::Terminated)
            } else {
                Ok(state)
            },
        },
    }
}

/// Steps the handle protocol: the new state of the handle, or the protocol
/// breach the boundary must abort on.
pub fn handle_step(state: HandleState, op: HandleOp) -> (r: Result<HandleState, ProtocolError>)
    ensures
        r == spec_handle_step(state, op),
{
    match state {
        HandleState::Terminated => Err(ProtocolError::UseAfterStop),
        _ => match op {
            HandleOp::Run => {
                if matches!(state, HandleState::Created) {
                    Ok(HandleState::Running)
                } else {
                    Err(ProtocolError::SecondRun)
                }
            },
            HandleOp::PollFrame => Ok(state),
            HandleOp::SendEvent(ev) => {
                if matches!(ev, GBEvent::Stop) {
                    Ok(HandleState::Terminated)
                } else {
                    Ok(state)
                }
            },
        },
    }
}

/// The state after a sequence of operations all accepted in order, or
/// nothing as soon as one is refused.
pub open spec fn spec_handle_run(state: HandleState, ops: Seq<HandleOp>) -> Option<HandleState>
    decreases ops.len(),
{
    if ops.len() == 0 {
        Some(state)
    } else {
        match spec_handle_step(state, ops.first()) {
            Ok(next) => spec_handle_run(next, ops.drop_first()),
            Err(_) => None,
        }
    }
}

/// Number of stop requests in a sequence of operations.
pub open spec fn stop_sends(ops: Seq<HandleOp>) -> int
    decreases ops.len(),
{
    if ops.len() == 0 {
        0
    } else {
        (if ops.first() == HandleOp::SendEvent(GBEvent::Stop) {
            1int
        } else {
            0int
        }) + stop_sends(ops.drop_first())
    }
}

/// Law: a terminated handle accepts no operation at all — every use after
/// the stop-triggered destruction is refused as a protocol breach.
pub proof fn lemma_terminated_is_final(op: HandleOp)
    ensures
        spec_handle_step(HandleState::Terminated, op) == Err::<HandleState, ProtocolError>(
            ProtocolError::UseAfterStop,
        ),
{
}

/// Law: no sequence of accepted operations continues past a terminated
/// handle.
pub proof fn lemma_terminated_accepts_nothing(ops: Seq<HandleOp>)
    requires
        spec_handle_run(HandleState::Terminated, ops) is Some,
    ensures
        ops.len() == 0,
{
}

/// Law: a handle sees at most one stop request in its whole life — any
/// sequence of operations the protocol accepts from any starting state
/// contains at most one `SendEvent(Stop)`, and nothing at all after it.
pub proof fn lemma_stop_at_most_once(state: HandleState, ops: Seq<HandleOp>)
    requires
        spec_handle_run(state, ops) is Some,
    ensures
        stop_sends(ops) <= 1,
    decreases ops.len(),
{
    if ops.len() > 0 {
        let first = ops.first();
        let rest = ops.drop_first();
        let stepped = spec_handle_step(state, first);
        assert(stepped is Ok);
        if first == HandleOp::SendEvent(GBEvent::Stop) {
            assert(stepped == Ok::<HandleState, ProtocolError>(HandleState::Terminated));
            lemma_terminated_accepts_nothing(rest);
            assert(stop_sends(rest) == 0);
        } else {
            lemma_stop_at_most_once(stepped.unwrap(), rest);
        }
    }
}

} // verus!
