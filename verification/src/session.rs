use vstd::prelude::*;
use crate::poll::Status;

verus! {

/// The state of one live status-streaming session.
#[derive(Clone, Copy, PartialEq, Eq, Structural)]
pub enum SessionState {
    /// Entry state: the session has started but not yet snapshotted the
    /// selection.
    AwaitingDevice,
    /// A device was selected at session start; the session polls it each
    /// tick and pushes the snapshot to the client.
    Streaming,
    /// Terminal: the connection has ended and the transport is released.
    Closed,
}

/// What the driver reports back to the machine: the outcome of the poll or
/// of the transport send it was last asked to perform.
pub enum SessionEvent {
    /// The tick's poll produced a fresh snapshot.
    PollSucceeded(Status),
    /// The tick's poll failed (a transient device-query error).
    PollFailed,
    /// The last pushed payload reached the transport.
    SendSucceeded,
    /// The transport rejected the send: the connection is gone.
    SendFailed,
}

/// What the machine asks the driver to do next.
pub enum SessionAction {
    /// Push the single "no device selected" error payload, then release the
    /// transport: the session is over.
    EmitErrorAndClose,
    /// Serialize this snapshot and push it to the client.
    Send(Status),
    /// Suspend for the tick interval (without blocking other sessions),
    /// then poll the currently selected device again.
    Wait,
    /// Poll the currently selected device now.
    PollNow,
    /// Release the session's transport resource: the session is over.
    Close,
}

/// The entry transition, taken on a snapshot of the selection at session
/// start: with nothing selected the session emits a single error payload
/// and is already closed; otherwise it starts streaming with an immediate
/// poll.
pub open spec fn spec_session_start(selection_empty: bool) -> (SessionState, SessionAction) {
    if selection_empty {
        (SessionState::Closed, SessionAction::EmitErrorAndClose)
    } else {
        (SessionState::Streaming, SessionAction::PollNow)
    }
}

/// One transition of the streaming loop. While streaming: a fresh snapshot
/// is pushed; a failed poll skips this tick, waiting for the next one,
/// without closing the session; a delivered payload likewise waits out the
/// tick interval; a failed send ends the session. A closed session stays
/// closed whatever arrives. Events only ever arise from actions, and none
/// is issued before the entry transition, so a stray event in the entry
/// state changes nothing.
pub open spec fn spec_session_step(state: SessionState, event: SessionEvent) -> (
    SessionState,
    SessionAction,
) {
    match state {
        SessionState::AwaitingDevice => (SessionState::AwaitingDevice, SessionAction::Wait),
        SessionState::Streaming => match event {
            SessionEvent::PollSucceeded(s) => (SessionState::Streaming, SessionAction::Send(s)),
            SessionEvent::PollFailed => (SessionState::Streaming, SessionAction::Wait),
            SessionEvent::SendSucceeded => (SessionState::Streaming, SessionAction::Wait),
            SessionEvent::SendFailed => (SessionState::Closed, SessionAction::Close),
        },
        SessionState::Closed => (SessionState::Closed, SessionAction::Close),
    }
}

/// Whether an action delivers a payload (status or error frame) to the
/// client.
pub open spec fn action_emits(a: SessionAction) -> bool {
    a is Send || a is EmitErrorAndClose
}

/// The state after the machine has consumed these events, in order, from
/// `state`.
pub open spec fn run_state(state: SessionState, events: Seq<SessionEvent>) -> SessionState
    decreases events.len(),
{
    if events.len() == 0 {
        state
    } else {
        spec_session_step(run_state(state, events.drop_last()), events.last()).0
    }
}

/// How many payloads the machine emits while consuming these events, in
/// order, from `state`.
pub open spec fn run_emissions(state: SessionState, events: Seq<SessionEvent>) -> nat
    decreases events.len(),
{
    if events.len() == 0 {
        0
    } else {
        run_emissions(state, events.drop_last()) + (if action_emits(
            spec_session_step(run_state(state, events.drop_last()), events.last()).1,
        ) {
            1nat
        } else {
            0nat
        })
    }
}

/// How many of the events are successful polls.
pub open spec fn poll_success_count(events: Seq<SessionEvent>) -> nat
    decreases events.len(),
{
    if events.len() == 0 {
        0
    } else {
        poll_success_count(events.drop_last()) + (if events.last() is PollSucceeded {
            1nat
        } else {
            0nat
        })
    }
}

/// The entry transition of a live session.
pub fn session_start(selection_empty: bool) -> (r: (SessionState, SessionAction))
    ensures
        r == spec_session_start(selection_empty),
{
    if selection_empty {
        (SessionState::Closed, SessionAction::EmitErrorAndClose)
    } else {
        (SessionState::Streaming, SessionAction::PollNow)
    }
}

/// One transition of a live session's streaming loop.
pub fn session_step(state: SessionState, event: SessionEvent) -> (r: (SessionState, SessionAction))
    ensures
        r == spec_session_step(state, event),
{
    match state {
        SessionState::AwaitingDevice => (SessionState::AwaitingDevice, SessionAction::Wait),
        SessionState::Streaming => match event {
            SessionEvent::PollSucceeded(s) => (SessionState::Streaming, SessionAction::Send(s)),
            SessionEvent::PollFailed => (SessionState::Streaming, SessionAction::Wait),
            SessionEvent::SendSucceeded => (SessionState::Streaming, SessionAction::Wait),
            SessionEvent::SendFailed => (SessionState::Closed, SessionAction::Close),
        },
        SessionState::Closed => (SessionState::Closed, SessionAction::Close),
    }
}

/// Law: a session started with no device selected emits exactly one
/// payload — the error frame of the entry transition — and is closed from
/// then on: whatever events arrive later, the state stays `Closed` and
/// nothing further is emitted.
pub proof fn lemma_empty_start_emits_once_then_closes(events: Seq<SessionEvent>)
    ensures
        spec_session_start(true) == (SessionState::Closed, SessionAction::EmitErrorAndClose),
        run_state(SessionState::Closed, events) == SessionState::Closed,
        run_emissions(SessionState::Closed, events) == 0,
    decreases events.len(),
{
    if events.len() > 0 {
        lemma_empty_start_emits_once_then_closes(events.drop_last());
    }
}

/// Law: while every poll and every send succeeds, a streaming session stays
/// streaming and pushes exactly one status payload per successful poll —
/// one per tick, indefinitely. (The two-second tick cadence itself is the
/// driver's wall-clock behavior, outside this model: each `Wait` action
/// spans one tick interval.)
pub proof fn lemma_streaming_emits_each_tick(events: Seq<SessionEvent>)
    requires
        forall|i: int|
            0 <= i < events.len() ==> (events[i] is PollSucceeded || events[i] is SendSucceeded),
    ensures
        run_state(SessionState::Streaming, events) == SessionState::Streaming,
        run_emissions(SessionState::Streaming, events) == poll_success_count(events),
    decreases events.len(),
{
    if events.len() > 0 {
        lemma_streaming_emits_each_tick(events.drop_last());
    }
}

/// Law: a transient poll failure never terminates the session. From
/// `Streaming`, only a transport send failure reaches `Closed`: any event
/// sequence without `SendFailed` — successful ticks, failed polls, resumed
/// successful ticks — leaves the session streaming.
pub proof fn lemma_transient_failure_keeps_session_open(events: Seq<SessionEvent>)
    requires
        forall|i: int| 0 <= i < events.len() ==> !(events[i] is SendFailed),
    ensures
        run_state(SessionState::Streaming, events) == SessionState::Streaming,
    decreases events.len(),
{
    if events.len() > 0 {
        lemma_transient_failure_keeps_session_open(events.drop_last());
    }
}

} // verus!
