use vstd::prelude::*;

verus! {

/// Where the outer control loop stands with its one connection.
#[derive(Clone, Copy, Debug, PartialEq, Eq, Structural)]
pub enum SupervisorState {
    /// No connection; the next step opens one.
    Disconnected,
    /// A connection attempt is in flight.
    Connecting,
    /// The subscription is open and the dispatcher is draining it.
    Subscribed,
}

/// What the supervisor observes of its outside work.
#[derive(Clone, Copy, Debug, PartialEq, Eq, Structural)]
pub enum SupervisorEvent {
    /// The open call was issued.
    OpenIssued,
    /// The connection and the subscribe call succeeded.
    ConnectSucceeded,
    /// The connection or the subscribe call failed.
    ConnectFailed,
    /// The open stream yielded an error frame.
    StreamFailed,
    /// The server closed the stream.
    StreamClosed,
}

/// The outside step the supervisor performs in a state.
#[derive(Clone, Copy, Debug, PartialEq, Eq, Structural)]
pub enum SupervisorAction {
    /// Open a fresh connection and subscribe.
    OpenConnection,
    /// Wait for the in-flight attempt to settle.
    AwaitConnection,
    /// Hand the stream to the dispatcher and drain it.
    ConsumeStream,
}

/// The transition relation of the supervisor: connecting settles into
/// subscribed or back into disconnected; a subscribed stream's failure or
/// close falls back to disconnected; an event that does not belong to the
/// state changes nothing. No state is terminal.
pub open spec fn spec_supervisor_step(
    state: SupervisorState,
    event: SupervisorEvent,
) -> SupervisorState {
    match (state, event) {
        (SupervisorState::Disconnected, SupervisorEvent::OpenIssued) => SupervisorState::Connecting,
        (SupervisorState::Connecting, SupervisorEvent::ConnectSucceeded) => SupervisorState::Subscribed,
        (SupervisorState::Connecting, SupervisorEvent::ConnectFailed) => SupervisorState::Disconnected,
        (SupervisorState::Subscribed, SupervisorEvent::StreamFailed) => SupervisorState::Disconnected,
        (SupervisorState::Subscribed, SupervisorEvent::StreamClosed) => SupervisorState::Disconnected,
        _ => state,
    }
}

/// What each state asks of the outside: disconnected opens a connection -
/// immediately, with no backoff, no delay and no attempt counter -
/// connecting waits for the attempt, subscribed drains the stream.
pub open spec fn spec_next_action(state: SupervisorState) -> SupervisorAction {
    match state {
        SupervisorState::Disconnected => SupervisorAction::OpenConnection,
        SupervisorState::Connecting => SupervisorAction::AwaitConnection,
        SupervisorState::Subscribed => SupervisorAction::ConsumeStream,
    }
}

/// Applies one observed event to the supervisor's state.
pub fn supervisor_step(state: SupervisorState, event: SupervisorEvent) -> (next: SupervisorState)
    ensures
        next == spec_supervisor_step(state, event),
{
    match (state, event) {
        (SupervisorState::Disconnected, SupervisorEvent::OpenIssued) => SupervisorState::Connecting,
        (SupervisorState::Connecting, SupervisorEvent::ConnectSucceeded) => SupervisorState::Subscribed,
        (SupervisorState::Connecting, SupervisorEvent::ConnectFailed) => SupervisorState::Disconnected,
        (SupervisorState::Subscribed, SupervisorEvent::StreamFailed) => SupervisorState::Disconnected,
        (SupervisorState::Subscribed, SupervisorEvent::StreamClosed) => SupervisorState::Disconnected,
        (s, _) => s,
    }
}

/// The outside step the supervisor performs next.
pub fn next_action(state: SupervisorState) -> (a: SupervisorAction)
    ensures
        a == spec_next_action(state),
{
    match state {
        SupervisorState::Disconnected => SupervisorAction::OpenConnection,
        SupervisorState::Connecting => SupervisorAction::AwaitConnection,
        SupervisorState::Subscribed => SupervisorAction::ConsumeStream,
    }
}

/// Law: no failure strands the supervisor. After a failed connection
/// attempt, a stream error or a server close - however many block events
/// the stream delivered first - the machine stands disconnected, and the
/// very next step is to open a fresh connection: retry is unconditional,
/// with no cap.
pub proof fn lemma_always_reconnects(state: SupervisorState, event: SupervisorEvent)
    requires
        (state is Connecting && event is ConnectFailed) || (state is Subscribed && (
        event is StreamFailed || event is StreamClosed)),
    ensures
        spec_supervisor_step(state, event) is Disconnected,
        spec_next_action(spec_supervisor_step(state, event)) is OpenConnection,
{
}

} // verus!
