//! The loop that takes updates from the datasources and routes them, as a
//! state machine.
//!
//! The caller runs the loop: it waits for what the machine asks it to wait
//! for and reports what happened; [`step`] decides what comes next.

use vstd::prelude::*;

verus! {

/// Where the loop stands.
#[derive(Debug, Clone, Copy, PartialEq, Eq, Structural)]
pub enum ConsumerState {
    /// Not started.
    Idle,
    /// Waiting for the next update, for the end of the stream, or for the
    /// cancellation signal.
    AwaitingNextUpdate,
    /// An update is with the pipes.
    Dispatching,
    /// Stopped on the cancellation signal.
    Cancelled,
    /// Stopped because every datasource has finished.
    Closed,
}

/// What the caller reports.
#[derive(Debug, Clone, Copy, PartialEq, Eq, Structural)]
pub enum ConsumerEvent {
    /// The loop is to start.
    Started,
    /// An update has arrived.
    UpdateReceived,
    /// The pipes are done with the update they were given.
    DispatchFinished,
    /// Every datasource has finished and no update is left.
    ChannelClosed,
    /// The cancellation signal is set.
    CancellationRequested,
}

/// What the caller is to do next.
#[derive(Debug, Clone, Copy, PartialEq, Eq, Structural)]
pub enum ConsumerAction {
    /// Wait for the next update, the end of the stream or the cancellation
    /// signal, whichever comes first.
    AwaitNext,
    /// Route the update that has arrived.
    Dispatch,
    /// Leave the loop.
    Stop,
    /// Nothing: the report does not fit the state and changes nothing.
    Ignore,
}

impl ConsumerState {
    /// Whether the loop has ended.
    pub open spec fn is_terminal(self) -> bool {
        self == ConsumerState::Cancelled || self == ConsumerState::Closed
    }
}

/// The state and the action that follow `event` in `state`.
///
/// The cancellation signal ends the loop before it starts and while it
/// waits. While an update is with the pipes the signal is not acted on: it
/// stays set, and the loop sees it when it next waits. A report that does
/// not fit the state is ignored, and a loop that has ended stays ended.
pub open spec fn next(state: ConsumerState, event: ConsumerEvent) -> (
    ConsumerState,
    ConsumerAction,
) {
    match (state, event) {
        (ConsumerState::Idle, ConsumerEvent::Started) => (
            ConsumerState::AwaitingNextUpdate,
            ConsumerAction::AwaitNext,
        ),
        (ConsumerState::Idle, ConsumerEvent::CancellationRequested) => (
            ConsumerState::Cancelled,
            ConsumerAction::Stop,
        ),
        (ConsumerState::AwaitingNextUpdate, ConsumerEvent::UpdateReceived) => (
            ConsumerState::Dispatching,
            ConsumerAction::Dispatch,
        ),
        (ConsumerState::AwaitingNextUpdate, ConsumerEvent::ChannelClosed) => (
            ConsumerState::Closed,
            ConsumerAction::Stop,
        ),
        (ConsumerState::AwaitingNextUpdate, ConsumerEvent::CancellationRequested) => (
            ConsumerState::Cancelled,
            ConsumerAction::Stop,
        ),
        (ConsumerState::Dispatching, ConsumerEvent::DispatchFinished) => (
            ConsumerState::AwaitingNextUpdate,
            ConsumerAction::AwaitNext,
        ),
        (ConsumerState::Cancelled, _) => (ConsumerState::Cancelled, ConsumerAction::Stop),
        (ConsumerState::Closed, _) => (ConsumerState::Closed, ConsumerAction::Stop),
        _ => (state, ConsumerAction::Ignore),
    }
}

/// Decides what follows `event` in `state`.
pub fn step(state: ConsumerState, event: ConsumerEvent) -> (decision: (
    ConsumerState,
    ConsumerAction,
))
    ensures
        decision == next(state, event),
{
    match state {
        ConsumerState::Idle => match event {
            ConsumerEvent::Started => (
                ConsumerState::AwaitingNextUpdate,
                ConsumerAction::AwaitNext,
            ),
            ConsumerEvent::CancellationRequested => (
                ConsumerState::Cancelled,
                ConsumerAction::Stop,
            ),
            _ => (state, ConsumerAction::Ignore),
        },
        ConsumerState::AwaitingNextUpdate => match event {
            ConsumerEvent::UpdateReceived => (
                ConsumerState::Dispatching,
                ConsumerAction::Dispatch,
            ),
            ConsumerEvent::ChannelClosed => (ConsumerState::Closed, ConsumerAction::Stop),
            ConsumerEvent::CancellationRequested => (
                ConsumerState::Cancelled,
                ConsumerAction::Stop,
            ),
            _ => (state, ConsumerAction::Ignore),
        },
        ConsumerState::Dispatching => match event {
            ConsumerEvent::DispatchFinished => (
                ConsumerState::AwaitingNextUpdate,
                ConsumerAction::AwaitNext,
            ),
            _ => (state, ConsumerAction::Ignore),
        },
        ConsumerState::Cancelled => (ConsumerState::Cancelled, ConsumerAction::Stop),
        ConsumerState::Closed => (ConsumerState::Closed, ConsumerAction::Stop),
    }
}

/// The state that the loop is in after `events`, starting from `state`.
pub open spec fn after(state: ConsumerState, events: Seq<ConsumerEvent>) -> ConsumerState
    decreases events.len(),
{
    if events.len() == 0 {
        state
    } else {
        next(after(state, events.drop_last()), events.last()).0
    }
}

/// An update is routed only when one has arrived while the loop was waiting
/// for it; and exactly then.
pub proof fn lemma_dispatch_only_on_arrival(state: ConsumerState, event: ConsumerEvent)
    ensures
        next(state, event).1 == ConsumerAction::Dispatch <==> state
            == ConsumerState::AwaitingNextUpdate && event == ConsumerEvent::UpdateReceived,
{
}

/// The cancellation signal, seen before the loop starts or while it waits,
/// ends the loop at once.
pub proof fn lemma_cancellation_stops(state: ConsumerState)
    requires
        state == ConsumerState::Idle || state == ConsumerState::AwaitingNextUpdate,
    ensures
        next(state, ConsumerEvent::CancellationRequested) == (
            ConsumerState::Cancelled,
            ConsumerAction::Stop,
        ),
{
}

/// A run of the pipes is never cut short: while an update is with the pipes,
/// only the report that they are done moves the loop on.
pub proof fn lemma_dispatch_runs_to_its_end(event: ConsumerEvent)
    ensures
        event != ConsumerEvent::DispatchFinished ==> next(ConsumerState::Dispatching, event) == (
            ConsumerState::Dispatching,
            ConsumerAction::Ignore,
        ),
        next(ConsumerState::Dispatching, ConsumerEvent::DispatchFinished) == (
            ConsumerState::AwaitingNextUpdate,
            ConsumerAction::AwaitNext,
        ),
{
}

/// A loop that has ended stays as it ended, whatever is reported to it, and
/// routes no further update.
pub proof fn lemma_ended_stays_ended(state: ConsumerState, events: Seq<ConsumerEvent>)
    requires
        state.is_terminal(),
    ensures
        after(state, events) == state,
        forall|event: ConsumerEvent| #[trigger]
            next(after(state, events), event) == (state, ConsumerAction::Stop),
    decreases events.len(),
{
    if events.len() > 0 {
        lemma_ended_stays_ended(state, events.drop_last());
    }
}

} // verus!
