//! The event loop of one shard worker, as a state machine.
//!
//! The worker that owns a shard alternates between two things: checking the
//! shutdown signal, and pulling the next item from its shard. Neither can be
//! done here, so the loop itself lives with the caller. What is decided here
//! is what each observation does to the worker: [`step`] takes the worker's
//! state, the signal as the worker sees it and what the shard delivered, and
//! gives the next state, what to do with the item and what to do next.

use crate::gateway::is_gateway_close;
use twilight_gateway::error::ReceiveMessageError;
use twilight_gateway::Event;
use vstd::prelude::*;

verus! {

/// Where a shard worker is in its life.
#[derive(Clone, Copy, Debug, PartialEq, Eq, Structural)]
pub enum WorkerState {
    /// Pulling events from the shard.
    Running,
    /// Saw the shard close during shutdown; pulls nothing more.
    Draining,
    /// Finished. A closed worker stays closed.
    Closed,
}

/// What a pull on the shard delivered.
#[derive(Clone, Copy, Debug, PartialEq, Eq, Structural)]
pub enum Incoming {
    /// An ordinary event.
    Event,
    /// The shard's connection was closed.
    Close,
    /// Receiving failed in a way that the shard recovers from.
    TransientError,
    /// The shard has nothing more to deliver for now.
    StreamEnd,
}

/// What the worker does with the item it has just been handed.
#[derive(Clone, Copy, Debug, PartialEq, Eq, Structural)]
pub enum Effect {
    /// Nothing.
    Nothing,
    /// Hand the event on to the dispatcher.
    Forward,
    /// Log the receive error.
    LogTransient,
    /// Report that the shard closed although no shutdown was requested.
    ReportUnexpectedClose,
}

/// What the worker's loop does after a step.
#[derive(Clone, Copy, Debug, PartialEq, Eq, Structural)]
pub enum Next {
    /// Pull the next item from the shard and step with it.
    Pull,
    /// Step with no item, to check the shutdown signal.
    Check,
    /// Leave the loop.
    Stop,
}

/// The outcome of one step.
#[derive(Clone, Copy, Debug, PartialEq, Eq, Structural)]
pub struct Transition {
    pub state: WorkerState,
    pub effect: Effect,
    pub next: Next,
}

/// One observation of a worker: the shutdown signal as the worker read it,
/// and the item that its pull delivered, if the step followed a pull.
pub struct Observation {
    pub shutdown: bool,
    pub item: Option<Incoming>,
}

/// One step of a shard worker.
///
/// A step with no item is the check of the shutdown signal that the worker
/// makes before it starts to pull and whenever its shard runs dry. A step
/// with an item handles that item.
pub open spec fn step(state: WorkerState, shutdown: bool, item: Option<Incoming>) -> Transition {
    match state {
        WorkerState::Running => match item {
            None => if shutdown {
                Transition { state: WorkerState::Closed, effect: Effect::Nothing, next: Next::Stop }
            } else {
                Transition { state: WorkerState::Running, effect: Effect::Nothing, next: Next::Pull }
            },
            Some(Incoming::Event) => Transition {
                state: WorkerState::Running,
                effect: Effect::Forward,
                next: Next::Pull,
            },
            Some(Incoming::TransientError) => Transition {
                state: WorkerState::Running,
                effect: Effect::LogTransient,
                next: Next::Pull,
            },
            Some(Incoming::Close) => if shutdown {
                Transition {
                    state: WorkerState::Draining,
                    effect: Effect::Nothing,
                    next: Next::Check,
                }
            } else {
                Transition {
                    state: WorkerState::Closed,
                    effect: Effect::ReportUnexpectedClose,
                    next: Next::Stop,
                }
            },
            Some(Incoming::StreamEnd) => Transition {
                state: WorkerState::Running,
                effect: Effect::Nothing,
                next: Next::Check,
            },
        },
        WorkerState::Draining | WorkerState::Closed => Transition {
            state: WorkerState::Closed,
            effect: Effect::Nothing,
            next: Next::Stop,
        },
    }
}

/// The state of a worker that started in `state` and then made the
/// observations `seen`, one after the other.
pub open spec fn state_after(state: WorkerState, seen: Seq<Observation>) -> WorkerState
    decreases seen.len(),
{
    if seen.len() == 0 {
        state
    } else {
        step(state_after(state, seen.drop_last()), seen.last().shutdown, seen.last().item).state
    }
}

/// The number of events that a worker hands to the dispatcher when it starts
/// in `state` and then makes the observations `seen`.
pub open spec fn forwarded(state: WorkerState, seen: Seq<Observation>) -> nat
    decreases seen.len(),
{
    if seen.len() == 0 {
        0
    } else {
        let before = state_after(state, seen.drop_last());
        let last = step(before, seen.last().shutdown, seen.last().item);
        forwarded(state, seen.drop_last()) + if last.effect == Effect::Forward {
            1nat
        } else {
            0nat
        }
    }
}

impl WorkerState {
    /// The state in which a worker is spawned.
    pub fn initial() -> (state: WorkerState)
        ensures
            state == WorkerState::Running,
    {
        WorkerState::Running
    }

    /// Whether the worker has finished.
    pub fn is_closed(&self) -> (closed: bool)
        ensures
            closed == (*self == WorkerState::Closed),
    {
        match self {
            WorkerState::Closed => true,
            _ => false,
        }
    }

    /// Checks the shutdown signal without an item at hand.
    pub fn check(self, shutdown: bool) -> (transition: Transition)
        ensures
            transition == step(self, shutdown, None),
    {
        match self {
            WorkerState::Running => if shutdown {
                Transition { state: WorkerState::Closed, effect: Effect::Nothing, next: Next::Stop }
            } else {
                Transition { state: WorkerState::Running, effect: Effect::Nothing, next: Next::Pull }
            },
            _ => Transition { state: WorkerState::Closed, effect: Effect::Nothing, next: Next::Stop },
        }
    }

    /// Handles one item that a pull delivered.
    pub fn receive(self, shutdown: bool, incoming: Incoming) -> (transition: Transition)
        ensures
            transition == step(self, shutdown, Some(incoming)),
    {
        match self {
            WorkerState::Running => match incoming {
                Incoming::Event => Transition {
                    state: WorkerState::Running,
                    effect: Effect::Forward,
                    next: Next::Pull,
                },
                Incoming::TransientError => Transition {
                    state: WorkerState::Running,
                    effect: Effect::LogTransient,
                    next: Next::Pull,
                },
                Incoming::Close => if shutdown {
                    Transition {
                        state: WorkerState::Draining,
                        effect: Effect::Nothing,
                        next: Next::Check,
                    }
                } else {
                    Transition {
                        state: WorkerState::Closed,
                        effect: Effect::ReportUnexpectedClose,
                        next: Next::Stop,
                    }
                },
                Incoming::StreamEnd => Transition {
                    state: WorkerState::Running,
                    effect: Effect::Nothing,
                    next: Next::Check,
                },
            },
            _ => Transition { state: WorkerState::Closed, effect: Effect::Nothing, next: Next::Stop },
        }
    }
}

/// What a pull on a shard delivered, by the shape of what came back: the end
/// of the stream, a receive error, or an event. `close` says, for an event,
/// whether it reports a closed connection.
pub open spec fn incoming_of(item: Option<Result<Event, ReceiveMessageError>>, close: bool)
    -> Incoming {
    match item {
        None => Incoming::StreamEnd,
        Some(Err(_)) => Incoming::TransientError,
        Some(Ok(_)) => if close {
            Incoming::Close
        } else {
            Incoming::Event
        },
    }
}

/// Classifies what a pull on a shard delivered, given for an event whether it
/// reports a closed connection.
pub fn classify_with(item: &Option<Result<Event, ReceiveMessageError>>, close: bool) -> (incoming:
    Incoming)
    ensures
        incoming == incoming_of(*item, close),
{
    match item {
        None => Incoming::StreamEnd,
        Some(Err(_)) => Incoming::TransientError,
        Some(Ok(_)) => if close {
            Incoming::Close
        } else {
            Incoming::Event
        },
    }
}

/// Classifies what a pull on a shard delivered.
///
/// The end of the stream and a receive error are told apart here. Which
/// events report a closed connection is the gateway client's to say, so an
/// event comes out as a close or as an ordinary event.
pub fn classify(item: &Option<Result<Event, ReceiveMessageError>>) -> (incoming: Incoming)
    ensures
        incoming == incoming_of(*item, true) || incoming == incoming_of(*item, false),
{
    let close = match item {
        Some(Ok(event)) => is_gateway_close(event),
        _ => false,
    };
    classify_with(item, close)
}

/// Whether an observation can end a running worker: it saw the shutdown
/// signal raised, or its shard delivered a close.
pub open spec fn may_end(seen: Observation) -> bool {
    seen.shutdown || seen.item == Some(Incoming::Close)
}

/// A receive error alone never ends a worker: a running worker that is handed
/// one keeps running and pulls again, whatever the shutdown signal holds.
pub proof fn lemma_transient_error_keeps_running(shutdown: bool)
    ensures
        step(WorkerState::Running, shutdown, Some(Incoming::TransientError)).state
            == WorkerState::Running,
        step(WorkerState::Running, shutdown, Some(Incoming::TransientError)).next == Next::Pull,
{
}

/// A worker leaves the running state only on a close or after it has seen the
/// shutdown signal: if it is no longer running after `seen`, one of those
/// observations could end it.
pub proof fn lemma_ends_only_on_close_or_shutdown(seen: Seq<Observation>)
    requires
        state_after(WorkerState::Running, seen) != WorkerState::Running,
    ensures
        exists|i: int| 0 <= i < seen.len() && may_end(#[trigger] seen[i]),
    decreases seen.len(),
{
    if seen.len() > 0 {
        let front = seen.drop_last();
        if state_after(WorkerState::Running, front) != WorkerState::Running {
            lemma_ends_only_on_close_or_shutdown(front);
            let i = choose|i: int| 0 <= i < front.len() && may_end(#[trigger] front[i]);
            assert(may_end(seen[i]));
        } else {
            assert(may_end(seen[seen.len() - 1]));
        }
    }
}

/// The number of ordinary events among the items of `seen`.
pub open spec fn events_in(seen: Seq<Observation>) -> nat
    decreases seen.len(),
{
    if seen.len() == 0 {
        0
    } else {
        events_in(seen.drop_last()) + if seen.last().item == Some(Incoming::Event) {
            1nat
        } else {
            0nat
        }
    }
}

/// As long as nothing it observes could end it, a worker keeps running and
/// forwards every event that its shard delivers.
pub proof fn lemma_running_forwards_every_event(seen: Seq<Observation>)
    requires
        forall|i: int| 0 <= i < seen.len() ==> !may_end(#[trigger] seen[i]),
    ensures
        state_after(WorkerState::Running, seen) == WorkerState::Running,
        forwarded(WorkerState::Running, seen) == events_in(seen),
    decreases seen.len(),
{
    if seen.len() > 0 {
        let front = seen.drop_last();
        assert forall|i: int| 0 <= i < front.len() implies !may_end(#[trigger] front[i]) by {
            assert(front[i] == seen[i]);
        }
        lemma_running_forwards_every_event(front);
        assert(!may_end(seen[seen.len() - 1]));
    }
}

/// A closed worker stays closed, whatever it observes.
pub proof fn lemma_closed_is_terminal(seen: Seq<Observation>)
    ensures
        state_after(WorkerState::Closed, seen) == WorkerState::Closed,
        forwarded(WorkerState::Closed, seen) == 0,
    decreases seen.len(),
{
    if seen.len() > 0 {
        lemma_closed_is_terminal(seen.drop_last());
    }
}

/// A draining worker pulls nothing more: its next step closes it, and it
/// forwards nothing on the way.
pub proof fn lemma_draining_closes(shutdown: bool, item: Option<Incoming>)
    ensures
        step(WorkerState::Draining, shutdown, item).state == WorkerState::Closed,
        step(WorkerState::Draining, shutdown, item).effect == Effect::Nothing,
        step(WorkerState::Draining, shutdown, item).next == Next::Stop,
{
}

} // verus!
