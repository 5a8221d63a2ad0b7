//! The poll loop, one step at a time.
//!
//! The loop waits for a tick, asks the X server for the idle time, evaluates
//! the watches and announces those that fire, one after the other. Waiting,
//! asking and announcing happen outside; [`poll_step`] decides what comes next.
use vstd::prelude::*;

use crate::model::StateModel;
use crate::state::State;

verus! {

/// What the poll loop is waiting for.
pub enum PollPhase {
    /// The first tick, which comes at once and is dropped. The first sample is
    /// thus taken a full interval after the start, when clients have had a
    /// moment to register.
    Priming,
    /// The next tick.
    Waiting,
    /// The X server's answer.
    Querying,
    /// The announcement of the watch `fired[next]`.
    Announcing { fired: Vec<u32>, next: usize },
    /// Nothing: the loop has ended.
    Stopped,
}

/// What has happened since the previous step.
#[derive(Clone, Copy, Debug)]
pub enum PollEvent {
    /// A tick has come.
    Ticked,
    /// The X server has told the idle time in milliseconds.
    IdleTime(u64),
    /// The idle-time query has failed.
    QueryFailed,
    /// The announcement is done with, whether or not it went out.
    Announced { delivered: bool },
}

/// What to do next.
#[derive(Clone, Copy, Debug, PartialEq, Eq)]
pub enum PollAction {
    /// Wait for a tick.
    AwaitTick,
    /// Ask the X server for the idle time.
    QueryIdleTime,
    /// Emit the `WatchFired` signal for a watch.
    Announce(u32),
    /// End the loop with the error of the failed query.
    Stop,
}

/// What a [`PollPhase`] stands for.
pub enum PhaseModel {
    /// The first tick is awaited.
    Priming,
    /// A tick is awaited.
    Waiting,
    /// The idle time is awaited.
    Querying,
    /// These watches are still to be announced, the first of them just now.
    Announcing(Seq<u32>),
    /// The loop has ended.
    Stopped,
}

impl View for PollPhase {
    type V = PhaseModel;

    open spec fn view(&self) -> PhaseModel {
        match *self {
            PollPhase::Priming => PhaseModel::Priming,
            PollPhase::Waiting => PhaseModel::Waiting,
            PollPhase::Querying => PhaseModel::Querying,
            PollPhase::Announcing { fired, next } => PhaseModel::Announcing(
                if next <= fired.len() {
                    fired@.skip(next as int)
                } else {
                    Seq::empty()
                },
            ),
            PollPhase::Stopped => PhaseModel::Stopped,
        }
    }
}

/// How the loop goes on when `fired` are the watches still to be announced.
pub open spec fn announcing(fired: Seq<u32>) -> (PhaseModel, PollAction) {
    if fired.len() == 0 {
        (PhaseModel::Waiting, PollAction::AwaitTick)
    } else {
        (PhaseModel::Announcing(fired), PollAction::Announce(fired[0]))
    }
}

/// What is done in a phase until the event comes that it is waiting for.
pub open spec fn awaiting(phase: PhaseModel) -> (PhaseModel, PollAction) {
    match phase {
        PhaseModel::Priming => (phase, PollAction::AwaitTick),
        PhaseModel::Waiting => (phase, PollAction::AwaitTick),
        PhaseModel::Querying => (phase, PollAction::QueryIdleTime),
        PhaseModel::Announcing(fired) => announcing(fired),
        PhaseModel::Stopped => (phase, PollAction::Stop),
    }
}

/// How the loop goes on after an event, where `fired` are the watches that fire
/// if the event is a sample of the idle time. An event that the phase is not
/// waiting for changes nothing.
pub open spec fn poll_next(phase: PhaseModel, event: PollEvent, fired: Seq<u32>) -> (
    PhaseModel,
    PollAction,
) {
    match (phase, event) {
        (PhaseModel::Priming, PollEvent::Ticked) => (PhaseModel::Waiting, PollAction::AwaitTick),
        (PhaseModel::Waiting, PollEvent::Ticked) => (
            PhaseModel::Querying,
            PollAction::QueryIdleTime,
        ),
        (PhaseModel::Querying, PollEvent::IdleTime(_)) => announcing(fired),
        (PhaseModel::Querying, PollEvent::QueryFailed) => (PhaseModel::Stopped, PollAction::Stop),
        (PhaseModel::Announcing(rest), PollEvent::Announced { .. }) => announcing(
            if rest.len() == 0 {
                rest
            } else {
                rest.drop_first()
            },
        ),
        _ => awaiting(phase),
    }
}

/// The sample that an event brings to a loop that is waiting for one.
pub open spec fn sampled(phase: PhaseModel, event: PollEvent) -> Option<u64> {
    match (phase, event) {
        (PhaseModel::Querying, PollEvent::IdleTime(idle_ms)) => Some(idle_ms),
        _ => None,
    }
}

/// The registry after a step of the loop: only a sample of the idle time
/// changes it.
pub open spec fn state_after_step(
    before: StateModel,
    phase: PhaseModel,
    event: PollEvent,
) -> StateModel {
    match sampled(phase, event) {
        Some(idle_ms) => before.after_tick(idle_ms),
        None => before,
    }
}

/// Starts announcing the watch `fired[next]`, or waits for the next tick if
/// there is none.
pub fn announce_from(fired: Vec<u32>, next: usize) -> (step: (PollPhase, PollAction))
    ensures
        (step.0@, step.1) == announcing(
            if next <= fired@.len() {
                fired@.skip(next as int)
            } else {
                Seq::empty()
            },
        ),
{
    if next < fired.len() {
        let id = fired[next];
        (PollPhase::Announcing { fired, next }, PollAction::Announce(id))
    } else {
        (PollPhase::Waiting, PollAction::AwaitTick)
    }
}

/// Takes in an event and tells how the loop goes on.
///
/// The watches that fire at a sample are announced in the order in which the
/// registry reports them. That an announcement fails holds up neither the
/// others nor the loop; a failed query ends it.
pub fn poll_step(state: &mut State, phase: PollPhase, event: PollEvent) -> (step: (
    PollPhase,
    PollAction,
))
    ensures
        final(state)@ == state_after_step(old(state)@, phase@, event),
        sampled(phase@, event) matches Some(idle_ms) ==> exists|fired: Seq<u32>| #[trigger]
            old(state)@.fires(idle_ms, fired) && (step.0@, step.1) == poll_next(
                phase@,
                event,
                fired,
            ),
        sampled(phase@, event) is None ==> (step.0@, step.1) == poll_next(
            phase@,
            event,
            Seq::empty(),
        ),
        old(state)@.well_formed() ==> final(state)@.well_formed(),
{
    match (phase, event) {
        (PollPhase::Priming, PollEvent::Ticked) => (PollPhase::Waiting, PollAction::AwaitTick),
        (PollPhase::Waiting, PollEvent::Ticked) => (PollPhase::Querying, PollAction::QueryIdleTime),
        (PollPhase::Querying, PollEvent::IdleTime(idle_ms)) => {
            let fired = state.evaluate_tick(idle_ms);
            assert(fired@.skip(0) == fired@);
            announce_from(fired, 0)
        },
        (PollPhase::Querying, PollEvent::QueryFailed) => (PollPhase::Stopped, PollAction::Stop),
        (PollPhase::Announcing { fired, next }, PollEvent::Announced { .. }) => {
            if next < fired.len() {
                assert(fired@.skip(next as int).drop_first() == fired@.skip(next + 1));
                announce_from(fired, next + 1)
            } else {
                (PollPhase::Waiting, PollAction::AwaitTick)
            }
        },
        (PollPhase::Priming, _) => (PollPhase::Priming, PollAction::AwaitTick),
        (PollPhase::Waiting, _) => (PollPhase::Waiting, PollAction::AwaitTick),
        (PollPhase::Querying, _) => (PollPhase::Querying, PollAction::QueryIdleTime),
        (PollPhase::Announcing { fired, next }, _) => announce_from(fired, next),
        (PollPhase::Stopped, _) => (PollPhase::Stopped, PollAction::Stop),
    }
}

} // verus!
