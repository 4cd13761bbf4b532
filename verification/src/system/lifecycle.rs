//! The lifecycle of one actor: what its task does, one decision at a time.
//!
//! The task that runs an actor owns its mailbox, the actor and its context.
//! It tells the lifecycle what happened and the lifecycle answers with what to
//! do next: wait for a message, run a handler, or leave the registry.

use vstd::prelude::*;
use crate::actor::state::State;
use crate::identifier::ActorId;

verus! {

/// Where a lifecycle stands.
#[derive(Debug, Clone, Copy, PartialEq, Eq, Structural)]
pub enum Phase {
    /// No handler runs; the task waits on the mailbox.
    Waiting,
    /// The handler of the message last taken from the mailbox runs.
    Handling,
    /// The message loop is over.
    Stopped,
}

/// What the task reports.
#[derive(Debug, Clone, Copy, PartialEq, Eq, Structural)]
pub enum Signal {
    /// The mailbox handed over its next message.
    Delivered,
    /// The mailbox is closed and holds nothing more.
    Closed,
    /// The handler returned. `failed` says whether applying the message
    /// ended in an error, `state` is the context's running state afterwards.
    Handled { failed: bool, state: State },
}

/// What the task is to do next.
#[derive(Debug, Clone, Copy, PartialEq, Eq, Structural)]
pub enum Action {
    /// Wait for the next message.
    Receive,
    /// Run the handler of the message that was delivered.
    Apply,
    /// Leave the loop, drop the mailbox and remove the actor from the registry.
    Deregister,
    /// Nothing: the signal does not belong to the phase and changed nothing.
    Ignore,
}

/// The phase that follows `phase` on `signal`.
pub open spec fn next_phase(phase: Phase, signal: Signal) -> Phase {
    match (phase, signal) {
        (Phase::Waiting, Signal::Delivered) => Phase::Handling,
        (Phase::Waiting, Signal::Closed) => Phase::Stopped,
        (Phase::Handling, Signal::Handled { failed: _, state: State::Active }) => Phase::Waiting,
        (Phase::Handling, Signal::Handled { failed: _, state: State::Shutdown }) => Phase::Stopped,
        _ => phase,
    }
}

/// The action that answers `signal` in `phase`.
pub open spec fn next_action(phase: Phase, signal: Signal) -> Action {
    match (phase, signal) {
        (Phase::Waiting, Signal::Delivered) => Action::Apply,
        (Phase::Waiting, Signal::Closed) => Action::Deregister,
        (Phase::Handling, Signal::Handled { failed: _, state: State::Active }) => Action::Receive,
        (Phase::Handling, Signal::Handled { failed: _, state: State::Shutdown }) => Action::Deregister,
        _ => Action::Ignore,
    }
}

/// The phase that a lifecycle in `phase` reaches through `signals`, taken
/// one after the other.
pub open spec fn phase_after(phase: Phase, signals: Seq<Signal>) -> Phase
    decreases signals.len(),
{
    if signals.len() == 0 {
        phase
    } else {
        next_phase(phase_after(phase, signals.drop_last()), signals.last())
    }
}

/// The action that answers the signal at place `at` of `signals`, for a
/// lifecycle that started in `phase`.
pub open spec fn action_at(phase: Phase, signals: Seq<Signal>, at: int) -> Action {
    next_action(phase_after(phase, signals.take(at)), signals[at])
}

/// While no handler returns, a lifecycle that runs one stays where it is.
proof fn lemma_handling_lasts(phase: Phase, signals: Seq<Signal>, from: int, to: int)
    requires
        0 <= from < to <= signals.len(),
        action_at(phase, signals, from) == Action::Apply,
        forall|k: int| from < k < to ==> !(#[trigger] signals[k] is Handled),
    ensures
        phase_after(phase, signals.take(to)) == Phase::Handling,
    decreases to - from,
{
    let upto = signals.take(to);
    assert(upto.drop_last() =~= signals.take(to - 1));
    assert(upto.last() == signals[to - 1]);
    if to - 1 > from {
        lemma_handling_lasts(phase, signals, from, to - 1);
    }
}

/// One handler at a time: between any two messages that a lifecycle has
/// applied, the handler of the first has returned. Messages are applied in
/// the order in which the mailbox delivers them, and the handler of one has
/// completed before the handler of the next starts.
pub proof fn lemma_one_handler_at_a_time(
    phase: Phase,
    signals: Seq<Signal>,
    first: int,
    second: int,
)
    requires
        0 <= first < second < signals.len(),
        action_at(phase, signals, first) == Action::Apply,
        action_at(phase, signals, second) == Action::Apply,
    ensures
        exists|k: int| first < k < second && #[trigger] signals[k] is Handled,
{
    if forall|k: int| first < k < second ==> !(#[trigger] signals[k] is Handled) {
        lemma_handling_lasts(phase, signals, first, second);
    }
}

/// A lifecycle that has stopped stays stopped, whatever it is told, and asks
/// for nothing more: what is left in the mailbox is dropped.
pub proof fn lemma_stopped_is_final(signals: Seq<Signal>, at: int)
    requires
        0 <= at < signals.len(),
    ensures
        phase_after(Phase::Stopped, signals) == Phase::Stopped,
        action_at(Phase::Stopped, signals, at) == Action::Ignore,
    decreases signals.len(),
{
    lemma_stopped_stays(signals);
    lemma_stopped_stays(signals.take(at));
}

/// A lifecycle that has stopped stays stopped.
proof fn lemma_stopped_stays(signals: Seq<Signal>)
    ensures
        phase_after(Phase::Stopped, signals) == Phase::Stopped,
    decreases signals.len(),
{
    if signals.len() > 0 {
        lemma_stopped_stays(signals.drop_last());
    }
}

/// A handler that fails stops nothing: what follows a handler depends on
/// the running state alone.
pub proof fn lemma_failure_is_not_fatal(phase: Phase, state: State)
    ensures
        next_phase(phase, Signal::Handled { failed: true, state }) == next_phase(
            phase,
            Signal::Handled { failed: false, state },
        ),
        next_action(phase, Signal::Handled { failed: true, state }) == next_action(
            phase,
            Signal::Handled { failed: false, state },
        ),
{
}

/// The lifecycle of the actor `id`.
#[derive(Debug)]
pub struct LifeCycle {
    id: ActorId,
    phase: Phase,
}

impl LifeCycle {
    pub closed spec fn spec_id(&self) -> ActorId {
        self.id
    }

    pub closed spec fn spec_phase(&self) -> Phase {
        self.phase
    }

    /// Starts the lifecycle of `id` from what the actor's activation hook
    /// returned. A failed activation starts nothing and its error goes back
    /// to whoever asked for the actor; otherwise the task waits for the first
    /// message.
    pub fn spawn<E>(id: ActorId, activation: Result<(), E>) -> (r: Result<LifeCycle, E>)
        ensures
            match activation {
                Ok(()) => r matches Ok(l) && l.spec_id() == id && l.spec_phase() == Phase::Waiting,
                Err(e) => r == Err::<LifeCycle, E>(e),
            },
    {
        match activation {
            Ok(()) => Ok(LifeCycle { id, phase: Phase::Waiting }),
            Err(e) => Err(e),
        }
    }

    pub fn id(&self) -> (r: &ActorId)
        ensures
            *r == self.spec_id(),
    {
        &self.id
    }

    #[verifier::when_used_as_spec(spec_phase)]
    pub fn phase(&self) -> (r: Phase)
        ensures
            r == self.spec_phase(),
    {
        self.phase
    }

    /// Takes one report of the task and answers with the next action.
    ///
    /// A message is applied only while no handler runs, a failed handler
    /// stops nothing, and the loop ends when the mailbox closes or a handler
    /// leaves the running state at `Shutdown`.
    pub fn next(&mut self, signal: Signal) -> (action: Action)
        ensures
            action == next_action(old(self).phase(), signal),
            final(self).phase() == next_phase(old(self).phase(), signal),
            final(self).spec_id() == old(self).spec_id(),
    {
        let action = match (self.phase, signal) {
            (Phase::Waiting, Signal::Delivered) => {
                self.phase = Phase::Handling;
                Action::Apply
            },
            (Phase::Waiting, Signal::Closed) => {
                self.phase = Phase::Stopped;
                Action::Deregister
            },
            (Phase::Handling, Signal::Handled { failed: _, state }) => {
                match state {
                    State::Active => {
                        self.phase = Phase::Waiting;
                        Action::Receive
                    },
                    State::Shutdown => {
                        self.phase = Phase::Stopped;
                        Action::Deregister
                    },
                }
            },
            _ => Action::Ignore,
        };
        action
    }
}

} // verus!
