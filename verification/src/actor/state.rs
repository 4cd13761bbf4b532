//! The running state of an actor.

use vstd::prelude::*;

verus! {

/// Whether an actor still takes messages.
#[derive(Debug, Clone, Copy, PartialEq, Eq, Structural)]
pub enum State {
    Active,
    Shutdown,
}

/// The running-state flag of one actor. It starts `Active` and can only ever
/// move to `Shutdown`. A flag cannot be copied: whoever shares one shares
/// the value that holds it.
#[derive(Debug)]
pub struct RunningState(State);

impl View for RunningState {
    type V = State;

    closed spec fn view(&self) -> State {
        self.0
    }
}

impl RunningState {
    /// The flag that stands at `state`.
    pub closed spec fn at(state: State) -> RunningState {
        RunningState(state)
    }

    /// A flag is its state and nothing else.
    pub broadcast proof fn lemma_at(state: State)
        ensures
            (#[trigger] RunningState::at(state))@ == state,
    {
    }

    /// Moves the flag to `Shutdown`, whatever it was.
    pub fn switch(&mut self)
        ensures
            final(self)@ == State::Shutdown,
            *final(self) == RunningState::at(State::Shutdown),
    {
        self.0 = State::Shutdown;
    }

    /// Where the flag stands.
    pub fn state(&self) -> (r: State)
        ensures
            r == self@,
    {
        self.0
    }

    pub fn is_active(&self) -> (r: bool)
        ensures
            r == (self@ == State::Active),
    {
        match self.0 {
            State::Active => true,
            State::Shutdown => false,
        }
    }

    /// True once the flag has left `Active`: the actor may be stopped.
    pub fn available_shutdown(&self) -> (r: bool)
        ensures
            r == (self@ == State::Shutdown),
    {
        !self.is_active()
    }
}

impl Default for RunningState {
    fn default() -> (r: RunningState)
        ensures
            r@ == State::Active,
    {
        RunningState(State::Active)
    }
}

} // verus!
