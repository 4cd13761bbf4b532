//! What a reference knows of the actor behind it.

use vstd::prelude::*;
use crate::actor::state::{RunningState, State};

verus! {

/// The running state of the actor behind a reference.
#[derive(Debug)]
pub struct ActorCell {
    running_state: RunningState,
}

impl View for ActorCell {
    type V = State;

    closed spec fn view(&self) -> State {
        self.running_state@
    }
}

impl ActorCell {
    /// The cell of an actor whose running state stands at `state`.
    pub closed spec fn new_spec(state: State) -> ActorCell {
        ActorCell { running_state: RunningState::at(state) }
    }

    /// A cell is its state and nothing else.
    pub broadcast proof fn lemma_new_spec(state: State)
        ensures
            (#[trigger] ActorCell::new_spec(state))@ == state,
    {
        RunningState::lemma_at(state);
    }

    /// The cell of an actor whose running state is `running_state`.
    pub fn new(running_state: RunningState) -> (r: ActorCell)
        ensures
            r@ == running_state@,
    {
        ActorCell { running_state }
    }

    pub fn is_active(&self) -> (r: bool)
        ensures
            r == (self@ == State::Active),
    {
        self.running_state.is_active()
    }

    /// Notes that the actor has left `Active`.
    pub fn switch(&mut self)
        ensures
            final(self)@ == State::Shutdown,
            *final(self) == ActorCell::new_spec(State::Shutdown),
    {
        self.running_state.switch();
    }
}

} // verus!
