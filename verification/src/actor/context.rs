//! What a handler sees of the runtime.

use vstd::prelude::*;
use crate::actor::state::{RunningState, State};
use crate::identifier::ActorId;
use crate::system::{stopped_in, ActorSystem};

verus! {

/// The runtime's view of one actor, as it is handed to every handler: who
/// the actor is and whether it still runs. The context holds the actor's
/// running state; the registry keeps a record of it, and both move
/// together.
pub trait ActorContext: Sized {
    /// The actor's identifier.
    spec fn actor(&self) -> ActorId;

    /// Where the running state stands.
    spec fn running(&self) -> State;

    /// The context of a fresh actor: it is active.
    fn track(id: ActorId) -> (r: Self)
        ensures
            r.actor() == id,
            r.running() == State::Active,
    ;

    fn id(&self) -> (r: &ActorId)
        ensures
            *r == self.actor(),
    ;

    /// Stops the actor: its running state moves to `Shutdown`, here and in
    /// the record that the registry of `system` keeps of the actor, where it
    /// keeps one. Every record of the actor's state reads `Shutdown`
    /// afterwards, and nothing is removed.
    fn shutdown<H, V>(&mut self, system: &mut ActorSystem<H, V>)
        requires
            old(system).wf(),
        ensures
            final(self).running() == State::Shutdown,
            final(self).actor() == old(self).actor(),
            final(system).wf(),
            final(system).spec_extension() == old(system).spec_extension(),
            stopped_in(old(system)@, final(system)@, old(self).actor()@),
    ;

    fn state(&self) -> (r: &RunningState)
        ensures
            r@ == self.running(),
    ;
}

/// The context of an actor without persistence.
#[derive(Debug)]
pub struct Context {
    id: ActorId,
    state: RunningState,
}

impl ActorContext for Context {
    closed spec fn actor(&self) -> ActorId {
        self.id
    }

    closed spec fn running(&self) -> State {
        self.state@
    }

    fn track(id: ActorId) -> (r: Context) {
        Context { id, state: RunningState::default() }
    }

    fn id(&self) -> (r: &ActorId) {
        &self.id
    }

    fn shutdown<H, V>(&mut self, system: &mut ActorSystem<H, V>) {
        self.state.switch();
        system.mark(&self.id);
    }

    fn state(&self) -> (r: &RunningState) {
        &self.state
    }
}

} // verus!
