//! The context of a persistent actor.

use vstd::prelude::*;
use crate::actor::context::ActorContext;
use crate::actor::state::{RunningState, State};
use crate::identifier::ActorId;
use crate::persistence::identifier::SequenceId;
use crate::system::ActorSystem;

verus! {

/// The runtime's view of one persistent actor: who it is, whether it still
/// runs, and where its stream stands.
#[derive(Debug)]
pub struct PersistContext {
    id: ActorId,
    state: RunningState,
    sequence: SequenceId,
}

impl PersistContext {
    /// Where the stream stands.
    pub closed spec fn position(&self) -> SequenceId {
        self.sequence
    }

    pub fn sequence(&self) -> (r: &SequenceId)
        ensures
            *r == self.position(),
    {
        &self.sequence
    }

    pub fn mut_sequence(&mut self) -> (r: &mut SequenceId)
        ensures
            *r == old(self).position(),
            final(self).position() == *final(r),
            final(self).actor() == old(self).actor(),
            final(self).running() == old(self).running(),
    {
        &mut self.sequence
    }
}

impl ActorContext for PersistContext {
    closed spec fn actor(&self) -> ActorId {
        self.id
    }

    closed spec fn running(&self) -> State {
        self.state@
    }

    /// The context of a fresh persistent actor: it is active and its stream
    /// stands at 0.
    fn track(id: ActorId) -> (r: PersistContext)
        ensures
            r.position()@ == 0,
    {
        PersistContext { id, state: RunningState::default(), sequence: SequenceId::new(0) }
    }

    fn id(&self) -> (r: &ActorId) {
        &self.id
    }

    fn shutdown<H, V>(&mut self, system: &mut ActorSystem<H, V>)
        ensures
            final(self).position() == old(self).position(),
    {
        self.state.switch();
        system.mark(&self.id);
    }

    fn state(&self) -> (r: &RunningState) {
        &self.state
    }
}

} // verus!
