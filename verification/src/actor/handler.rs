//! The message that every actor handles.

use vstd::prelude::*;
use crate::actor::context::ActorContext;
use crate::actor::message::Message;
use crate::actor::state::State;
use crate::errors::ActorError;
use crate::system::{stopped_in, ActorSystem};

verus! {

/// The request to stop. It travels through the mailbox like any other
/// message, so whatever was sent before it is handled before it.
#[derive(Debug, PartialEq, Eq, Structural)]
pub struct Terminate;

impl Message for Terminate {
}

impl Terminate {
    /// Handles the request: the actor's running state moves to `Shutdown`,
    /// in its context and in the registry's record of it, which ends the
    /// message loop once this handler has returned. An actor that the
    /// registry does not hold stops all the same.
    pub fn call<H, V, C: ActorContext>(self, system: &mut ActorSystem<H, V>, ctx: &mut C) -> (r:
        Result<(), ActorError>)
        requires
            old(system).wf(),
        ensures
            r is Ok,
            final(ctx).running() == State::Shutdown,
            final(ctx).actor() == old(ctx).actor(),
            final(system).wf(),
            final(system).spec_extension() == old(system).spec_extension(),
            stopped_in(old(system)@, final(system)@, old(ctx).actor()@),
    {
        ctx.shutdown(system);
        Ok(())
    }
}

} // verus!
