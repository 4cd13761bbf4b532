//! References to actors, and what becomes of a request sent through one.

pub mod action;
pub mod cell;

pub use self::action::{acknowledge, applied, ask, flatten, tell, Delivery};
pub use self::cell::ActorCell;

use vstd::prelude::*;
use std::any::TypeId;
use crate::actor::state::State;
use crate::errors::ActorError;
use crate::token::{same_token, token, type_token};

verus! {

/// A reference to an actor of any type, as the registry keeps it: the token
/// of the actor's type, the actor's running state and the handle through
/// which the actor is reached.
#[derive(Debug)]
pub struct AnyRef<H> {
    kind: TypeId,
    cell: ActorCell,
    handle: H,
}

impl<H> AnyRef<H> {
    /// The token of the actor's type.
    pub closed spec fn kind(&self) -> TypeId {
        self.kind
    }

    /// The actor's running state.
    pub closed spec fn running(&self) -> State {
        self.cell@
    }

    /// The handle through which the actor is reached.
    pub closed spec fn spec_handle(&self) -> H {
        self.handle
    }

    /// This reference, once the actor behind it has left `Active`.
    pub closed spec fn stopped(&self) -> AnyRef<H> {
        AnyRef { kind: self.kind, cell: ActorCell::new_spec(State::Shutdown), handle: self.handle }
    }

    /// A stopped reference is the same reference, but for its running state.
    pub broadcast proof fn lemma_stopped(&self)
        ensures
            (#[trigger] self.stopped()).running() == State::Shutdown,
            self.stopped().kind() == self.kind(),
            self.stopped().spec_handle() == self.spec_handle(),
    {
        ActorCell::lemma_new_spec(State::Shutdown);
    }

    /// The reference to an active actor of the type `A` behind `handle`.
    pub fn new<A: 'static>(handle: H) -> (r: AnyRef<H>)
        ensures
            r.kind() == type_token::<A>(),
            r.running() == State::Active,
            r.spec_handle() == handle,
    {
        AnyRef {
            kind: token::<A>(),
            cell: ActorCell::new(crate::actor::state::RunningState::default()),
            handle,
        }
    }

    /// The reference to an active actor of the type with the token `kind`
    /// behind `handle`.
    pub fn of(kind: TypeId, handle: H) -> (r: AnyRef<H>)
        ensures
            r.kind() == kind,
            r.running() == State::Active,
            r.spec_handle() == handle,
    {
        AnyRef {
            kind,
            cell: ActorCell::new(crate::actor::state::RunningState::default()),
            handle,
        }
    }

    pub fn is_active(&self) -> (r: bool)
        ensures
            r == (self.running() == State::Active),
    {
        self.cell.is_active()
    }

    /// Notes that the actor has left `Active`.
    pub(crate) fn shutdown(&mut self)
        ensures
            *final(self) == old(self).stopped(),
            final(self).running() == State::Shutdown,
            final(self).kind() == old(self).kind(),
            final(self).spec_handle() == old(self).spec_handle(),
    {
        self.cell.switch();
    }

    pub fn handle(&self) -> (r: &H)
        ensures
            *r == self.spec_handle(),
    {
        &self.handle
    }

    /// The handle, if the actor is of the type with the token `kind`.
    pub fn downcast_as(&self, kind: &TypeId) -> (r: Result<&H, ActorError>)
        ensures
            match r {
                Ok(handle) => self.kind() == *kind && *handle == self.spec_handle(),
                Err(e) => self.kind() != *kind && e is DownCastFromAny,
            },
    {
        if same_token(&self.kind, kind) {
            Ok(&self.handle)
        } else {
            Err(ActorError::DownCastFromAny)
        }
    }

    /// The handle, if the actor is of the type `A`.
    pub fn downcast<A: 'static>(&self) -> (r: Result<&H, ActorError>)
        ensures
            match r {
                Ok(handle) => self.kind() == type_token::<A>() && *handle == self.spec_handle(),
                Err(e) => self.kind() != type_token::<A>() && e is DownCastFromAny,
            },
    {
        let kind = token::<A>();
        self.downcast_as(&kind)
    }
}

} // verus!
