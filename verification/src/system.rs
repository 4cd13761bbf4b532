//! The system: its registry of live actors and the lifecycle of each.

pub mod extension;
pub mod lifecycle;
pub mod registry;

pub use self::extension::{ExtensionMissingError, Extensions};
pub use self::lifecycle::{next_action, next_phase, Action, LifeCycle, Phase, Signal};
pub use self::registry::Registry;

use vstd::prelude::*;
use std::any::TypeId;
use crate::actor::context::ActorContext;
use crate::actor::refs::AnyRef;
use crate::actor::state::State;
use crate::actor::TryIntoActor;
use crate::errors::ActorError;
use crate::identifier::{ActorId, IntoActorId};
use crate::token::type_token;

verus! {

/// An actor together with its context: what a lifecycle runs.
#[derive(Debug)]
pub struct Behavior<A, C: ActorContext> {
    pub actor: A,
    pub ctx: C,
}

impl<A, C: ActorContext> Behavior<A, C> {
    pub fn new(actor: A, ctx: C) -> (r: Behavior<A, C>)
        ensures
            r.actor == actor,
            r.ctx == ctx,
    {
        Behavior { actor, ctx }
    }
}

/// Makes behaviors.
pub struct Factory;

impl Factory {
    /// The behavior of a fresh actor under the identifier `id`: its context
    /// is active.
    pub fn create<A, C: ActorContext>(actor: A, id: ActorId) -> (r: Behavior<A, C>)
        ensures
            r.actor == actor,
            r.ctx.actor() == id,
            r.ctx.running() == State::Active,
    {
        Behavior::new(actor, C::track(id))
    }

    /// The behavior of the actor that `into` turns into, under the identifier
    /// it settles on; or the rejection of `into`.
    pub fn try_create<A, C: ActorContext, T: TryIntoActor<A>>(id: T::Identifier, into: T) -> (r:
        Result<Behavior<A, C>, T::Rejection>)
        ensures
            r matches Ok(behavior) ==> behavior.ctx.running() == State::Active && exists|
                settled: T::Identifier,
            |
                #[trigger] call_ensures(
                    T::try_into_actor,
                    (into, id),
                    Ok::<(T::Identifier, A), T::Rejection>((settled, behavior.actor)),
                ) && call_ensures(
                    <T::Identifier as IntoActorId>::into_actor_id,
                    (settled,),
                    behavior.ctx.actor(),
                ),
            r matches Err(rejection) ==> call_ensures(
                T::try_into_actor,
                (into, id),
                Err::<(T::Identifier, A), T::Rejection>(rejection),
            ),
    {
        match into.try_into_actor(id) {
            Ok((settled, actor)) => {
                let ghost witness = settled;
                let name = settled.into_actor_id();
                let behavior: Behavior<A, C> = Factory::create(actor, name);
                proof {
                    assert(call_ensures(
                        T::try_into_actor,
                        (into, id),
                        Ok::<(T::Identifier, A), T::Rejection>((witness, behavior.actor)),
                    ));
                    assert(call_ensures(
                        <T::Identifier as IntoActorId>::into_actor_id,
                        (witness,),
                        behavior.ctx.actor(),
                    ));
                }
                Ok(behavior)
            },
            Err(rejection) => Err(rejection),
        }
    }
}

/// An actor that is asked to stop leaves the registry by its own lifecycle.
///
/// Asking removes nothing. The request is handled like any message and
/// leaves the running state at `Shutdown`; the lifecycle answers the return
/// of that handler, failed or not, by stopping and asking for the actor to
/// be taken out; and once it is taken out, a lookup under its identifier
/// finds nothing.
pub proof fn lemma_shutdown_leaves_registry<H>(
    registered: Map<Seq<char>, AnyRef<H>>,
    id: Seq<char>,
    failed: bool,
)
    ensures
        next_action(Phase::Handling, Signal::Handled { failed, state: State::Shutdown })
            == Action::Deregister,
        next_phase(Phase::Handling, Signal::Handled { failed, state: State::Shutdown })
            == Phase::Stopped,
        !registered.remove(id).contains_key(id),
        forall|other: Seq<char>|
            other != id ==> registered.remove(id).contains_key(other) == registered.contains_key(
                other,
            ),
{
}

/// A system in the making: the extensions to build it with.
#[derive(Debug)]
pub struct SystemBuilder<V> {
    ext: Extensions<V>,
}

impl<V> SystemBuilder<V> {
    pub closed spec fn spec_extension(&self) -> Extensions<V> {
        self.ext
    }

    /// The extensions, to install into.
    pub fn extension(&mut self) -> (r: &mut Extensions<V>)
        ensures
            *r == old(self).spec_extension(),
            final(self).spec_extension() == *final(r),
    {
        &mut self.ext
    }

    /// The system with the extensions installed so far and without actors.
    pub fn build<H>(self) -> (r: ActorSystem<H, V>)
        ensures
            r.wf(),
            r@ == Map::<Seq<char>, AnyRef<H>>::empty(),
            r.spec_extension() == self.spec_extension(),
    {
        ActorSystem { ext: self.ext, registry: Registry::new() }
    }
}

/// Whether `after` is `before` with the record under `id` moved to
/// `Shutdown`: the record is as it was but for its running state, every
/// other record is as it was, and where `before` holds no record under `id`
/// nothing has changed.
pub open spec fn stopped_in<H>(
    before: Map<Seq<char>, AnyRef<H>>,
    after: Map<Seq<char>, AnyRef<H>>,
    id: Seq<char>,
) -> bool {
    if before.contains_key(id) {
        after == before.insert(id, before[id].stopped()) && after[id].running() == State::Shutdown
    } else {
        after == before
    }
}

/// What a lookup that may be followed by a spawn found.
#[derive(Debug)]
pub enum Found<'a, H> {
    /// The actor is registered: here is its handle.
    Registered(&'a H),
    /// Nothing is registered under the identifier: the actor is to be built
    /// and spawned.
    Vacant,
}

/// The system: its extensions, its registry, and what is asked of it from
/// outside.
#[derive(Debug)]
pub struct ActorSystem<H, V> {
    ext: Extensions<V>,
    registry: Registry<H>,
}

impl<H, V> View for ActorSystem<H, V> {
    type V = Map<Seq<char>, AnyRef<H>>;

    open spec fn view(&self) -> Map<Seq<char>, AnyRef<H>> {
        self.spec_registry()@
    }
}

impl<H, V> ActorSystem<H, V> {
    pub closed spec fn spec_registry(&self) -> Registry<H> {
        self.registry
    }

    pub closed spec fn spec_extension(&self) -> Extensions<V> {
        self.ext
    }

    /// The builder of a system, with no extension installed yet.
    pub fn builder() -> (r: SystemBuilder<V>)
        ensures
            r.spec_extension()@.len() == 0,
    {
        SystemBuilder { ext: Extensions::new() }
    }

    /// The extensions that the system was built with.
    pub fn extension(&self) -> (r: &Extensions<V>)
        ensures
            *r == self.spec_extension(),
    {
        &self.ext
    }

    /// What holds of every system: its registry is well formed.
    pub open spec fn wf(&self) -> bool {
        self.spec_registry().wf()
    }

    pub fn registry(&self) -> (r: &Registry<H>)
        ensures
            *r == self.spec_registry(),
    {
        &self.registry
    }

    /// Registers `actor` under `id`: the first step of a spawn, before the
    /// actor's activation hook runs.
    ///
    /// While an active actor is registered under `id` the new one is refused
    /// and nothing changes. An entry whose actor has left `Active` is
    /// overwritten and handed back.
    pub fn register(&mut self, id: ActorId, actor: AnyRef<H>) -> (r: Result<
        Option<AnyRef<H>>,
        ActorError,
    >)
        requires
            old(self).wf(),
        ensures
            final(self).wf(),
            final(self).spec_extension() == old(self).spec_extension(),
            r.is_err() <==> old(self)@.contains_key(id@) && old(self)@[id@].running()
                == State::Active,
            match r {
                Ok(overwritten) => {
                    &&& final(self)@ == old(self)@.insert(id@, actor)
                    &&& overwritten == if old(self)@.contains_key(id@) {
                        Some(old(self)@[id@])
                    } else {
                        None
                    }
                },
                Err(e) => {
                    &&& *final(self) == *old(self)
                    &&& e == (ActorError::AlreadySpawned { id })
                },
            },
    {
        self.registry.register(id, actor)
    }

    /// Takes what the activation hook of the actor registered under `id`
    /// returned: the second step of a spawn.
    ///
    /// A failed activation aborts the registration: the entry under `id`
    /// leaves the registry and the error goes back as it is. After a
    /// successful one the lifecycle starts, waiting for the first message.
    pub fn activate<E>(&mut self, id: ActorId, activation: Result<(), E>) -> (r: Result<
        LifeCycle,
        E,
    >)
        requires
            old(self).wf(),
        ensures
            final(self).wf(),
            final(self).spec_extension() == old(self).spec_extension(),
            match activation {
                Err(e) => {
                    &&& r == Err::<LifeCycle, E>(e)
                    &&& final(self)@ == old(self)@.remove(id@)
                },
                Ok(()) => {
                    &&& r matches Ok(lifecycle) && lifecycle.spec_id() == id
                        && lifecycle.spec_phase() == Phase::Waiting
                    &&& *final(self) == *old(self)
                },
            },
    {
        if activation.is_err() {
            let ghost before = self@;
            let removed = self.registry.untracked(&id);
            proof {
                if removed.is_err() {
                    assert(before.remove(id@) =~= before);
                }
            }
        }
        LifeCycle::spawn(id, activation)
    }

    /// Spawns the actor behind `actor` under `id`, given what its activation
    /// hook returned: both steps in one.
    ///
    /// The registry decides first: while an active actor holds the
    /// identifier the new one is refused, whatever its activation came to,
    /// and nothing changes. Otherwise a failed activation leaves nothing
    /// registered under the identifier and its error goes back as it is;
    /// after a successful one the actor is registered and its lifecycle
    /// starts. An entry that the new actor overwrites, of an actor that has
    /// left `Active`, is handed back beside the lifecycle.
    pub fn spawn<E>(&mut self, id: ActorId, actor: AnyRef<H>, activation: Result<(), E>) -> (r:
        Result<Result<(LifeCycle, Option<AnyRef<H>>), ActorError>, E>)
        requires
            old(self).wf(),
        ensures
            final(self).wf(),
            final(self).spec_extension() == old(self).spec_extension(),
            if old(self)@.contains_key(id@) && old(self)@[id@].running() == State::Active {
                &&& r == Ok::<Result<(LifeCycle, Option<AnyRef<H>>), ActorError>, E>(
                    Err(ActorError::AlreadySpawned { id }),
                )
                &&& *final(self) == *old(self)
            } else {
                match activation {
                    Err(e) => {
                        &&& r == Err::<Result<(LifeCycle, Option<AnyRef<H>>), ActorError>, E>(e)
                        &&& final(self)@ == old(self)@.remove(id@)
                    },
                    Ok(()) => {
                        &&& r matches Ok(Ok((lifecycle, overwritten))) && lifecycle.spec_id()@
                            == id@ && lifecycle.spec_phase() == Phase::Waiting && overwritten
                            == if old(self)@.contains_key(id@) {
                            Some(old(self)@[id@])
                        } else {
                            None
                        }
                        &&& final(self)@ == old(self)@.insert(id@, actor)
                    },
                }
            },
    {
        let name = id.clone();
        let ghost before = self@;
        match self.registry.register(id, actor) {
            Err(e) => Ok(Err(e)),
            Ok(overwritten) => {
                proof {
                    assert(before.insert(name@, actor).remove(name@) =~= before.remove(name@));
                }
                match self.activate(name, activation) {
                    Ok(lifecycle) => Ok(Ok((lifecycle, overwritten))),
                    Err(e) => Err(e),
                }
            },
        }
    }

    /// The actor to ask to stop, registered under `id`.
    pub fn shutdown(&self, id: &ActorId) -> (r: Result<&AnyRef<H>, ActorError>)
        requires
            self.wf(),
        ensures
            r.is_ok() <==> self@.contains_key(id@),
            match r {
                Ok(actor) => *actor == self@[id@],
                Err(e) => e matches ActorError::NotFoundActor { id: missing } && missing@ == id@,
            },
    {
        self.registry.deregister(id)
    }

    /// Every registered actor, each once, to be asked to stop.
    pub fn shutdown_all(&self) -> (r: Vec<&AnyRef<H>>)
        ensures
            r@.len() == self.spec_registry().entries().len(),
            forall|i: int|
                0 <= i < r@.len() ==> *(#[trigger] r@[i]) == self.spec_registry().entries()[i].actor,
    {
        self.registry.shutdown_all()
    }

    /// The handle of the actor registered under `id`, if its type has the
    /// token `kind`.
    pub fn find_as(&self, id: &ActorId, kind: &TypeId) -> (r: Result<&H, ActorError>)
        requires
            self.wf(),
        ensures
            match r {
                Ok(handle) => self@.contains_key(id@) && self@[id@].kind() == *kind && *handle
                    == self@[id@].spec_handle(),
                Err(ActorError::NotFoundActor { id: missing }) => !self@.contains_key(id@)
                    && missing@ == id@,
                Err(ActorError::DownCastFromAny) => self@.contains_key(id@) && self@[id@].kind()
                    != *kind,
                Err(_) => false,
            },
    {
        match self.registry.find(id) {
            Some(actor) => actor.downcast_as(kind),
            None => Err(ActorError::NotFoundActor { id: id.clone() }),
        }
    }

    /// The handle of the actor of type `A` registered under `id`.
    pub fn find<A: 'static>(&self, id: &ActorId) -> (r: Result<&H, ActorError>)
        requires
            self.wf(),
        ensures
            match r {
                Ok(handle) => self@.contains_key(id@) && self@[id@].kind() == type_token::<A>()
                    && *handle == self@[id@].spec_handle(),
                Err(ActorError::NotFoundActor { id: missing }) => !self@.contains_key(id@)
                    && missing@ == id@,
                Err(ActorError::DownCastFromAny) => self@.contains_key(id@) && self@[id@].kind()
                    != type_token::<A>(),
                Err(_) => false,
            },
    {
        match self.registry.find(id) {
            Some(actor) => actor.downcast::<A>(),
            None => Err(ActorError::NotFoundActor { id: id.clone() }),
        }
    }

    /// Looks the actor of type `A` up under `id`, for a caller that spawns it
    /// where it is not registered. The actor is to be built only on
    /// `Vacant`.
    pub fn find_or<A: 'static>(&self, id: &ActorId) -> (r: Result<Found<'_, H>, ActorError>)
        requires
            self.wf(),
        ensures
            match r {
                Ok(Found::Registered(handle)) => self@.contains_key(id@) && self@[id@].kind()
                    == type_token::<A>() && *handle == self@[id@].spec_handle(),
                Ok(Found::Vacant) => !self@.contains_key(id@),
                Err(e) => self@.contains_key(id@) && self@[id@].kind() != type_token::<A>()
                    && e is DownCastFromAny,
            },
    {
        match self.registry.find(id) {
            Some(actor) => match actor.downcast::<A>() {
                Ok(handle) => Ok(Found::Registered(handle)),
                Err(e) => Err(e),
            },
            None => Ok(Found::Vacant),
        }
    }

    /// Stops the actor of `ctx`: the context's running state moves to
    /// `Shutdown`, and with it the registry's record of the actor, where the
    /// registry holds one; the answer says whether it does. Nothing is
    /// removed: the entry leaves when the actor's lifecycle takes it out.
    pub fn retire<C: ActorContext>(&mut self, ctx: &mut C) -> (r: Result<(), ActorError>)
        requires
            old(self).wf(),
        ensures
            final(self).wf(),
            final(self).spec_extension() == old(self).spec_extension(),
            final(ctx).running() == State::Shutdown,
            final(ctx).actor() == old(ctx).actor(),
            stopped_in(old(self)@, final(self)@, old(ctx).actor()@),
            r.is_ok() <==> old(self)@.contains_key(old(ctx).actor()@),
            r matches Err(e) ==> e matches ActorError::NotFoundActor { id: missing } && missing@
                == old(ctx).actor()@,
    {
        let held = self.registry.find(ctx.id()).is_some();
        ctx.shutdown(self);
        if held {
            Ok(())
        } else {
            Err(ActorError::NotFoundActor { id: ctx.id().clone() })
        }
    }

    /// Notes in the registry that the actor registered under `id` has left
    /// `Active`.
    pub(crate) fn mark(&mut self, id: &ActorId)
        requires
            old(self).wf(),
        ensures
            final(self).wf(),
            final(self).spec_extension() == old(self).spec_extension(),
            stopped_in(old(self)@, final(self)@, id@),
    {
        let r = self.registry.switch(id);
        proof {
            if r.is_ok() {
                old(self)@[id@].lemma_stopped();
            }
        }
    }

    /// Takes the actor registered under `id` out of the registry: the last
    /// step of its lifecycle.
    pub fn untracked(&mut self, id: &ActorId) -> (r: Result<(), ActorError>)
        requires
            old(self).wf(),
        ensures
            final(self).wf(),
            final(self).spec_extension() == old(self).spec_extension(),
            r.is_ok() <==> old(self)@.contains_key(id@),
            match r {
                Ok(()) => final(self)@ == old(self)@.remove(id@),
                Err(e) => {
                    &&& *final(self) == *old(self)
                    &&& e matches ActorError::NotFoundActor { id: missing } && missing@ == id@
                },
            },
    {
        self.registry.untracked(id)
    }
}

} // verus!
