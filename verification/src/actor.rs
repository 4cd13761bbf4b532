//! Actors: running state, context and references.

pub mod context;
pub mod extension;
pub mod handler;
pub mod message;
pub mod refs;
pub mod state;

pub use self::context::{ActorContext, Context};
pub use self::extension::Extension;
pub use self::handler::Terminate;
pub use self::message::Message;
pub use self::state::{RunningState, State};

use vstd::prelude::*;
use crate::identifier::IntoActorId;

verus! {

/// Values that may turn into an actor of type `A`, under an identifier they
/// settle on, or reject the attempt.
pub trait TryIntoActor<A>: 'static + Sync + Send + Sized {
    type Identifier: IntoActorId;

    type Rejection;

    fn try_into_actor(self, id: Self::Identifier) -> Result<(Self::Identifier, A), Self::Rejection>;
}

/// Values that stand in for another value.
pub trait Adaptor: 'static + Sync + Send {
    type Adaptor;

    fn adaptor(self) -> Self::Adaptor;
}

} // verus!
