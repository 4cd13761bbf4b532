//! What becomes of a request, on the side that asked and on the side that
//! answers.
//!
//! A request travels to the actor's mailbox with a slot for the reply. The
//! mailbox may be closed, and the slot may close before a reply is in it:
//! both are transport errors to whoever asked, and neither stops the actor.

use vstd::prelude::*;
use crate::errors::ActorError;

verus! {

/// What became of a request that was handed to a mailbox.
#[derive(Debug)]
pub enum Delivery<T> {
    /// The mailbox was closed: the request was not taken.
    Refused,
    /// The request was taken, and the slot for its reply closed empty.
    Dropped,
    /// The reply.
    Replied(T),
}

/// What whoever asked gets back: the handler's own result, or the transport
/// error.
pub fn ask<A, R>(delivery: Delivery<Result<A, R>>) -> (r: Result<Result<A, R>, ActorError>)
    ensures
        match delivery {
            Delivery::Replied(reply) => r == Ok::<Result<A, R>, ActorError>(reply),
            _ => r matches Err(ActorError::CallBackSend),
        },
{
    match delivery {
        Delivery::Replied(reply) => Ok(reply),
        _ => Err(ActorError::CallBackSend),
    }
}

/// What whoever told gets back: whether the handler accepted, or the
/// transport error.
pub fn tell<R>(delivery: Delivery<Result<(), R>>) -> (r: Result<Result<(), R>, ActorError>)
    ensures
        match delivery {
            Delivery::Replied(reply) => r == Ok::<Result<(), R>, ActorError>(reply),
            _ => r matches Err(ActorError::CallBackSend),
        },
{
    match delivery {
        Delivery::Replied(reply) => Ok(reply),
        _ => Err(ActorError::CallBackSend),
    }
}

/// Folds the transport error into the handler's own rejections.
pub fn flatten<A, E, R: From<E>>(reply: Result<Result<A, R>, E>) -> (r: Result<A, R>)
    ensures
        match reply {
            Ok(Ok(accepted)) => r == Ok::<A, R>(accepted),
            Ok(Err(rejection)) => r == Err::<A, R>(rejection),
            Err(e) => r matches Err(rejection) && call_ensures(R::from, (e,), rejection),
        },
{
    match reply {
        Ok(inner) => inner,
        Err(e) => Err(R::from(e)),
    }
}

/// The reply to a request that was told: what the handler accepted is
/// dropped, what it rejected goes back.
pub fn acknowledge<A, R>(handled: Result<A, R>) -> (r: Result<(), R>)
    ensures
        match handled {
            Ok(_) => r == Ok::<(), R>(()),
            Err(rejection) => r == Err::<(), R>(rejection),
        },
{
    match handled {
        Ok(_) => Ok(()),
        Err(rejection) => Err(rejection),
    }
}

/// What applying a message comes to, on the actor's side, once the reply was
/// put into its slot: an error where the slot was closed, which the
/// lifecycle notes and survives.
pub fn applied(sent: bool) -> (r: Result<(), ActorError>)
    ensures
        sent ==> r is Ok,
        !sent ==> r matches Err(ActorError::CallBackSend),
{
    if sent {
        Ok(())
    } else {
        Err(ActorError::CallBackSend)
    }
}

} // verus!
