//! Spawning a persistent actor: what recovery leaves to run.

use vstd::prelude::*;
use crate::errors::ActorError;
use crate::persistence::errors::RecoveryError;
use crate::persistence::identifier::PersistenceId;

verus! {

/// A failed recovery, as it reaches whoever asked for the actor: an outside
/// error with the recovery error's text.
pub fn external(e: &RecoveryError) -> (r: ActorError)
    ensures
        r matches ActorError::External(text) && text@ == e.message(),
{
    ActorError::External(e.to_string())
}

/// The actor that a recovery leaves to run.
///
/// `recovery` is what building and replaying the fixture came to,
/// `recoverable` what the replay left of the seed or built from storage. A
/// failed recovery goes back as an outside error. A recovery that left
/// nothing, from no seed, is a failed activation of the stream `id`.
pub fn spawn_with_recovery<A>(
    id: &PersistenceId,
    recovery: Result<(), RecoveryError>,
    recoverable: Option<A>,
) -> (r: Result<A, ActorError>)
    ensures
        match (recovery, recoverable) {
            (Err(e), _) => r matches Err(ActorError::External(text)) && text@ == e.message(),
            (Ok(()), Some(actor)) => r == Ok::<A, ActorError>(actor),
            (Ok(()), None) => r matches Err(ActorError::FailedActivation { reason, id: stream })
                && reason@ == "recover"@ && stream@ == id@,
        },
{
    match recovery {
        Err(e) => Err(external(&e)),
        Ok(()) => match recoverable {
            Some(actor) => Ok(actor),
            None => Err(ActorError::FailedActivation { reason: "recover", id: id.to_string() }),
        },
    }
}

} // verus!
