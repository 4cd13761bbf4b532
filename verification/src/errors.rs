//! What can go wrong around an actor.

use vstd::prelude::*;
use vstd::string::StringExecFns;
use crate::identifier::ActorId;
use crate::system::ExtensionMissingError;

verus! {

#[derive(Debug)]
#[allow(inconsistent_fields)]
pub enum ActorError {
    /// An actor with this identifier is registered and active.
    AlreadySpawned { id: ActorId },
    /// No actor is registered under this identifier.
    NotFoundActor { id: ActorId },
    /// The mailbox, or the slot for the reply, was closed.
    CallBackSend,
    /// The registered actor is of another type than the one asked for.
    DownCastFromAny,
    /// The system was built without an extension that was asked for.
    MissingExtension(ExtensionMissingError),
    /// Activation or recovery ended without an actor to run.
    FailedActivation { reason: &'static str, id: String },
    /// An error of the actor's author or of a provider, by its message.
    External(String),
}

impl ActorError {
    /// The text of this error.
    pub open spec fn message(&self) -> Seq<char> {
        match *self {
            ActorError::AlreadySpawned { id } => "Actor with this identifier: "@ + id@
                + " has already been activated."@,
            ActorError::NotFoundActor { id } => "The target actor could not be found. actor: `"@
                + id@ + "` It may have already been shut down or may not have started."@,
            ActorError::CallBackSend => "Could not execute callback, channel may be closed."@,
            ActorError::DownCastFromAny =>
                "May have passed different type information than what was expected when downcasting from `Any` to type."@,
            ActorError::MissingExtension(missing) => missing.message(),
            ActorError::FailedActivation { reason, id } => "Activation failed at `"@ + reason@
                + "`. actor: `"@ + id@ + "`"@,
            ActorError::External(text) => text@,
        }
    }

    pub fn to_string(&self) -> (r: String)
        ensures
            r@ == self.message(),
    {
        match self {
            ActorError::AlreadySpawned { id } => {
                let mut text = String::from_str("Actor with this identifier: ");
                text.append(id.as_str());
                text.append(" has already been activated.");
                text
            },
            ActorError::NotFoundActor { id } => {
                let mut text = String::from_str("The target actor could not be found. actor: `");
                text.append(id.as_str());
                text.append("` It may have already been shut down or may not have started.");
                text
            },
            ActorError::CallBackSend => String::from_str(
                "Could not execute callback, channel may be closed.",
            ),
            ActorError::DownCastFromAny => String::from_str(
                "May have passed different type information than what was expected when downcasting from `Any` to type.",
            ),
            ActorError::MissingExtension(missing) => missing.to_string(),
            ActorError::FailedActivation { reason, id } => {
                let mut text = String::from_str("Activation failed at `");
                text.append(reason);
                text.append("`. actor: `");
                text.append(id.as_str());
                text.append("`");
                text
            },
            ActorError::External(text) => text.clone(),
        }
    }
}

} // verus!
