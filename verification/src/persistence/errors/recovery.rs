//! The error of a recovery.

use vstd::prelude::*;
use vstd::std_specs::convert::FromSpecImpl;
use vstd::string::StringExecFns;
use crate::persistence::errors::persist::PersistError;
use crate::persistence::selector::SelectionError;
use crate::system::ExtensionMissingError;

verus! {

#[derive(Debug)]
pub enum RecoveryError {
    /// The system was built without the provider that was asked for.
    MissingExtension(ExtensionMissingError),
    /// Stored bytes could not be turned back into a payload; by the message.
    Deserialization(String),
    /// The provider failed.
    Persist(PersistError),
    /// The range of the journal to replay could not be selected.
    Select(SelectionError),
    /// Storage holds a payload under a registry key that the actor type has
    /// registered no resolver for.
    NotCompatible(&'static str),
}

impl RecoveryError {
    /// The text of this error.
    pub open spec fn message(&self) -> Seq<char> {
        match *self {
            RecoveryError::MissingExtension(e) => e.message(),
            RecoveryError::Deserialization(text) => text@,
            RecoveryError::Persist(_) => "A problem occurred at persist protocol."@,
            RecoveryError::Select(e) => e.message(),
            RecoveryError::NotCompatible(_) => "data is not compatible with mapping."@,
        }
    }

    pub fn to_string(&self) -> (r: String)
        ensures
            r@ == self.message(),
    {
        match self {
            RecoveryError::MissingExtension(e) => e.to_string(),
            RecoveryError::Deserialization(text) => text.clone(),
            RecoveryError::Persist(_) => String::from_str("A problem occurred at persist protocol."),
            RecoveryError::Select(e) => e.to_string(),
            RecoveryError::NotCompatible(_) => String::from_str(
                "data is not compatible with mapping.",
            ),
        }
    }
}

impl From<ExtensionMissingError> for RecoveryError {
    fn from(value: ExtensionMissingError) -> (r: RecoveryError) {
        RecoveryError::MissingExtension(value)
    }
}

impl FromSpecImpl<ExtensionMissingError> for RecoveryError {
    open spec fn obeys_from_spec() -> bool {
        true
    }

    open spec fn from_spec(value: ExtensionMissingError) -> RecoveryError {
        RecoveryError::MissingExtension(value)
    }
}

impl From<PersistError> for RecoveryError {
    fn from(value: PersistError) -> (r: RecoveryError) {
        RecoveryError::Persist(value)
    }
}

impl FromSpecImpl<PersistError> for RecoveryError {
    open spec fn obeys_from_spec() -> bool {
        true
    }

    open spec fn from_spec(value: PersistError) -> RecoveryError {
        RecoveryError::Persist(value)
    }
}

impl From<SelectionError> for RecoveryError {
    fn from(value: SelectionError) -> (r: RecoveryError) {
        RecoveryError::Select(value)
    }
}

impl FromSpecImpl<SelectionError> for RecoveryError {
    open spec fn obeys_from_spec() -> bool {
        true
    }

    open spec fn from_spec(value: SelectionError) -> RecoveryError {
        RecoveryError::Select(value)
    }
}

} // verus!
