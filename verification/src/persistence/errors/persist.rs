//! The error of a write to storage.

use vstd::prelude::*;
use vstd::std_specs::convert::FromSpecImpl;
use vstd::string::StringExecFns;
use crate::persistence::identifier::PersistenceId;
use crate::system::ExtensionMissingError;

verus! {

#[derive(Debug)]
pub enum PersistError {
    /// Storage holds nothing under this identifier.
    NotFound { id: PersistenceId },
    /// The system was built without the provider that was asked for.
    MissingExtension(ExtensionMissingError),
    /// The bounds of a selection do not span a range.
    Selection,
    /// A payload could not be turned into bytes, or back; by the message.
    Serialization(String),
}

impl PersistError {
    /// The text of this error.
    pub open spec fn message(&self) -> Seq<char> {
        match *self {
            PersistError::NotFound { id } => id@,
            PersistError::MissingExtension(e) => e.message(),
            PersistError::Selection => Seq::empty(),
            PersistError::Serialization(text) => text@,
        }
    }

    pub fn to_string(&self) -> (r: String)
        ensures
            r@ == self.message(),
    {
        match self {
            PersistError::NotFound { id } => id.to_string(),
            PersistError::MissingExtension(e) => e.to_string(),
            PersistError::Selection => String::new(),
            PersistError::Serialization(text) => text.clone(),
        }
    }
}

impl From<ExtensionMissingError> for PersistError {
    fn from(value: ExtensionMissingError) -> (r: PersistError) {
        PersistError::MissingExtension(value)
    }
}

impl FromSpecImpl<ExtensionMissingError> for PersistError {
    open spec fn obeys_from_spec() -> bool {
        true
    }

    open spec fn from_spec(value: ExtensionMissingError) -> PersistError {
        PersistError::MissingExtension(value)
    }
}

} // verus!
