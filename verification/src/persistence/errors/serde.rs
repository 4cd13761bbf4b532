//! The errors of turning a payload into bytes and back.

use vstd::prelude::*;
use vstd::std_specs::convert::FromSpecImpl;
use crate::persistence::errors::persist::PersistError;
use crate::persistence::errors::recovery::RecoveryError;

verus! {

/// A payload could not be turned into bytes.
#[derive(Debug)]
pub struct SerializeError(pub String);

/// Bytes could not be turned back into a payload.
#[derive(Debug)]
pub struct DeserializeError(pub String);

impl From<SerializeError> for PersistError {
    fn from(value: SerializeError) -> (r: PersistError) {
        PersistError::Serialization(value.0)
    }
}

impl FromSpecImpl<SerializeError> for PersistError {
    open spec fn obeys_from_spec() -> bool {
        true
    }

    open spec fn from_spec(value: SerializeError) -> PersistError {
        PersistError::Serialization(value.0)
    }
}

impl From<DeserializeError> for PersistError {
    fn from(value: DeserializeError) -> (r: PersistError) {
        PersistError::Serialization(value.0)
    }
}

impl FromSpecImpl<DeserializeError> for PersistError {
    open spec fn obeys_from_spec() -> bool {
        true
    }

    open spec fn from_spec(value: DeserializeError) -> PersistError {
        PersistError::Serialization(value.0)
    }
}

impl From<DeserializeError> for RecoveryError {
    fn from(value: DeserializeError) -> (r: RecoveryError) {
        RecoveryError::Deserialization(value.0)
    }
}

impl FromSpecImpl<DeserializeError> for RecoveryError {
    open spec fn obeys_from_spec() -> bool {
        true
    }

    open spec fn from_spec(value: DeserializeError) -> RecoveryError {
        RecoveryError::Deserialization(value.0)
    }
}

} // verus!
