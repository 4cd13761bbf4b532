//! Events: what a persistent actor appends to its stream.

use vstd::prelude::*;
use crate::persistence::errors::{DeserializeError, SerializeError};

verus! {

/// A type of event that can be stored and loaded.
///
/// The bytes of an event are its own affair: the runtime stores what
/// `as_bytes` gives and hands the same bytes to `from_bytes`, which is to
/// give the event back.
pub trait Event: 'static + Sync + Send + Sized {
    /// The key under which storage tells this type from others.
    const REGISTRY_KEY: &'static str;

    fn as_bytes(&self) -> Result<Vec<u8>, SerializeError>;

    fn from_bytes(bytes: &[u8]) -> Result<Self, DeserializeError>;
}

} // verus!
