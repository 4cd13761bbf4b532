//! Resolvers: from the bytes of a stored payload back to the payload.

use vstd::prelude::*;
use std::marker::PhantomData;
use crate::persistence::errors::{DeserializeError, RecoveryError, SerializeError};
use crate::persistence::journal::Event;
use crate::persistence::snapshot::SnapShot;

verus! {

/// The resolver of the snapshot type `S`.
pub struct SnapShotResolver<S: SnapShot> {
    _snapshot: PhantomData<S>,
}

/// The resolver of the event type `E`.
pub struct EventResolver<E: Event> {
    _event: PhantomData<E>,
}

impl<S: SnapShot> Default for SnapShotResolver<S> {
    fn default() -> (r: Self) {
        SnapShotResolver { _snapshot: PhantomData }
    }
}

impl<E: Event> Default for EventResolver<E> {
    fn default() -> (r: Self) {
        EventResolver { _event: PhantomData }
    }
}

impl<S: SnapShot> SnapShotResolver<S> {
    /// Loads the snapshot that `payload` holds: what `S::from_bytes` makes of
    /// these very bytes. It is handed to the actor's `recover_snapshot` next.
    pub fn apply(&self, payload: &[u8]) -> (r: Result<S, RecoveryError>)
        ensures
            match r {
                Ok(snapshot) => call_ensures(
                    S::from_bytes,
                    (payload,),
                    Ok::<S, DeserializeError>(snapshot),
                ),
                Err(e) => exists|cause: DeserializeError|
                    #[trigger] call_ensures(S::from_bytes, (payload,), Err::<S, DeserializeError>(cause))
                        && e == RecoveryError::Deserialization(cause.0),
            },
    {
        match S::from_bytes(payload) {
            Ok(snapshot) => Ok(snapshot),
            Err(e) => Err(RecoveryError::from(e)),
        }
    }
}

impl<E: Event> EventResolver<E> {
    /// Loads the event that `payload` holds: what `E::from_bytes` makes of
    /// these very bytes. It is handed to the actor's `recover_journal` next.
    pub fn apply(&self, payload: &[u8]) -> (r: Result<E, RecoveryError>)
        ensures
            match r {
                Ok(event) => call_ensures(E::from_bytes, (payload,), Ok::<E, DeserializeError>(event)),
                Err(e) => exists|cause: DeserializeError|
                    #[trigger] call_ensures(E::from_bytes, (payload,), Err::<E, DeserializeError>(cause))
                        && e == RecoveryError::Deserialization(cause.0),
            },
    {
        match E::from_bytes(payload) {
            Ok(event) => Ok(event),
            Err(e) => Err(RecoveryError::from(e)),
        }
    }
}

/// Whether the event type `E` is faithful: whatever bytes an event gives for
/// itself, the event is what these bytes load as.
pub open spec fn faithful_event<E: Event>() -> bool {
    forall|event: E, stored: Vec<u8>, bytes: &[u8], loaded: Result<E, DeserializeError>|
        #![trigger
            call_ensures(E::as_bytes, (&event,), Ok::<Vec<u8>, SerializeError>(stored)),
            call_ensures(E::from_bytes, (bytes,), loaded),
        ]
        call_ensures(E::as_bytes, (&event,), Ok::<Vec<u8>, SerializeError>(stored)) && bytes@
            == stored@ && call_ensures(E::from_bytes, (bytes,), loaded) ==> loaded == Ok::<
            E,
            DeserializeError,
        >(event)
}

/// Whether the snapshot type `S` is faithful: whatever bytes a snapshot gives
/// for itself, the snapshot is what these bytes load as.
pub open spec fn faithful_snapshot<S: SnapShot>() -> bool {
    forall|snapshot: S, stored: Vec<u8>, bytes: &[u8], loaded: Result<S, DeserializeError>|
        #![trigger
            call_ensures(S::as_bytes, (&snapshot,), Ok::<Vec<u8>, SerializeError>(stored)),
            call_ensures(S::from_bytes, (bytes,), loaded),
        ]
        call_ensures(S::as_bytes, (&snapshot,), Ok::<Vec<u8>, SerializeError>(stored)) && bytes@
            == stored@ && call_ensures(S::from_bytes, (bytes,), loaded) ==> loaded == Ok::<
            S,
            DeserializeError,
        >(snapshot)
}

/// What was stored is what is loaded: the resolver of a faithful event type,
/// given the bytes that an event gave for itself, loads that event.
pub proof fn lemma_stored_event_is_loaded<E: Event>(
    event: E,
    stored: Vec<u8>,
    payload: &[u8],
    loaded: Result<E, RecoveryError>,
)
    requires
        faithful_event::<E>(),
        call_ensures(E::as_bytes, (&event,), Ok::<Vec<u8>, SerializeError>(stored)),
        payload@ == stored@,
        match loaded {
            Ok(event) => call_ensures(E::from_bytes, (payload,), Ok::<E, DeserializeError>(event)),
            Err(e) => exists|cause: DeserializeError|
                #[trigger] call_ensures(
                    E::from_bytes,
                    (payload,),
                    Err::<E, DeserializeError>(cause),
                ) && e == RecoveryError::Deserialization(cause.0),
        },
    ensures
        loaded == Ok::<E, RecoveryError>(event),
{
}

/// What was stored is what is loaded: the resolver of a faithful snapshot
/// type, given the bytes that a snapshot gave for itself, loads that
/// snapshot.
pub proof fn lemma_stored_snapshot_is_loaded<S: SnapShot>(
    snapshot: S,
    stored: Vec<u8>,
    payload: &[u8],
    loaded: Result<S, RecoveryError>,
)
    requires
        faithful_snapshot::<S>(),
        call_ensures(S::as_bytes, (&snapshot,), Ok::<Vec<u8>, SerializeError>(stored)),
        payload@ == stored@,
        match loaded {
            Ok(snapshot) => call_ensures(
                S::from_bytes,
                (payload,),
                Ok::<S, DeserializeError>(snapshot),
            ),
            Err(e) => exists|cause: DeserializeError|
                #[trigger] call_ensures(
                    S::from_bytes,
                    (payload,),
                    Err::<S, DeserializeError>(cause),
                ) && e == RecoveryError::Deserialization(cause.0),
        },
    ensures
        loaded == Ok::<S, RecoveryError>(snapshot),
{
}

} // verus!
