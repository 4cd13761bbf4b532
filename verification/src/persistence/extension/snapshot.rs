//! Snapshots as stored.

use vstd::prelude::*;
use crate::persistence::errors::{PersistError, SerializeError};
use crate::persistence::identifier::{PersistenceId, SequenceId};
use crate::persistence::snapshot::SnapShot;

verus! {

/// One stored snapshot: the stream it belongs to, the registry key of its
/// type, the sequence it was taken at and its bytes.
#[derive(Debug)]
pub struct SnapShotPayload {
    pub id: PersistenceId,
    pub key: &'static str,
    pub seq: SequenceId,
    pub bytes: Vec<u8>,
}

impl SnapShotPayload {
    /// The payload that stores `snapshot`, taken of the stream `id` at the
    /// position `seq`: it holds the very bytes that the snapshot gave for
    /// itself. A snapshot that gives none is refused with its own error.
    pub fn of<S: SnapShot>(id: &PersistenceId, seq: SequenceId, snapshot: &S) -> (r: Result<
        SnapShotPayload,
        PersistError,
    >)
        ensures
            match r {
                Ok(payload) => payload.id@ == id@ && payload.seq == seq && payload.key
                    == S::REGISTRY_KEY && call_ensures(
                    S::as_bytes,
                    (snapshot,),
                    Ok::<Vec<u8>, SerializeError>(payload.bytes),
                ),
                Err(e) => exists|cause: SerializeError|
                    #[trigger] call_ensures(
                        S::as_bytes,
                        (snapshot,),
                        Err::<Vec<u8>, SerializeError>(cause),
                    ) && e == PersistError::Serialization(cause.0),
            },
    {
        match snapshot.as_bytes() {
            Ok(bytes) => Ok(SnapShotPayload { id: id.clone(), key: S::REGISTRY_KEY, seq, bytes }),
            Err(e) => Err(PersistError::from(e)),
        }
    }

    pub fn id(&self) -> (r: &PersistenceId)
        ensures
            *r == self.id,
    {
        &self.id
    }

    pub fn key(&self) -> (r: &'static str)
        ensures
            r == self.key,
    {
        self.key
    }

    pub fn bytes(&self) -> (r: &[u8])
        ensures
            r@ == self.bytes@,
    {
        self.bytes.as_slice()
    }
}

impl Clone for SnapShotPayload {
    fn clone(&self) -> (r: SnapShotPayload)
        ensures
            r.id@ == self.id@,
            r.key == self.key,
            r.seq == self.seq,
            r.bytes@ == self.bytes@,
    {
        SnapShotPayload {
            id: self.id.clone(),
            key: self.key,
            seq: self.seq,
            bytes: self.bytes.clone(),
        }
    }
}

} // verus!
