//! Journal entries, and the journal as a set ordered by sequence.

use vstd::prelude::*;
use std::cmp::Ordering;
use crate::persistence::errors::{PersistError, SerializeError};
use crate::persistence::identifier::SequenceId;
use crate::persistence::journal::Event;

verus! {

/// One stored event: where it stands in its stream, the registry key of its
/// type and its bytes.
#[derive(Debug, Eq, PartialEq)]
pub struct JournalPayload {
    pub seq: SequenceId,
    pub key: &'static str,
    pub bytes: Vec<u8>,
}

impl JournalPayload {
    pub fn key(&self) -> (r: &'static str)
        ensures
            r == self.key,
    {
        self.key
    }

    /// The entry that stores `event` at the position `seq`: it holds the very
    /// bytes that the event gave for itself. An event that gives none is
    /// refused with its own error.
    pub fn of<E: Event>(seq: SequenceId, event: &E) -> (r: Result<JournalPayload, PersistError>)
        ensures
            match r {
                Ok(payload) => payload.seq == seq && payload.key == E::REGISTRY_KEY && call_ensures(
                    E::as_bytes,
                    (event,),
                    Ok::<Vec<u8>, SerializeError>(payload.bytes),
                ),
                Err(e) => exists|cause: SerializeError|
                    #[trigger] call_ensures(
                        E::as_bytes,
                        (event,),
                        Err::<Vec<u8>, SerializeError>(cause),
                    ) && e == PersistError::Serialization(cause.0),
            },
    {
        match event.as_bytes() {
            Ok(bytes) => Ok(JournalPayload { seq, key: E::REGISTRY_KEY, bytes }),
            Err(e) => Err(PersistError::from(e)),
        }
    }

    /// Whether two entries hold the same position, key and bytes.
    pub open spec fn same(&self, other: &JournalPayload) -> bool {
        &&& self.seq == other.seq
        &&& self.key@ == other.key@
        &&& self.bytes@ == other.bytes@
    }
}

impl Clone for JournalPayload {
    fn clone(&self) -> (r: JournalPayload)
        ensures
            r.same(self),
            r.key == self.key,
    {
        JournalPayload { seq: self.seq, key: self.key, bytes: self.bytes.clone() }
    }
}

impl PartialOrd for JournalPayload {
    /// Entries are ordered by their sequence alone.
    fn partial_cmp(&self, other: &JournalPayload) -> (r: Option<Ordering>) {
        let own = self.seq.value();
        let others = other.seq.value();
        if own < others {
            Some(Ordering::Less)
        } else if own == others {
            Some(Ordering::Equal)
        } else {
            Some(Ordering::Greater)
        }
    }
}

impl vstd::std_specs::cmp::PartialOrdSpecImpl for JournalPayload {
    open spec fn obeys_partial_cmp_spec() -> bool {
        true
    }

    open spec fn partial_cmp_spec(&self, other: &JournalPayload) -> Option<Ordering> {
        if self.seq@ < other.seq@ {
            Some(Ordering::Less)
        } else if self.seq@ == other.seq@ {
            Some(Ordering::Equal)
        } else {
            Some(Ordering::Greater)
        }
    }
}

/// Whether the entries stand in strictly ascending order of sequence.
pub open spec fn ascending(entries: Seq<JournalPayload>) -> bool {
    forall|i: int, j: int| 0 <= i < j < entries.len() ==> entries[i].seq@ < entries[j].seq@
}

/// Whether one of the entries stands at the position `seq`.
pub open spec fn holds(entries: Seq<JournalPayload>, seq: int) -> bool {
    exists|i: int| 0 <= i < entries.len() && entries[i].seq@ == seq
}

/// The entries of one stream, in ascending order of sequence, at most one
/// for each position.
#[derive(Debug)]
pub struct Journal {
    entries: Vec<JournalPayload>,
}

impl View for Journal {
    type V = Seq<JournalPayload>;

    closed spec fn view(&self) -> Seq<JournalPayload> {
        self.entries@
    }
}

impl Journal {
    /// What holds of every journal that was built through this interface:
    /// its entries ascend.
    pub open spec fn wf(&self) -> bool {
        ascending(self@)
    }

    /// The journal without entries.
    pub fn new() -> (r: Journal)
        ensures
            r@.len() == 0,
            r.wf(),
    {
        Journal { entries: Vec::new() }
    }

    pub fn len(&self) -> (r: usize)
        ensures
            r == self@.len(),
    {
        self.entries.len()
    }

    pub fn is_empty(&self) -> (r: bool)
        ensures
            r == (self@.len() == 0),
    {
        self.entries.len() == 0
    }

    /// The entry at place `index`, counted from the lowest sequence.
    pub fn get(&self, index: usize) -> (r: Option<&JournalPayload>)
        ensures
            index < self@.len() ==> r == Some(&self@[index as int]),
            index >= self@.len() ==> r.is_none(),
    {
        if index < self.entries.len() {
            Some(&self.entries[index])
        } else {
            None
        }
    }

    /// Adds `payload` where its sequence belongs. A journal that already
    /// holds an entry at that sequence keeps it and stays as it is.
    pub fn insert(&mut self, payload: JournalPayload) -> (inserted: bool)
        requires
            old(self).wf(),
        ensures
            final(self).wf(),
            inserted == !holds(old(self)@, payload.seq@),
            !inserted ==> final(self)@ == old(self)@,
            inserted ==> exists|at: int|
                0 <= at <= old(self)@.len() && final(self)@ == #[trigger] old(self)@.insert(
                    at,
                    payload,
                ),
    {
        let ghost before = self.entries@;
        let mut at: usize = 0;
        while at < self.entries.len() && self.entries[at].seq.value() < payload.seq.value()
            invariant
                self.entries@ == before,
                ascending(before),
                0 <= at <= before.len(),
                forall|k: int| 0 <= k < at ==> before[k].seq@ < payload.seq@,
            decreases before.len() - at,
        {
            at = at + 1;
        }
        if at < self.entries.len() && self.entries[at].seq.value() == payload.seq.value() {
            assert(holds(before, payload.seq@));
            return false;
        }
        proof {
            assert(!holds(before, payload.seq@)) by {
                if holds(before, payload.seq@) {
                    let i = choose|i: int| 0 <= i < before.len() && before[i].seq@ == payload.seq@;
                    if i < at {
                    } else if i > at {
                        assert(before[at as int].seq@ < before[i].seq@);
                    }
                }
            }
            let after = before.insert(at as int, payload);
            assert(ascending(after)) by {
                assert forall|i: int, j: int| 0 <= i < j < after.len() implies after[i].seq@
                    < after[j].seq@ by {
                    if j < at {
                    } else if j == at {
                    } else if i < at {
                        assert(after[j] == before[j - 1]);
                        if j - 1 > at {
                            assert(before[at as int].seq@ < before[j - 1].seq@);
                        }
                    } else if i == at {
                        assert(after[j] == before[j - 1]);
                        if j - 1 > at {
                            assert(before[at as int].seq@ < before[j - 1].seq@);
                        }
                    } else {
                        assert(after[i] == before[i - 1]);
                        assert(after[j] == before[j - 1]);
                    }
                }
            }
        }
        self.entries.insert(at, payload);
        true
    }

    /// The entries, lowest sequence first.
    pub fn into_vec(self) -> (r: Vec<JournalPayload>)
        ensures
            r@ == self@,
    {
        self.entries
    }
}

} // verus!
