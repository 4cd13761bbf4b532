//! The coordinates of a stream in journal and snapshot storage.

use vstd::prelude::*;
use vstd::std_specs::cmp::{PartialEqSpecImpl, PartialOrdSpecImpl};
use std::cmp::Ordering;
use vstd::std_specs::convert::{FromSpec, FromSpecImpl};
use vstd::string::to_string_from_display_ensures;
use crate::identifier::ActorId;

verus! {

/// The name of one stream of events and snapshots.
#[derive(Debug, Eq, Hash)]
pub struct PersistenceId(String);

impl View for PersistenceId {
    type V = Seq<char>;

    closed spec fn view(&self) -> Seq<char> {
        self.0@
    }
}

impl PersistenceId {
    /// The identifier's text as the string that holds it.
    pub closed spec fn text(&self) -> String {
        self.0
    }

    pub fn new(id: String) -> (r: PersistenceId)
        ensures
            r@ == id@,
            r.text() == id,
    {
        PersistenceId(id)
    }

    /// The text of the identifier.
    pub fn as_str(&self) -> (r: &str)
        ensures
            r@ == self@,
    {
        self.0.as_str()
    }

    /// The text of the identifier, owned.
    pub fn to_string(&self) -> (r: String)
        ensures
            r@ == self@,
    {
        self.0.clone()
    }
}

impl Clone for PersistenceId {
    fn clone(&self) -> (r: PersistenceId)
        ensures
            r@ == self@,
    {
        PersistenceId(self.0.clone())
    }
}

impl PartialEq for PersistenceId {
    fn eq(&self, other: &PersistenceId) -> (r: bool) {
        self.0 == other.0
    }
}

impl PartialEqSpecImpl for PersistenceId {
    open spec fn obeys_eq_spec() -> bool {
        true
    }

    open spec fn eq_spec(&self, other: &PersistenceId) -> bool {
        self@ == other@
    }
}

/// Values that turn into a persistence identifier, giving themselves up.
pub trait IntoPersistenceId: 'static + Sync + Send {
    fn into_persistence_id(self) -> PersistenceId;
}

/// Values that name a persistence identifier and stay usable afterwards.
pub trait ToPersistenceId: 'static + Sync + Send {
    fn to_persistence_id(&self) -> PersistenceId;
}

impl<T: std::fmt::Display + Sync + Send + 'static> IntoPersistenceId for T {
    fn into_persistence_id(self) -> (r: PersistenceId)
        ensures
            to_string_from_display_ensures::<T>(&self, r.text()),
    {
        PersistenceId::new(self.to_string())
    }
}

impl<T: std::fmt::Display + Sync + Send + 'static> ToPersistenceId for T {
    fn to_persistence_id(&self) -> (r: PersistenceId)
        ensures
            to_string_from_display_ensures::<T>(self, r.text()),
    {
        PersistenceId::new(self.to_string())
    }
}

impl ToPersistenceId for ActorId {
    fn to_persistence_id(&self) -> (r: PersistenceId)
        ensures
            r@ == self@,
    {
        PersistenceId::new(self.to_string())
    }
}

impl From<ActorId> for PersistenceId {
    fn from(value: ActorId) -> (r: PersistenceId) {
        PersistenceId(value.into_string())
    }
}

impl FromSpecImpl<ActorId> for PersistenceId {
    open spec fn obeys_from_spec() -> bool {
        true
    }

    closed spec fn from_spec(value: ActorId) -> PersistenceId {
        PersistenceId(value.text())
    }
}

impl From<PersistenceId> for ActorId {
    fn from(value: PersistenceId) -> (r: ActorId) {
        ActorId::new(value.0)
    }
}

impl FromSpecImpl<PersistenceId> for ActorId {
    open spec fn obeys_from_spec() -> bool {
        true
    }

    open spec fn from_spec(value: PersistenceId) -> ActorId {
        ActorId::of(value.text())
    }
}

impl crate::identifier::IntoActorId for PersistenceId {
    fn into_actor_id(self) -> (r: ActorId)
        ensures
            r@ == self@,
    {
        ActorId::new(self.0)
    }
}

impl crate::identifier::ToActorId for PersistenceId {
    fn to_actor_id(&self) -> (r: ActorId)
        ensures
            r@ == self@,
    {
        ActorId::new(self.0.clone())
    }
}

/// Both conversions keep the text.
pub proof fn lemma_identifier_conversions_keep_text(actor: ActorId, stream: PersistenceId)
    ensures
        <PersistenceId as FromSpec<ActorId>>::from_spec(actor)@ == actor@,
        <ActorId as FromSpec<PersistenceId>>::from_spec(stream)@ == stream@,
        <ActorId as FromSpec<PersistenceId>>::from_spec(
            <PersistenceId as FromSpec<ActorId>>::from_spec(actor),
        ) == actor,
{
    ActorId::lemma_of_text(stream.text());
    ActorId::lemma_of_own_text(actor);
}

/// The position of an event in its stream.
///
/// A fresh actor stands at 0 and moves up by one with every event it
/// persists. `i64::MIN` and `i64::MAX` serve as the open ends of a selection.
#[derive(Debug, Copy, Clone, PartialEq, Eq, Structural, Ord, Hash)]
pub struct SequenceId(pub i64);

impl View for SequenceId {
    type V = int;

    open spec fn view(&self) -> int {
        self.0 as int
    }
}

impl PartialOrd for SequenceId {
    /// Sequences are ordered as their positions are.
    fn partial_cmp(&self, other: &SequenceId) -> (r: Option<Ordering>) {
        if self.0 < other.0 {
            Some(Ordering::Less)
        } else if self.0 == other.0 {
            Some(Ordering::Equal)
        } else {
            Some(Ordering::Greater)
        }
    }
}

impl PartialOrdSpecImpl for SequenceId {
    open spec fn obeys_partial_cmp_spec() -> bool {
        true
    }

    open spec fn partial_cmp_spec(&self, other: &SequenceId) -> Option<Ordering> {
        if self@ < other@ {
            Some(Ordering::Less)
        } else if self@ == other@ {
            Some(Ordering::Equal)
        } else {
            Some(Ordering::Greater)
        }
    }
}

impl SequenceId {
    pub fn new(seq: i64) -> (r: SequenceId)
        ensures
            r == SequenceId(seq),
    {
        SequenceId(seq)
    }

    pub fn min() -> (r: SequenceId)
        ensures
            r == SequenceId(i64::MIN),
    {
        SequenceId(i64::MIN)
    }

    pub fn max() -> (r: SequenceId)
        ensures
            r == SequenceId(i64::MAX),
    {
        SequenceId(i64::MAX)
    }

    /// Moves one position up.
    pub fn incr(&mut self)
        requires
            old(self)@ < i64::MAX,
        ensures
            final(self)@ == old(self)@ + 1,
    {
        self.0 = self.0 + 1;
    }

    pub fn assign(&mut self, assign: SequenceId)
        ensures
            *final(self) == assign,
    {
        self.0 = assign.0;
    }

    /// The position as a number.
    pub fn value(&self) -> (r: i64)
        ensures
            r == self@,
    {
        self.0
    }
}

impl From<SequenceId> for i64 {
    fn from(value: SequenceId) -> (r: i64) {
        value.0
    }
}

impl FromSpecImpl<SequenceId> for i64 {
    open spec fn obeys_from_spec() -> bool {
        true
    }

    open spec fn from_spec(value: SequenceId) -> i64 {
        value@ as i64
    }
}

impl Default for SequenceId {
    fn default() -> (r: SequenceId)
        ensures
            r == SequenceId(0),
    {
        SequenceId(0)
    }
}

/// The version of a persistent actor type. Streams are kept apart by it, so
/// that a type can change its payloads without meeting older ones.
#[derive(Debug, Copy, Clone, Eq, PartialEq, Hash)]
pub struct Version(&'static str);

impl View for Version {
    type V = Seq<char>;

    closed spec fn view(&self) -> Seq<char> {
        self.0@
    }
}

impl Version {
    pub fn new(version: &'static str) -> (r: Version)
        ensures
            r@ == version@,
    {
        Version(version)
    }

    /// The text of the version.
    pub fn as_str(&self) -> (r: &'static str)
        ensures
            r@ == self@,
    {
        self.0
    }
}

} // verus!
