//! Which resolver takes which stored payload.
//!
//! A persistent actor type registers the types of snapshot and of event that
//! it can recover from. Each registration is kept under the type's token and
//! its registry key, and gets a slot: its place in the order of registration
//! on its side of the mapping. Storage names a payload by the registry key
//! alone, and that is how a resolver is found again.

use vstd::prelude::*;
use vstd::std_specs::cmp::PartialEqSpecImpl;
use std::any::TypeId;
use dashmap::DashMap;
use crate::persistence::journal::Event;
use crate::persistence::snapshot::SnapShot;
use crate::token::{same_text, same_token, token, type_token};

verus! {

#[verifier::external_type_specification]
#[verifier::external_body]
#[verifier::reject_recursive_types(K)]
#[verifier::reject_recursive_types(V)]
#[verifier::reject_recursive_types(S)]
pub struct ExDashMap<K, V, S>(DashMap<K, V, S>);

/// What a table of slots holds: the slot of each registered pair of type
/// token and registry key.
pub uninterp spec fn slots(table: DashMap<(TypeId, &'static str), usize>) -> Map<
    (TypeId, Seq<char>),
    usize,
>;

/// `DashMap::new`: a table that holds nothing.
#[verifier::external_body]
fn table_new() -> (table: DashMap<(TypeId, &'static str), usize>)
    ensures
        slots(table).dom() =~= Set::empty(),
{
    DashMap::new()
}

/// `DashMap::contains_key`: whether the table holds the pair.
#[verifier::external_body]
fn table_contains(table: &DashMap<(TypeId, &'static str), usize>, key: &RecoveryKey) -> (r: bool)
    ensures
        r == slots(*table).contains_key(key@),
{
    table.contains_key(&(key.0, key.1))
}

/// `DashMap::insert`: puts the slot under the pair and hands back the slot
/// that stood there before, if one did.
#[verifier::external_body]
fn table_insert(
    table: &mut DashMap<(TypeId, &'static str), usize>,
    key: RecoveryKey,
    slot: usize,
) -> (r: Option<usize>)
    ensures
        slots(*final(table)) == slots(*old(table)).insert(key@, slot),
        r == (if slots(*old(table)).contains_key(key@) {
            Some(slots(*old(table))[key@])
        } else {
            None
        }),
{
    table.insert((key.0, key.1), slot)
}

/// `DashMap::iter`: the pairs that the table holds, each with its slot, in no
/// order that could be named. What is handed out is in the table, and what
/// is in the table is handed out.
#[verifier::external_body]
fn table_entries(table: &DashMap<(TypeId, &'static str), usize>) -> (r: Vec<(RecoveryKey, usize)>)
    ensures
        forall|i: int|
            0 <= i < r@.len() ==> slots(*table).contains_key(#[trigger] r@[i].0@)
                && slots(*table)[r@[i].0@] == r@[i].1,
        forall|k: (TypeId, Seq<char>)|
            slots(*table).contains_key(k) ==> exists|i: int|
                0 <= i < r@.len() && #[trigger] r@[i].0@ == k,
{
    table.iter().map(|e| (RecoveryKey(e.key().0, e.key().1), *e.value())).collect()
}

/// `DashMap::is_empty`: whether the table holds nothing.
#[verifier::external_body]
fn table_is_empty(table: &DashMap<(TypeId, &'static str), usize>) -> (r: bool)
    ensures
        r == (slots(*table).dom() =~= Set::empty()),
{
    table.is_empty()
}

/// What a registration is kept under: the token of the payload's type and
/// the payload's registry key.
#[derive(Debug, Copy, Clone, Hash, Eq)]
pub struct RecoveryKey(TypeId, &'static str);

impl PartialEq for RecoveryKey {
    /// Keys are equal where their tokens and their registry keys are.
    fn eq(&self, other: &RecoveryKey) -> (r: bool) {
        same_token(&self.0, &other.0) && same_text(self.1, other.1)
    }
}

impl PartialEqSpecImpl for RecoveryKey {
    open spec fn obeys_eq_spec() -> bool {
        true
    }

    open spec fn eq_spec(&self, other: &RecoveryKey) -> bool {
        self@ == other@
    }
}

impl PartialEq<str> for RecoveryKey {
    /// A key equals a text where its registry key is that text, whatever
    /// the type.
    fn eq(&self, other: &str) -> (r: bool) {
        same_text(self.1, other)
    }
}

impl PartialEqSpecImpl<str> for RecoveryKey {
    open spec fn obeys_eq_spec() -> bool {
        true
    }

    open spec fn eq_spec(&self, other: &str) -> bool {
        self@.1 == other@
    }
}

impl View for RecoveryKey {
    type V = (TypeId, Seq<char>);

    closed spec fn view(&self) -> (TypeId, Seq<char>) {
        (self.0, self.1@)
    }
}

impl RecoveryKey {
    /// The key of the type `T` under the registry key `key`.
    pub fn new<T: 'static>(key: &'static str) -> (r: RecoveryKey)
        ensures
            r@ == (type_token::<T>(), key@),
    {
        RecoveryKey(token::<T>(), key)
    }

    /// The registry key.
    pub fn key(&self) -> (r: &'static str)
        ensures
            r@ == self@.1,
    {
        self.1
    }

    /// Whether the registry key is `key`, whatever the type.
    pub fn is(&self, key: &str) -> (r: bool)
        ensures
            r == (self@.1 == key@),
    {
        same_text(self.1, key)
    }
}

/// The two sides of storage, and of a mapping.
#[derive(Debug, Clone, Copy, PartialEq, Eq, Structural)]
pub enum Side {
    /// Snapshots.
    SnapShot,
    /// Events, which make up the journal.
    Event,
}

/// One side of a mapping: the registrations of snapshot types, or those of
/// event types.
pub struct ResolveMapper {
    table: DashMap<(TypeId, &'static str), usize>,
    next: usize,
}

impl View for ResolveMapper {
    type V = Map<(TypeId, Seq<char>), usize>;

    closed spec fn view(&self) -> Map<(TypeId, Seq<char>), usize> {
        slots(self.table)
    }
}

impl ResolveMapper {
    /// The number of registrations made so far, which is the next slot.
    pub closed spec fn registered(&self) -> nat {
        self.next as nat
    }

    /// Every slot handed out lies below the number of registrations.
    pub open spec fn wf(&self) -> bool {
        forall|k: (TypeId, Seq<char>)|
            self@.contains_key(k) ==> (#[trigger] self@[k] as nat) < self.registered()
    }

    /// Whether a registration stands under the registry key `key`, for any
    /// type.
    pub open spec fn knows(&self, key: Seq<char>) -> bool {
        exists|token: TypeId| self@.contains_key((token, key))
    }

    /// A side without registrations.
    pub fn new() -> (r: ResolveMapper)
        ensures
            r@.dom() =~= Set::empty(),
            r.registered() == 0,
            r.wf(),
    {
        ResolveMapper { table: table_new(), next: 0 }
    }

    pub fn is_empty(&self) -> (r: bool)
        ensures
            r == (self@.dom() =~= Set::empty()),
    {
        table_is_empty(&self.table)
    }

    /// Whether `key` is registered.
    pub fn contains(&self, key: &RecoveryKey) -> (r: bool)
        ensures
            r == self@.contains_key(key@),
    {
        table_contains(&self.table, key)
    }

    /// Registers `key` and hands out its slot.
    pub fn register(&mut self, key: RecoveryKey) -> (slot: usize)
        requires
            old(self).wf(),
            !old(self)@.contains_key(key@),
            old(self).registered() < usize::MAX,
        ensures
            final(self).wf(),
            slot == old(self).registered(),
            final(self).registered() == old(self).registered() + 1,
            final(self)@ == old(self)@.insert(key@, slot),
    {
        let slot = self.next;
        let _ = table_insert(&mut self.table, key, slot);
        self.next = slot + 1;
        slot
    }

    /// Registers `key`, unless it is registered already or no slot is left:
    /// then nothing changes.
    pub fn try_register(&mut self, key: RecoveryKey) -> (r: Option<usize>)
        requires
            old(self).wf(),
        ensures
            final(self).wf(),
            r.is_some() <==> !old(self)@.contains_key(key@) && old(self).registered() < usize::MAX,
            r matches Some(slot) ==> {
                &&& slot == old(self).registered()
                &&& final(self).registered() == old(self).registered() + 1
                &&& final(self)@ == old(self)@.insert(key@, slot)
            },
            r.is_none() ==> final(self)@ == old(self)@ && final(self).registered()
                == old(self).registered(),
    {
        if self.next == usize::MAX || table_contains(&self.table, &key) {
            None
        } else {
            Some(self.register(key))
        }
    }

    /// The slot registered under the registry key `key`. Where several types
    /// share the key, the slot of one of them.
    pub fn find(&self, key: &str) -> (r: Option<usize>)
        ensures
            r.is_some() == self.knows(key@),
            r matches Some(slot) ==> exists|token: TypeId|
                self@.contains_key((token, key@)) && #[trigger] self@[(token, key@)] == slot,
    {
        let entries = table_entries(&self.table);
        let mut i: usize = 0;
        while i < entries.len()
            invariant
                0 <= i <= entries@.len(),
                forall|j: int| 0 <= j < i ==> (#[trigger] entries@[j]).0@.1 != key@,
                forall|j: int|
                    0 <= j < entries@.len() ==> self@.contains_key(#[trigger] entries@[j].0@)
                        && self@[entries@[j].0@] == entries@[j].1,
            decreases entries@.len() - i,
        {
            if entries[i].0.is(key) {
                let slot = entries[i].1;
                proof {
                    let k = entries@[i as int].0@;
                    assert(self@.contains_key(k));
                    assert(k == (k.0, key@));
                    assert(self@.contains_key((k.0, key@)) && self@[(k.0, key@)] == slot);
                }
                return Some(slot);
            }
            i = i + 1;
        }
        proof {
            if self.knows(key@) {
                let token = choose|token: TypeId| self@.contains_key((token, key@));
                let j = choose|j: int|
                    0 <= j < entries@.len() && #[trigger] entries@[j].0@ == (token, key@);
                assert(entries@[j].0@.1 == key@);
            }
        }
        None
    }
}

/// The registrations of one persistent actor type: those of its snapshot
/// types and those of its event types.
pub struct RecoverMapping {
    snapshot: ResolveMapper,
    event: ResolveMapper,
}

impl RecoverMapping {
    pub closed spec fn spec_snapshot(&self) -> ResolveMapper {
        self.snapshot
    }

    pub closed spec fn spec_event(&self) -> ResolveMapper {
        self.event
    }

    pub open spec fn wf(&self) -> bool {
        self.spec_snapshot().wf() && self.spec_event().wf()
    }

    /// A mapping without registrations.
    pub fn create() -> (r: RecoverMapping)
        ensures
            r.wf(),
            r.spec_snapshot()@.dom() =~= Set::empty(),
            r.spec_event()@.dom() =~= Set::empty(),
            r.spec_snapshot().registered() == 0,
            r.spec_event().registered() == 0,
    {
        RecoverMapping { snapshot: ResolveMapper::new(), event: ResolveMapper::new() }
    }

    /// Registers the snapshot type `S` under its token and its registry key,
    /// and hands out its slot. A type that is registered already is refused,
    /// and so is any type once no slot is left; then nothing changes.
    pub fn reg_snapshot<S: SnapShot>(&mut self) -> (r: Option<usize>)
        requires
            old(self).wf(),
        ensures
            final(self).wf(),
            final(self).spec_event() == old(self).spec_event(),
            r.is_some() <==> !old(self).spec_snapshot()@.contains_key(
                (type_token::<S>(), S::REGISTRY_KEY@),
            ) && old(self).spec_snapshot().registered() < usize::MAX,
            r matches Some(slot) ==> {
                &&& slot == old(self).spec_snapshot().registered()
                &&& final(self).spec_snapshot().registered() == old(self).spec_snapshot().registered()
                    + 1
                &&& final(self).spec_snapshot()@ == old(self).spec_snapshot()@.insert(
                    (type_token::<S>(), S::REGISTRY_KEY@),
                    slot,
                )
            },
            r.is_none() ==> final(self).spec_snapshot()@ == old(self).spec_snapshot()@ && final(self).spec_snapshot().registered() == old(self).spec_snapshot().registered(),
    {
        let key = RecoveryKey::new::<S>(S::REGISTRY_KEY);
        self.snapshot.try_register(key)
    }

    /// Registers the event type `E` under its token and its registry key,
    /// and hands out its slot. A type that is registered already is refused,
    /// and so is any type once no slot is left; then nothing changes.
    pub fn reg_event<E: Event>(&mut self) -> (r: Option<usize>)
        requires
            old(self).wf(),
        ensures
            final(self).wf(),
            final(self).spec_snapshot() == old(self).spec_snapshot(),
            r.is_some() <==> !old(self).spec_event()@.contains_key(
                (type_token::<E>(), E::REGISTRY_KEY@),
            ) && old(self).spec_event().registered() < usize::MAX,
            r matches Some(slot) ==> {
                &&& slot == old(self).spec_event().registered()
                &&& final(self).spec_event().registered() == old(self).spec_event().registered()
                    + 1
                &&& final(self).spec_event()@ == old(self).spec_event()@.insert(
                    (type_token::<E>(), E::REGISTRY_KEY@),
                    slot,
                )
            },
            r.is_none() ==> final(self).spec_event()@ == old(self).spec_event()@ && final(self).spec_event().registered() == old(self).spec_event().registered(),
    {
        let key = RecoveryKey::new::<E>(E::REGISTRY_KEY);
        self.event.try_register(key)
    }

    /// The snapshot side.
    pub fn snapshot(&self) -> (r: &ResolveMapper)
        ensures
            *r == self.spec_snapshot(),
    {
        &self.snapshot
    }

    /// The event side.
    pub fn event(&self) -> (r: &ResolveMapper)
        ensures
            *r == self.spec_event(),
    {
        &self.event
    }

    pub fn is_snapshot_map_empty(&self) -> (r: bool)
        ensures
            r == (self.spec_snapshot()@.dom() =~= Set::empty()),
    {
        self.snapshot.is_empty()
    }

    pub fn is_event_map_empty(&self) -> (r: bool)
        ensures
            r == (self.spec_event()@.dom() =~= Set::empty()),
    {
        self.event.is_empty()
    }
}

} // verus!
