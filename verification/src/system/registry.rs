//! The registry: which actors are live, under which identifier.

use vstd::prelude::*;
use crate::actor::refs::AnyRef;
use crate::actor::state::State;
use crate::errors::ActorError;
use crate::identifier::ActorId;

verus! {

/// One registered actor.
#[derive(Debug)]
pub struct Entry<H> {
    pub id: ActorId,
    pub actor: AnyRef<H>,
}

/// Whether no two of the entries share an identifier.
pub open spec fn distinct<H>(entries: Seq<Entry<H>>) -> bool {
    forall|i: int, j: int|
        0 <= i < entries.len() && 0 <= j < entries.len() && i != j ==> entries[i].id@
            != entries[j].id@
}

/// Whether one of the entries stands under the identifier `id`.
pub open spec fn listed<H>(entries: Seq<Entry<H>>, id: Seq<char>) -> bool {
    exists|i: int| 0 <= i < entries.len() && entries[i].id@ == id
}

/// The place of an entry that stands under `id`, where there is one.
pub open spec fn place<H>(entries: Seq<Entry<H>>, id: Seq<char>) -> int {
    choose|i: int| 0 <= i < entries.len() && entries[i].id@ == id
}

/// The actors that the entries list, by identifier.
pub open spec fn directory<H>(entries: Seq<Entry<H>>) -> Map<Seq<char>, AnyRef<H>> {
    Map::new(|id: Seq<char>| listed(entries, id), |id: Seq<char>| entries[place(entries, id)].actor)
}

/// How many of the entries stand under `id` and are active.
pub open spec fn active_under<H>(entries: Seq<Entry<H>>, id: Seq<char>) -> nat
    decreases entries.len(),
{
    if entries.len() == 0 {
        0
    } else {
        active_under(entries.drop_last(), id) + if entries.last().id@ == id
            && entries.last().actor.running() == State::Active {
            1nat
        } else {
            0nat
        }
    }
}

/// Among entries that share no identifier, the entry under an identifier is
/// found at one place only.
proof fn lemma_place<H>(entries: Seq<Entry<H>>, i: int)
    requires
        distinct(entries),
        0 <= i < entries.len(),
    ensures
        listed(entries, entries[i].id@),
        place(entries, entries[i].id@) == i,
        directory(entries)[entries[i].id@] == entries[i].actor,
{
    let id = entries[i].id@;
    let found = place(entries, id);
    assert(0 <= found < entries.len() && entries[found].id@ == id);
}

/// Entries that list nothing under `id` hold no active entry under it.
proof fn lemma_unlisted_is_inactive<H>(entries: Seq<Entry<H>>, id: Seq<char>)
    requires
        !listed(entries, id),
    ensures
        active_under(entries, id) == 0,
    decreases entries.len(),
{
    if entries.len() > 0 {
        let rest = entries.drop_last();
        assert(entries.last() == entries[entries.len() - 1]);
        assert(!listed(rest, id)) by {
            if listed(rest, id) {
                let i = choose|i: int| 0 <= i < rest.len() && rest[i].id@ == id;
                assert(entries[i].id@ == id);
            }
        }
        lemma_unlisted_is_inactive(rest, id);
    }
}

/// Among entries that share no identifier, at most one is active under any
/// identifier.
proof fn lemma_one_active<H>(entries: Seq<Entry<H>>, id: Seq<char>)
    requires
        distinct(entries),
    ensures
        active_under(entries, id) <= 1,
    decreases entries.len(),
{
    if entries.len() > 0 {
        let rest = entries.drop_last();
        assert(distinct(rest)) by {
            assert forall|i: int, j: int|
                0 <= i < rest.len() && 0 <= j < rest.len() && i != j implies rest[i].id@
                != rest[j].id@ by {
                assert(rest[i] == entries[i]);
                assert(rest[j] == entries[j]);
            }
        }
        lemma_one_active(rest, id);
        if entries.last().id@ == id {
            assert(!listed(rest, id)) by {
                if listed(rest, id) {
                    let i = choose|i: int| 0 <= i < rest.len() && rest[i].id@ == id;
                    assert(rest[i] == entries[i]);
                    assert(entries.last() == entries[entries.len() - 1]);
                }
            }
            lemma_unlisted_is_inactive(rest, id);
        }
    }
}

/// Adding an entry under an identifier that is not listed keeps the
/// identifiers apart and adds the entry's actor to the directory.
proof fn lemma_push<H>(entries: Seq<Entry<H>>, entry: Entry<H>)
    requires
        distinct(entries),
        !listed(entries, entry.id@),
    ensures
        distinct(entries.push(entry)),
        directory(entries.push(entry)) == directory(entries).insert(entry.id@, entry.actor),
{
    lemma_insert(entries, entries.len() as int, entry);
    assert(entries.insert(entries.len() as int, entry) =~= entries.push(entry));
}

/// Putting an entry in, under an identifier that is not listed, keeps the
/// identifiers apart and adds the entry's actor to the directory.
proof fn lemma_insert<H>(entries: Seq<Entry<H>>, at: int, entry: Entry<H>)
    requires
        distinct(entries),
        !listed(entries, entry.id@),
        0 <= at <= entries.len(),
    ensures
        distinct(entries.insert(at, entry)),
        directory(entries.insert(at, entry)) == directory(entries).insert(entry.id@, entry.actor),
{
    let after = entries.insert(at, entry);
    let key = entry.id@;
    assert forall|a: int, b: int|
        0 <= a < after.len() && 0 <= b < after.len() && a != b implies after[a].id@
        != after[b].id@ by {
        let pa = if a < at { a } else { a - 1 };
        let pb = if b < at { b } else { b - 1 };
        if a != at {
            assert(after[a] == entries[pa]);
        }
        if b != at {
            assert(after[b] == entries[pb]);
        }
    }
    lemma_place(after, at);
    assert forall|k: Seq<char>| k != key implies listed(after, k) == listed(entries, k) && (
    listed(entries, k) ==> after[place(after, k)].actor == entries[place(entries, k)].actor) by {
        if listed(entries, k) {
            let p = place(entries, k);
            let q = if p < at { p } else { p + 1 };
            assert(after[q] == entries[p]);
            lemma_place(after, q);
            lemma_place(entries, p);
        }
        if listed(after, k) {
            let q = place(after, k);
            let p = if q < at { q } else { q - 1 };
            assert(after[q] == entries[p]);
        }
    }
    assert(directory(after) =~= directory(entries).insert(key, entry.actor));
}

/// Taking an entry out keeps the identifiers apart and takes the entry's
/// identifier out of the directory.
proof fn lemma_remove<H>(entries: Seq<Entry<H>>, at: int)
    requires
        distinct(entries),
        0 <= at < entries.len(),
    ensures
        distinct(entries.remove(at)),
        !listed(entries.remove(at), entries[at].id@),
        directory(entries.remove(at)) == directory(entries).remove(entries[at].id@),
{
    let after = entries.remove(at);
    let key = entries[at].id@;
    assert forall|a: int, b: int|
        0 <= a < after.len() && 0 <= b < after.len() && a != b implies after[a].id@
        != after[b].id@ by {
        let pa = if a < at { a } else { a + 1 };
        let pb = if b < at { b } else { b + 1 };
        assert(after[a] == entries[pa]);
        assert(after[b] == entries[pb]);
    }
    assert(!listed(after, key)) by {
        if listed(after, key) {
            let q = place(after, key);
            let p = if q < at { q } else { q + 1 };
            assert(after[q] == entries[p]);
        }
    }
    assert forall|k: Seq<char>| k != key implies listed(after, k) == listed(entries, k) && (
    listed(entries, k) ==> after[place(after, k)].actor == entries[place(entries, k)].actor) by {
        if listed(entries, k) {
            let p = place(entries, k);
            let q = if p < at { p } else { p - 1 };
            assert(after[q] == entries[p]);
            lemma_place(after, q);
            lemma_place(entries, p);
        }
        if listed(after, k) {
            let q = place(after, k);
            let p = if q < at { q } else { q + 1 };
            assert(after[q] == entries[p]);
        }
    }
    assert(directory(after) =~= directory(entries).remove(key));
}

/// The directory of live actors.
///
/// An identifier names at most one entry. An entry is added when an actor is
/// spawned and leaves when the actor's own lifecycle takes it out; asking an
/// actor to stop removes nothing.
#[derive(Debug)]
pub struct Registry<H> {
    entries: Vec<Entry<H>>,
}

impl<H> View for Registry<H> {
    type V = Map<Seq<char>, AnyRef<H>>;

    open spec fn view(&self) -> Map<Seq<char>, AnyRef<H>> {
        directory(self.entries())
    }
}

impl<H> Registry<H> {
    /// The entries, in the order in which they were added.
    pub closed spec fn entries(&self) -> Seq<Entry<H>> {
        self.entries@
    }

    /// What holds of every registry: no two entries share an identifier.
    pub open spec fn wf(&self) -> bool {
        distinct(self.entries())
    }

    /// At any time, at most one entry under an identifier is active.
    pub proof fn lemma_one_active(&self, id: Seq<char>)
        requires
            self.wf(),
        ensures
            active_under(self.entries(), id) <= 1,
    {
        lemma_one_active(self.entries(), id);
    }

    /// The registry without entries.
    pub fn new() -> (r: Registry<H>)
        ensures
            r.wf(),
            r.entries().len() == 0,
            r@ == Map::<Seq<char>, AnyRef<H>>::empty(),
    {
        let r = Registry { entries: Vec::new() };
        assert(r@ =~= Map::<Seq<char>, AnyRef<H>>::empty());
        r
    }

    /// The place of the entry under `id`, if there is one.
    fn position(&self, id: &ActorId) -> (r: Option<usize>)
        requires
            self.wf(),
        ensures
            r.is_some() == listed(self.entries(), id@),
            r matches Some(i) ==> i < self.entries().len() && self.entries()[i as int].id@ == id@
                && place(self.entries(), id@) == i,
    {
        let mut i: usize = 0;
        while i < self.entries.len()
            invariant
                self.wf(),
                0 <= i <= self.entries().len(),
                forall|j: int| 0 <= j < i ==> self.entries()[j].id@ != id@,
            decreases self.entries().len() - i,
        {
            if self.entries[i].id == *id {
                proof {
                    lemma_place(self.entries(), i as int);
                }
                return Some(i);
            }
            i = i + 1;
        }
        None
    }

    /// The number of entries.
    pub fn len(&self) -> (r: usize)
        ensures
            r == self.entries().len(),
    {
        self.entries.len()
    }

    /// The actor registered under `id`, if there is one.
    pub fn find(&self, id: &ActorId) -> (r: Option<&AnyRef<H>>)
        requires
            self.wf(),
        ensures
            r.is_some() == self@.contains_key(id@),
            r matches Some(actor) ==> *actor == self@[id@],
    {
        match self.position(id) {
            Some(i) => Some(&self.entries[i].actor),
            None => None,
        }
    }

    /// Whether a new actor may take the identifier `id`: it may not while an
    /// active actor is registered under it.
    pub fn accepts(&self, id: &ActorId) -> (r: Result<(), ActorError>)
        requires
            self.wf(),
        ensures
            r.is_err() <==> self@.contains_key(id@) && self@[id@].running() == State::Active,
            r matches Err(e) ==> e matches ActorError::AlreadySpawned { id: taken } && taken@
                == id@,
    {
        match self.position(id) {
            Some(i) => {
                if self.entries[i].actor.is_active() {
                    Err(ActorError::AlreadySpawned { id: id.clone() })
                } else {
                    Ok(())
                }
            },
            None => Ok(()),
        }
    }

    /// Registers `actor` under `id`.
    ///
    /// While an active actor is registered under `id` the new one is refused
    /// and nothing changes. An entry whose actor has left `Active` is
    /// overwritten and handed back.
    pub fn register(&mut self, id: ActorId, actor: AnyRef<H>) -> (r: Result<
        Option<AnyRef<H>>,
        ActorError,
    >)
        requires
            old(self).wf(),
        ensures
            final(self).wf(),
            r.is_err() <==> old(self)@.contains_key(id@) && old(self)@[id@].running()
                == State::Active,
            match r {
                Ok(overwritten) => {
                    &&& final(self)@ == old(self)@.insert(id@, actor)
                    &&& overwritten == if old(self)@.contains_key(id@) {
                        Some(old(self)@[id@])
                    } else {
                        None
                    }
                },
                Err(e) => {
                    &&& *final(self) == *old(self)
                    &&& e == (ActorError::AlreadySpawned { id })
                },
            },
    {
        let ghost before = self.entries();
        match self.position(&id) {
            Some(i) => {
                if self.entries[i].actor.is_active() {
                    return Err(ActorError::AlreadySpawned { id });
                }
                let replaced = self.entries.remove(i);
                proof {
                    lemma_remove(before, i as int);
                    lemma_push(self.entries(), Entry { id, actor });
                    assert(directory(before).remove(id@).insert(id@, actor) =~= directory(
                        before,
                    ).insert(id@, actor));
                }
                self.entries.push(Entry { id, actor });
                Ok(Some(replaced.actor))
            },
            None => {
                proof {
                    lemma_push(before, Entry { id, actor });
                }
                self.entries.push(Entry { id, actor });
                Ok(None)
            },
        }
    }

    /// The actor to ask to stop, registered under `id`. Nothing is removed:
    /// the entry leaves when the actor's own lifecycle takes it out.
    pub fn deregister(&self, id: &ActorId) -> (r: Result<&AnyRef<H>, ActorError>)
        requires
            self.wf(),
        ensures
            r.is_ok() <==> self@.contains_key(id@),
            match r {
                Ok(actor) => *actor == self@[id@],
                Err(e) => e matches ActorError::NotFoundActor { id: missing } && missing@ == id@,
            },
    {
        match self.position(id) {
            Some(i) => Ok(&self.entries[i].actor),
            None => Err(ActorError::NotFoundActor { id: id.clone() }),
        }
    }

    /// Adds `actor` under `id`, unless the identifier is taken, by an active
    /// actor or not.
    pub fn track(&mut self, id: ActorId, actor: AnyRef<H>) -> (r: Result<(), ActorError>)
        requires
            old(self).wf(),
        ensures
            final(self).wf(),
            r.is_err() <==> old(self)@.contains_key(id@),
            match r {
                Ok(()) => final(self)@ == old(self)@.insert(id@, actor),
                Err(e) => *final(self) == *old(self) && e == (ActorError::AlreadySpawned { id }),
            },
    {
        match self.position(&id) {
            Some(_) => Err(ActorError::AlreadySpawned { id }),
            None => {
                proof {
                    lemma_push(self.entries(), Entry { id, actor });
                }
                self.entries.push(Entry { id, actor });
                Ok(())
            },
        }
    }

    /// Takes the entry under `id` out.
    pub fn untracked(&mut self, id: &ActorId) -> (r: Result<(), ActorError>)
        requires
            old(self).wf(),
        ensures
            final(self).wf(),
            r.is_ok() <==> old(self)@.contains_key(id@),
            match r {
                Ok(()) => final(self)@ == old(self)@.remove(id@),
                Err(e) => {
                    &&& *final(self) == *old(self)
                    &&& e matches ActorError::NotFoundActor { id: missing } && missing@ == id@
                },
            },
    {
        match self.position(id) {
            Some(i) => {
                proof {
                    lemma_remove(self.entries(), i as int);
                }
                let _ = self.entries.remove(i);
                Ok(())
            },
            None => Err(ActorError::NotFoundActor { id: id.clone() }),
        }
    }

    /// Notes that the actor registered under `id` has left `Active`. Its
    /// entry stays.
    pub(crate) fn switch(&mut self, id: &ActorId) -> (r: Result<(), ActorError>)
        requires
            old(self).wf(),
        ensures
            final(self).wf(),
            r.is_ok() <==> old(self)@.contains_key(id@),
            match r {
                Ok(()) => final(self)@ == old(self)@.insert(id@, old(self)@[id@].stopped()),
                Err(e) => {
                    &&& *final(self) == *old(self)
                    &&& e matches ActorError::NotFoundActor { id: missing } && missing@ == id@
                },
            },
    {
        match self.position(id) {
            Some(i) => {
                let ghost before = self.entries();
                let mut entry = self.entries.remove(i);
                entry.actor.shutdown();
                proof {
                    lemma_remove(before, i as int);
                    lemma_insert(self.entries(), i as int, entry);
                    assert(directory(before).remove(id@).insert(id@, entry.actor) =~= directory(
                        before,
                    ).insert(id@, entry.actor));
                }
                self.entries.insert(i, entry);
                Ok(())
            },
            None => Err(ActorError::NotFoundActor { id: id.clone() }),
        }
    }

    /// Every registered actor, each once, to be asked to stop.
    pub fn shutdown_all(&self) -> (r: Vec<&AnyRef<H>>)
        ensures
            r@.len() == self.entries().len(),
            forall|i: int| 0 <= i < r@.len() ==> *(#[trigger] r@[i]) == self.entries()[i].actor,
    {
        let mut all: Vec<&AnyRef<H>> = Vec::new();
        let mut i: usize = 0;
        while i < self.entries.len()
            invariant
                0 <= i <= self.entries().len(),
                all@.len() == i,
                forall|j: int| 0 <= j < i ==> *(#[trigger] all@[j]) == self.entries()[j].actor,
            decreases self.entries().len() - i,
        {
            all.push(&self.entries[i].actor);
            i = i + 1;
        }
        all
    }
}

} // verus!
