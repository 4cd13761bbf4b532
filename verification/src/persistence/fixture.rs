//! The fixture: what storage holds of an actor, prepared for replay.
//!
//! A fixture is at most one snapshot followed by the journal entries that
//! come after it, each with the slot of the resolver that takes it. Replaying
//! hands the parts out one by one, in that order, and after each one that
//! its resolver took, moves the context's sequence to that part's.

pub mod journal;
pub mod snapshot;

pub use self::journal::{FixtureJournal, Range};
pub use self::snapshot::FixtureSnapShot;

use vstd::prelude::*;
use crate::actor::context::ActorContext;
use crate::persistence::context::PersistContext;
use crate::persistence::extension::{ascending, JournalPayload};
use crate::persistence::fixture::journal::mirrors;
use crate::persistence::identifier::SequenceId;
use crate::persistence::mapping::{ResolveMapper, Side};
use std::any::TypeId;

verus! {

/// One stored payload, ready for its resolver.
#[derive(Debug)]
pub struct FixtureParts {
    /// The side of the mapping whose resolver takes the payload.
    pub side: Side,
    /// Where the payload stands in its stream.
    pub seq: SequenceId,
    /// The payload's bytes.
    pub bytes: Vec<u8>,
    /// The slot of the resolver that takes the payload, on its side.
    pub refs: usize,
}

impl FixtureParts {
    pub fn new(side: Side, seq: SequenceId, bytes: Vec<u8>, refs: usize) -> (r: FixtureParts)
        ensures
            r.side == side,
            r.seq == seq,
            r.bytes == bytes,
            r.refs == refs,
    {
        FixtureParts { side, seq, bytes, refs }
    }
}

/// Whether `slot` is registered on `side` under the registry key `key`.
pub open spec fn resolves(side: ResolveMapper, key: Seq<char>, slot: usize) -> bool {
    exists|token: TypeId| side@.contains_key((token, key)) && #[trigger] side@[(token, key)] == slot
}

/// What storage holds of one actor, prepared for replay.
#[derive(Debug)]
pub struct Fixture {
    snapshot: FixtureSnapShot,
    journal: FixtureJournal,
}

impl Fixture {
    pub closed spec fn spec_snapshot(&self) -> FixtureSnapShot {
        self.snapshot
    }

    pub closed spec fn spec_journal(&self) -> FixtureJournal {
        self.journal
    }

    /// The parts in the order of their replay: the snapshot, if there is
    /// one, then the journal entries.
    pub open spec fn parts(&self) -> Seq<FixtureParts> {
        self.spec_snapshot().parts() + self.spec_journal().parts()
    }

    pub fn new(snapshot: FixtureSnapShot, journal: FixtureJournal) -> (r: Fixture)
        ensures
            r.spec_snapshot() == snapshot,
            r.spec_journal() == journal,
    {
        Fixture { snapshot, journal }
    }

    /// Starts the replay: nothing is applied yet.
    pub fn apply(self) -> (r: Replay)
        ensures
            r.wf(),
            r.parts() == self.parts(),
            r.count() == 0,
    {
        let mut parts = self.snapshot.into_parts();
        let mut rest = self.journal.into_parts();
        parts.append(&mut rest);
        Replay { parts, cursor: 0 }
    }
}

/// A replay under way: the parts of a fixture and how many of them are
/// applied.
#[derive(Debug)]
pub struct Replay {
    parts: Vec<FixtureParts>,
    cursor: usize,
}

/// Where a context stands after the parts `applied` were applied to an actor
/// whose context stood at `start`.
pub open spec fn sequence_after(applied: Seq<FixtureParts>, start: SequenceId) -> SequenceId {
    if applied.len() == 0 {
        start
    } else {
        applied.last().seq
    }
}

impl Replay {
    /// All the parts, in the order of their replay.
    pub closed spec fn parts(&self) -> Seq<FixtureParts> {
        self.parts@
    }

    /// The number of parts that are applied.
    pub closed spec fn count(&self) -> int {
        self.cursor as int
    }

    /// A replay never counts more parts than it has.
    pub closed spec fn wf(&self) -> bool {
        self.cursor <= self.parts@.len()
    }

    /// The parts that are applied, in the order in which they were.
    pub open spec fn applied(&self) -> Seq<FixtureParts> {
        self.parts().take(self.count())
    }

    /// Whether every part is applied.
    pub open spec fn complete(&self) -> bool {
        self.count() == self.parts().len()
    }

    /// The part to hand to its resolver now, or nothing once every part is
    /// applied.
    pub fn next(&self) -> (r: Option<&FixtureParts>)
        requires
            self.wf(),
        ensures
            self.complete() <==> r.is_none(),
            r matches Some(part) ==> *part == self.parts()[self.count()],
            0 <= self.count() <= self.parts().len(),
    {
        if self.cursor < self.parts.len() {
            Some(&self.parts[self.cursor])
        } else {
            None
        }
    }

    /// Takes what the resolver returned for the part that `next` handed out.
    ///
    /// Where the resolver took the part, the part counts as applied and the
    /// context's sequence moves to the part's. Where it failed, the replay ends
    /// with its error and nothing moves. A replay that is complete has no part
    /// out, and nothing moves either.
    pub fn settle<E>(&mut self, outcome: Result<(), E>, ctx: &mut PersistContext) -> (r: Result<
        (),
        E,
    >)
        requires
            old(self).wf(),
        ensures
            final(self).wf(),
            r == outcome,
            final(self).parts() == old(self).parts(),
            final(ctx).actor() == old(ctx).actor(),
            final(ctx).running() == old(ctx).running(),
            outcome.is_ok() && !old(self).complete() ==> {
                &&& final(self).count() == old(self).count() + 1
                &&& final(self).applied() == old(self).applied().push(
                    old(self).parts()[old(self).count()],
                )
                &&& final(ctx).position() == old(self).parts()[old(self).count()].seq
                &&& final(ctx).position() == sequence_after(
                    final(self).applied(),
                    old(ctx).position(),
                )
            },
            outcome.is_err() || old(self).complete() ==> {
                &&& final(self).count() == old(self).count()
                &&& final(ctx).position() == old(ctx).position()
            },
    {
        if outcome.is_ok() && self.cursor < self.parts.len() {
            let seq = self.parts[self.cursor].seq;
            ctx.mut_sequence().assign(seq);
            self.cursor = self.cursor + 1;
            proof {
                assert(final(self).applied() =~= old(self).applied().push(
                    old(self).parts()[old(self).count()],
                ));
            }
        }
        outcome
    }
}

/// Replaying the journal `e1, .., en` of an actor without a snapshot applies
/// `e1` to `en`, each once and in this order, and leaves the context's
/// sequence at that of `en`; an empty journal leaves it where it started.
pub proof fn lemma_replay_of_journal(
    journal: Seq<JournalPayload>,
    side: ResolveMapper,
    fixture: Fixture,
    replay: Replay,
    start: SequenceId,
)
    requires
        fixture.spec_snapshot().part().is_none(),
        fixture.spec_journal().entries() matches Some(parts) && mirrors(parts, journal, side),
        replay.parts() == fixture.parts(),
        replay.complete(),
    ensures
        replay.applied().len() == journal.len(),
        forall|i: int|
            0 <= i < journal.len() ==> (#[trigger] replay.applied()[i]).seq == journal[i].seq
                && replay.applied()[i].bytes == journal[i].bytes && replay.applied()[i].side
                == Side::Event,
        ascending(journal) ==> forall|i: int, j: int|
            0 <= i < j < journal.len() ==> replay.applied()[i].seq@ < replay.applied()[j].seq@,
        sequence_after(replay.applied(), start) == if journal.len() == 0 {
            start
        } else {
            journal.last().seq
        },
{
    let parts = fixture.spec_journal().entries().unwrap();
    assert(fixture.parts() =~= parts);
    assert(replay.applied() =~= parts);
}

/// Replaying a snapshot and the journal that follows it applies the
/// snapshot first and the journal entries after it, and leaves the context's
/// sequence at that of the last part.
pub proof fn lemma_replay_of_snapshot_and_journal(
    snapshot: FixtureParts,
    journal: Seq<JournalPayload>,
    side: ResolveMapper,
    fixture: Fixture,
    replay: Replay,
    start: SequenceId,
)
    requires
        fixture.spec_snapshot().part() == Some(snapshot),
        fixture.spec_journal().entries() matches Some(parts) && mirrors(parts, journal, side),
        replay.parts() == fixture.parts(),
        replay.complete(),
    ensures
        replay.applied().len() == journal.len() + 1,
        replay.applied()[0] == snapshot,
        forall|i: int|
            0 <= i < journal.len() ==> (#[trigger] replay.applied()[i + 1]).seq == journal[i].seq
                && replay.applied()[i + 1].bytes == journal[i].bytes,
        sequence_after(replay.applied(), start) == if journal.len() == 0 {
            snapshot.seq
        } else {
            journal.last().seq
        },
{
    let parts = fixture.spec_journal().entries().unwrap();
    assert(fixture.parts() =~= seq![snapshot] + parts);
    assert(replay.applied() =~= seq![snapshot] + parts);
    assert forall|i: int| 0 <= i < journal.len() implies (#[trigger] replay.applied()[i + 1]).seq
        == journal[i].seq && replay.applied()[i + 1].bytes == journal[i].bytes by {
        assert(replay.applied()[i + 1] == parts[i]);
    }
}

} // verus!
