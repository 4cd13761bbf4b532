//! The journal of a fixture.

use vstd::prelude::*;
use crate::persistence::errors::RecoveryError;
use crate::persistence::extension::{Journal, JournalPayload};
use crate::persistence::fixture::{resolves, FixtureParts};
use crate::persistence::identifier::SequenceId;
use crate::persistence::mapping::{RecoverMapping, ResolveMapper, Side};
use crate::persistence::selector::{SelectionCriteria, SelectionError};

verus! {

/// The part of a journal to replay.
#[derive(Debug, Clone, Copy, PartialEq, Eq, Structural)]
pub enum Range {
    /// The whole journal.
    All,
    /// The entries from `from` on, `from` included.
    StartWith { from: SequenceId },
}

impl Range {
    /// The selection to read the range with. A range that starts at the
    /// highest sequence of all spans nothing and is refused.
    pub fn criteria(&self) -> (r: Result<SelectionCriteria, SelectionError>)
        ensures
            match *self {
                Range::All => r matches Ok(c) && c.lower() == i64::MIN && c.upper() == i64::MAX,
                Range::StartWith { from } => if from@ < i64::MAX {
                    r matches Ok(c) && c.lower() == from@ && c.upper() == i64::MAX
                } else {
                    r.is_err()
                },
            },
    {
        match self {
            Range::All => Ok(SelectionCriteria::latest()),
            Range::StartWith { from } => SelectionCriteria::new(from.value(), i64::MAX),
        }
    }
}

/// Whether `parts` are the entries of `journal`, one for one and in order,
/// each with a slot registered on `side` under the entry's registry key.
pub open spec fn mirrors(parts: Seq<FixtureParts>, journal: Seq<JournalPayload>, side: ResolveMapper) -> bool {
    &&& parts.len() == journal.len()
    &&& forall|i: int|
        0 <= i < parts.len() ==> {
            &&& (#[trigger] parts[i]).side == Side::Event
            &&& parts[i].seq == journal[i].seq
            &&& parts[i].bytes == journal[i].bytes
            &&& resolves(side, journal[i].key@, parts[i].refs)
        }
}

/// The place of the first entry of `journal` whose registry key has no slot
/// on `side`; the length of the journal where every key has one.
pub open spec fn first_unknown(journal: Seq<JournalPayload>, side: ResolveMapper) -> int
    decreases journal.len(),
{
    if journal.len() == 0 {
        0
    } else if !side.knows(journal[0].key@) {
        0
    } else {
        1 + first_unknown(journal.skip(1), side)
    }
}

/// `first_unknown` is a place in the journal or its length, no entry before
/// it is unknown, and the one at it is.
pub proof fn lemma_first_unknown(journal: Seq<JournalPayload>, side: ResolveMapper)
    ensures
        0 <= first_unknown(journal, side) <= journal.len(),
        forall|i: int|
            0 <= i < first_unknown(journal, side) ==> side.knows((#[trigger] journal[i]).key@),
        first_unknown(journal, side) < journal.len() ==> !side.knows(
            journal[first_unknown(journal, side)].key@,
        ),
    decreases journal.len(),
{
    if journal.len() > 0 && side.knows(journal[0].key@) {
        let rest = journal.skip(1);
        lemma_first_unknown(rest, side);
        assert forall|i: int| 0 <= i < first_unknown(journal, side) implies side.knows(
            (#[trigger] journal[i]).key@,
        ) by {
            if i > 0 {
                assert(journal[i] == rest[i - 1]);
            }
        }
        if first_unknown(journal, side) < journal.len() {
            assert(journal[first_unknown(journal, side)] == rest[first_unknown(rest, side)]);
        }
    }
}

/// The same entries, last first.
fn reversed(entries: Vec<JournalPayload>) -> (r: Vec<JournalPayload>)
    ensures
        r@.len() == entries@.len(),
        forall|k: int| 0 <= k < r@.len() ==> r@[k] == entries@[entries@.len() - 1 - k],
{
    let ghost given = entries@;
    let mut entries = entries;
    let mut turned: Vec<JournalPayload> = Vec::new();
    while entries.len() > 0
        invariant
            entries@.len() + turned@.len() == given.len(),
            forall|k: int| 0 <= k < entries@.len() ==> entries@[k] == given[k],
            forall|k: int| 0 <= k < turned@.len() ==> turned@[k] == given[given.len() - 1 - k],
        decreases entries@.len(),
    {
        let last = entries.pop().unwrap();
        turned.push(last);
    }
    turned
}

/// The journal entries to replay, if there are any.
#[derive(Debug)]
pub struct FixtureJournal(Option<Vec<FixtureParts>>);

impl FixtureJournal {
    /// The entries that this journal stands for, if it stands for any.
    pub closed spec fn entries(&self) -> Option<Seq<FixtureParts>> {
        match self.0 {
            Some(parts) => Some(parts@),
            None => None,
        }
    }

    /// The parts that this journal adds to a replay.
    pub open spec fn parts(&self) -> Seq<FixtureParts> {
        match self.entries() {
            Some(parts) => parts,
            None => Seq::empty(),
        }
    }

    /// Prepares what was read of the journal for replay.
    ///
    /// An actor type that has registered no event type recovers from no
    /// journal, whatever storage holds. Otherwise every entry is taken, in
    /// ascending order, with the slot registered under its registry key. The
    /// first entry whose key has no slot ends the recovery.
    pub fn create(mapping: &RecoverMapping, journal: Option<Journal>) -> (r: Result<
        FixtureJournal,
        RecoveryError,
    >)
        ensures
            match journal {
                Some(journal) => if mapping.spec_event()@.dom() =~= Set::empty() {
                    r matches Ok(fixture) && fixture.entries().is_none()
                } else if first_unknown(journal@, mapping.spec_event()) == journal@.len() {
                    r matches Ok(fixture) && fixture.entries() matches Some(parts) && mirrors(
                        parts,
                        journal@,
                        mapping.spec_event(),
                    )
                } else {
                    r matches Err(RecoveryError::NotCompatible(key)) && key
                        == journal@[first_unknown(journal@, mapping.spec_event())].key
                },
                None => r matches Ok(fixture) && fixture.entries().is_none(),
            },
    {
        if mapping.is_event_map_empty() {
            return Ok(FixtureJournal::disable());
        }
        let taken = match journal {
            Some(taken) => taken,
            None => {
                return Ok(FixtureJournal(None));
            },
        };
        let ghost read = taken@;
        let ghost side = mapping.spec_event();
        proof {
            lemma_first_unknown(read, side);
        }
        // Entries are taken from the back of `rest`, which holds them highest
        // sequence first.
        let mut rest = reversed(taken.into_vec());
        let mut fixtures: Vec<FixtureParts> = Vec::new();
        let total = rest.len();
        let mut i: usize = 0;
        while i < total
            invariant
                journal matches Some(j) && j@ == read,
                !(mapping.spec_event()@.dom() =~= Set::empty()),
                total == read.len(),
                0 <= i <= total,
                rest@.len() == total - i,
                forall|k: int|
                    0 <= k < rest@.len() ==> rest@[k] == read[read.len() - 1 - k],
                side == mapping.spec_event(),
                mirrors(fixtures@, read.take(i as int), side),
                i <= first_unknown(read, side) <= read.len(),
                forall|k: int|
                    0 <= k < first_unknown(read, side) ==> side.knows((#[trigger] read[k]).key@),
                first_unknown(read, side) < read.len() ==> !side.knows(
                    read[first_unknown(read, side)].key@,
                ),
            decreases total - i,
        {
            let raw = rest.pop().unwrap();
            assert(raw == read[i as int]);
            match mapping.event().find(raw.key()) {
                Some(slot) => {
                    let ghost before = fixtures@;
                    fixtures.push(FixtureParts::new(Side::Event, raw.seq, raw.bytes, slot));
                    proof {
                        assert(i < first_unknown(read, side));
                        assert forall|k: int| 0 <= k < fixtures@.len() implies {
                            &&& (#[trigger] fixtures@[k]).side == Side::Event
                            &&& fixtures@[k].seq == read.take(i + 1)[k].seq
                            &&& fixtures@[k].bytes == read.take(i + 1)[k].bytes
                            &&& resolves(side, read.take(i + 1)[k].key@, fixtures@[k].refs)
                        } by {
                            if k < i {
                                assert(fixtures@[k] == before[k]);
                                assert(read.take(i as int)[k] == read.take(i + 1)[k]);
                            }
                        }
                    }
                },
                None => {
                    assert(i == first_unknown(read, side));
                    return Err(RecoveryError::NotCompatible(raw.key()));
                },
            }
            i = i + 1;
        }
        assert(read.take(i as int) =~= read);
        Ok(FixtureJournal(Some(fixtures)))
    }

    /// The fixture that recovers from no journal.
    pub fn disable() -> (r: FixtureJournal)
        ensures
            r.entries().is_none(),
    {
        FixtureJournal(None)
    }

    pub fn is_disabled(&self) -> (r: bool)
        ensures
            r == self.entries().is_none(),
    {
        self.0.is_none()
    }

    /// The parts, given up for replay.
    pub fn into_parts(self) -> (r: Vec<FixtureParts>)
        ensures
            r@ == self.parts(),
    {
        match self.0 {
            Some(parts) => parts,
            None => Vec::new(),
        }
    }
}

} // verus!
