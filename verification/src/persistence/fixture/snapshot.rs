//! The snapshot of a fixture.

use vstd::prelude::*;
use crate::persistence::errors::RecoveryError;
use crate::persistence::extension::SnapShotPayload;
use crate::persistence::fixture::journal::Range;
use crate::persistence::fixture::{resolves, FixtureParts};
use crate::persistence::identifier::SequenceId;
use crate::persistence::mapping::{RecoverMapping, Side};

verus! {

/// The snapshot to replay first, if there is one.
#[derive(Debug)]
pub struct FixtureSnapShot(Option<FixtureParts>);

impl FixtureSnapShot {
    /// The part that this snapshot stands for, if there is one.
    pub closed spec fn part(&self) -> Option<FixtureParts> {
        self.0
    }

    /// The parts that this snapshot adds to a replay: one or none.
    pub open spec fn parts(&self) -> Seq<FixtureParts> {
        match self.part() {
            Some(part) => seq![part],
            None => Seq::empty(),
        }
    }

    /// Prepares the latest stored snapshot for replay.
    ///
    /// An actor type that has registered no snapshot type recovers from none,
    /// whatever storage holds. Otherwise a stored snapshot is taken with the
    /// slot registered under its registry key, and refused where no slot is.
    pub fn create(mapping: &RecoverMapping, latest: Option<SnapShotPayload>) -> (r: Result<
        FixtureSnapShot,
        RecoveryError,
    >)
        ensures
            match latest {
                Some(payload) => if mapping.spec_snapshot()@.dom() =~= Set::empty() {
                    r matches Ok(fixture) && fixture.part().is_none()
                } else if mapping.spec_snapshot().knows(payload.key@) {
                    r matches Ok(fixture) && fixture.part() matches Some(part) && part.side
                        == Side::SnapShot && part.seq == payload.seq && part.bytes
                        == payload.bytes && resolves(
                        mapping.spec_snapshot(),
                        payload.key@,
                        part.refs,
                    )
                } else {
                    r matches Err(RecoveryError::NotCompatible(key)) && key == payload.key
                },
                None => r matches Ok(fixture) && fixture.part().is_none(),
            },
    {
        if mapping.is_snapshot_map_empty() {
            return Ok(FixtureSnapShot::disable());
        }
        let payload = match latest {
            Some(payload) => payload,
            None => {
                return Ok(FixtureSnapShot(None));
            },
        };
        match mapping.snapshot().find(payload.key()) {
            Some(slot) => Ok(
                FixtureSnapShot(
                    Some(FixtureParts::new(Side::SnapShot, payload.seq, payload.bytes, slot)),
                ),
            ),
            None => Err(RecoveryError::NotCompatible(payload.key())),
        }
    }

    /// The sequence under which the latest snapshot of a stream is looked
    /// up: the highest of all, so that whatever is stored lies at or below
    /// it.
    pub fn latest() -> (r: SequenceId)
        ensures
            r@ == i64::MAX,
    {
        SequenceId::max()
    }

    /// The fixture that recovers from no snapshot.
    pub fn disable() -> (r: FixtureSnapShot)
        ensures
            r.part().is_none(),
    {
        FixtureSnapShot(None)
    }

    pub fn is_disabled(&self) -> (r: bool)
        ensures
            r == self.part().is_none(),
    {
        self.0.is_none()
    }

    /// The range of the journal to replay on top of this snapshot: all of it
    /// where there is no snapshot, else from the snapshot's sequence on.
    pub fn range(&self) -> (r: Range)
        ensures
            match self.part() {
                Some(part) => r == (Range::StartWith { from: part.seq }),
                None => r == Range::All,
            },
    {
        match &self.0 {
            Some(part) => Range::StartWith { from: part.seq },
            None => Range::All,
        }
    }

    /// The parts, given up for replay.
    pub fn into_parts(self) -> (r: Vec<FixtureParts>)
        ensures
            r@ == self.parts(),
    {
        let mut parts = Vec::new();
        match self.0 {
            Some(part) => {
                parts.push(part);
            },
            None => {},
        }
        assert(parts@ =~= self.parts());
        parts
    }
}

} // verus!
