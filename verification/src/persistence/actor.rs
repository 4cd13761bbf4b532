//! The write path of a persistent actor.
//!
//! A write goes to a provider, which may fail. A failed write is tried again
//! up to `RETRIES` times; after that the write is given up, and the actor
//! goes on as if it had succeeded. Persisting an event moves the context's
//! sequence up by one once the write is over; taking a snapshot leaves it.

use vstd::prelude::*;
use crate::actor::context::ActorContext;
use crate::persistence::context::PersistContext;
use crate::persistence::errors::{PersistError, SerializeError};
use crate::persistence::extension::{JournalPayload, SnapShotPayload};
use crate::persistence::identifier::PersistenceId;
use crate::persistence::journal::Event;
use crate::persistence::mapping::Side;
use crate::persistence::snapshot::SnapShot;

verus! {

/// How many times a failed write is tried again.
pub const RETRIES: u32 = 5;

/// What to do after an attempt.
#[derive(Debug, Clone, Copy, PartialEq, Eq, Structural)]
pub enum Verdict {
    /// The attempt failed: write again.
    Retry,
    /// The write is over: it succeeded.
    Done,
    /// The write is over: it failed once more than it is tried again, and is
    /// given up. The actor goes on as after a success.
    GivenUp,
}

/// One write under way: which side of storage it goes to and how often it
/// has failed.
#[derive(Debug, Clone, Copy)]
pub struct Write {
    subject: Side,
    failures: u32,
    over: bool,
}

impl Write {
    pub closed spec fn subject(&self) -> Side {
        self.subject
    }

    /// The number of attempts that failed.
    pub closed spec fn failures(&self) -> nat {
        self.failures as nat
    }

    /// Whether the write is over.
    pub closed spec fn over(&self) -> bool {
        self.over
    }

    #[verifier::type_invariant]
    closed spec fn bounded(&self) -> bool {
        self.failures <= RETRIES
    }

    /// The write of an event, before its first attempt.
    pub fn persist() -> (r: Write)
        ensures
            r.subject() == Side::Event,
            r.failures() == 0,
            !r.over(),
    {
        Write { subject: Side::Event, failures: 0, over: false }
    }

    /// The write of a snapshot, before its first attempt.
    pub fn snapshot() -> (r: Write)
        ensures
            r.subject() == Side::SnapShot,
            r.failures() == 0,
            !r.over(),
    {
        Write { subject: Side::SnapShot, failures: 0, over: false }
    }

    /// The journal entry that one attempt at persisting `event` writes: it
    /// stands at the sequence that the context stands at, and holds the
    /// bytes that the event gave for itself. An event that gives none fails
    /// the attempt.
    pub fn entry<E: Event>(event: &E, ctx: &PersistContext) -> (r: Result<
        JournalPayload,
        PersistError,
    >)
        ensures
            match r {
                Ok(payload) => payload.seq == ctx.position() && payload.key == E::REGISTRY_KEY
                    && call_ensures(
                    E::as_bytes,
                    (event,),
                    Ok::<Vec<u8>, SerializeError>(payload.bytes),
                ),
                Err(e) => exists|cause: SerializeError|
                    #[trigger] call_ensures(
                        E::as_bytes,
                        (event,),
                        Err::<Vec<u8>, SerializeError>(cause),
                    ) && e == PersistError::Serialization(cause.0),
            },
    {
        JournalPayload::of(*ctx.sequence(), event)
    }

    /// The payload that one attempt at storing `snapshot` writes: it is
    /// taken of the stream `id` at the sequence that the context stands at,
    /// and holds the bytes that the snapshot gave for itself. A snapshot
    /// that gives none fails the attempt.
    pub fn image<S: SnapShot>(id: &PersistenceId, snapshot: &S, ctx: &PersistContext) -> (r:
        Result<SnapShotPayload, PersistError>)
        ensures
            match r {
                Ok(payload) => payload.id@ == id@ && payload.seq == ctx.position() && payload.key
                    == S::REGISTRY_KEY && call_ensures(
                    S::as_bytes,
                    (snapshot,),
                    Ok::<Vec<u8>, SerializeError>(payload.bytes),
                ),
                Err(e) => exists|cause: SerializeError|
                    #[trigger] call_ensures(
                        S::as_bytes,
                        (snapshot,),
                        Err::<Vec<u8>, SerializeError>(cause),
                    ) && e == PersistError::Serialization(cause.0),
            },
    {
        SnapShotPayload::of(id, *ctx.sequence(), snapshot)
    }

    /// Whether an attempt that ended as `failed` says, after `failures`
    /// earlier failures, ends the write.
    pub open spec fn ends(failures: nat, failed: bool) -> bool {
        !failed || failures >= RETRIES
    }

    /// How far the sequence moves when a write of `subject` is over.
    pub open spec fn step(subject: Side) -> int {
        match subject {
            Side::Event => 1,
            Side::SnapShot => 0,
        }
    }

    /// Takes the outcome of one attempt.
    ///
    /// A success ends the write, and so does the failure that follows
    /// `RETRIES` others: then the write is given up. When the write of an
    /// event ends, either way, the context's sequence moves up by one. Every
    /// other failure asks for one more attempt and moves nothing. A write
    /// that is over stays over, and nothing moves again.
    pub fn record<E>(&mut self, outcome: &Result<(), E>, ctx: &mut PersistContext) -> (r: Verdict)
        requires
            old(self).subject() == Side::Event && !old(self).over() ==> old(ctx).position()@
                < i64::MAX,
        ensures
            final(self).subject() == old(self).subject(),
            final(ctx).actor() == old(ctx).actor(),
            final(ctx).running() == old(ctx).running(),
            old(self).failures() <= RETRIES,
            final(self).failures() <= RETRIES,
            old(self).over() ==> {
                &&& r == Verdict::Done
                &&& *final(self) == *old(self)
                &&& final(ctx).position() == old(ctx).position()
            },
            !old(self).over() && Write::ends(old(self).failures(), outcome.is_err()) ==> {
                &&& r == if outcome.is_err() {
                    Verdict::GivenUp
                } else {
                    Verdict::Done
                }
                &&& final(self).over()
                &&& final(ctx).position()@ == old(ctx).position()@ + Write::step(
                    old(self).subject(),
                )
            },
            !old(self).over() && !Write::ends(old(self).failures(), outcome.is_err()) ==> {
                &&& r == Verdict::Retry
                &&& !final(self).over()
                &&& final(self).failures() == old(self).failures() + 1
                &&& final(ctx).position() == old(ctx).position()
            },
    {
        proof {
            use_type_invariant(&*self);
        }
        if self.over {
            return Verdict::Done;
        }
        if outcome.is_err() && self.failures < RETRIES {
            self.failures = self.failures + 1;
            return Verdict::Retry;
        }
        self.over = true;
        match self.subject {
            Side::Event => {
                ctx.mut_sequence().incr();
            },
            Side::SnapShot => {},
        }
        if outcome.is_err() {
            Verdict::GivenUp
        } else {
            Verdict::Done
        }
    }
}

/// Whether a write that has failed `failures` times and is `over` or not is
/// over after the attempts `attempts`, each `true` where it failed.
pub open spec fn over_after(failures: nat, over: bool, attempts: Seq<bool>) -> bool
    decreases attempts.len(),
{
    if over {
        true
    } else if attempts.len() == 0 {
        false
    } else if Write::ends(failures, attempts[0]) {
        true
    } else {
        over_after(failures + 1, false, attempts.skip(1))
    }
}

/// Where the sequence stands after those attempts, for a write of `subject`
/// that found it at `position`.
pub open spec fn position_after(
    subject: Side,
    failures: nat,
    over: bool,
    position: int,
    attempts: Seq<bool>,
) -> int
    decreases attempts.len(),
{
    if over || attempts.len() == 0 {
        position
    } else if Write::ends(failures, attempts[0]) {
        position + Write::step(subject)
    } else {
        position_after(subject, failures + 1, false, position, attempts.skip(1))
    }
}

/// However the attempts at a write go, the sequence stays where it was until
/// the write is over, and then stands where the write's subject puts it: one
/// up for an event, unmoved for a snapshot. A success ends the write, and so
/// does the attempt after `RETRIES` retries.
pub proof fn lemma_write_moves_once(
    subject: Side,
    failures: nat,
    position: int,
    attempts: Seq<bool>,
)
    requires
        failures <= RETRIES,
    ensures
        over_after(failures, false, attempts) ==> position_after(
            subject,
            failures,
            false,
            position,
            attempts,
        ) == position + Write::step(subject),
        !over_after(failures, false, attempts) ==> position_after(
            subject,
            failures,
            false,
            position,
            attempts,
        ) == position,
        (exists|i: int| 0 <= i < attempts.len() && !attempts[i]) ==> over_after(
            failures,
            false,
            attempts,
        ),
        failures + attempts.len() > RETRIES ==> over_after(failures, false, attempts),
    decreases attempts.len(),
{
    if attempts.len() > 0 && !Write::ends(failures, attempts[0]) {
        let rest = attempts.skip(1);
        lemma_write_moves_once(subject, failures + 1, position, rest);
        if exists|i: int| 0 <= i < attempts.len() && !attempts[i] {
            let i = choose|i: int| 0 <= i < attempts.len() && !attempts[i];
            assert(!rest[i - 1]);
        }
    }
}

/// After a persist that is over, the context's sequence has advanced by
/// exactly one.
pub proof fn lemma_persist_advances_by_one(position: int, attempts: Seq<bool>)
    requires
        over_after(0, false, attempts),
    ensures
        position_after(Side::Event, 0, false, position, attempts) == position + 1,
{
    lemma_write_moves_once(Side::Event, 0, position, attempts);
}

} // verus!
