use std::collections::HashMap;

use lutetium::actor::ActorContext;
use lutetium::identifier::{ActorId, IntoActorId, ToActorId};
use lutetium::persistence::identifier::{IntoPersistenceId, ToPersistenceId};
use lutetium::system::ExtensionMissingError;
use lutetium::persistence::actor::{Verdict, Write, RETRIES};
use lutetium::persistence::errors::{DeserializeError, PersistError, RecoveryError, SerializeError};
use lutetium::persistence::extension::{
    journal_protocol, snapshot_protocol, Journal, JournalPayload, SnapShotPayload,
};
use lutetium::persistence::fixture::{Fixture, FixtureJournal, FixtureSnapShot, Range};
use lutetium::persistence::identifier::{PersistenceId, SequenceId, Version};
use lutetium::persistence::mapping::{RecoverMapping, Side};
use lutetium::persistence::recovery::{EventResolver, SnapShotResolver};
use lutetium::persistence::system::spawn_with_recovery;
use lutetium::persistence::{Event, PersistContext, SelectionCriteria, SelectionError, SnapShot};
use lutetium::errors::ActorError;

#[derive(Debug, Clone, PartialEq)]
struct Store {
    data: HashMap<String, String>,
}

#[derive(Debug, Clone, PartialEq)]
enum Change {
    Added(String, String),
    Removed(String),
}

fn pairs(text: &str) -> Vec<(String, String)> {
    text.split(';')
        .filter(|pair| !pair.is_empty())
        .map(|pair| {
            let (k, v) = pair.split_once('=').unwrap();
            (k.to_string(), v.to_string())
        })
        .collect()
}

impl SnapShot for Store {
    const REGISTRY_KEY: &'static str = "store";

    fn as_bytes(&self) -> Result<Vec<u8>, SerializeError> {
        let mut keys: Vec<&String> = self.data.keys().collect();
        keys.sort();
        let mut text = String::new();
        for k in keys {
            if k.contains('=') || k.contains(';') {
                return Err(SerializeError(format!("key `{}` cannot be stored", k)));
            }
            text.push_str(&format!("{}={};", k, self.data[k]));
        }
        Ok(text.into_bytes())
    }

    fn from_bytes(bin: &[u8]) -> Result<Self, DeserializeError> {
        match String::from_utf8(bin.to_vec()) {
            Ok(text) => Ok(Store { data: pairs(&text).into_iter().collect() }),
            Err(e) => Err(DeserializeError(e.to_string())),
        }
    }
}

impl Event for Change {
    const REGISTRY_KEY: &'static str = "change";

    fn as_bytes(&self) -> Result<Vec<u8>, SerializeError> {
        Ok(match self {
            Change::Added(k, v) => format!("+{}={}", k, v).into_bytes(),
            Change::Removed(k) => format!("-{}", k).into_bytes(),
        })
    }

    fn from_bytes(bytes: &[u8]) -> Result<Self, DeserializeError> {
        let text = String::from_utf8(bytes.to_vec()).map_err(|e| DeserializeError(e.to_string()))?;
        if let Some(rest) = text.strip_prefix('+') {
            match rest.split_once('=') {
                Some((k, v)) => Ok(Change::Added(k.to_string(), v.to_string())),
                None => Err(DeserializeError("an addition without a value".to_string())),
            }
        } else if let Some(rest) = text.strip_prefix('-') {
            Ok(Change::Removed(rest.to_string()))
        } else {
            Err(DeserializeError("neither an addition nor a removal".to_string()))
        }
    }
}

impl Store {
    fn recover_snapshot(&mut self, snapshot: Store) {
        self.data = snapshot.data;
    }

    fn recover_journal(&mut self, event: Change) {
        match event {
            Change::Added(k, v) => {
                self.data.insert(k, v);
            }
            Change::Removed(k) => {
                self.data.remove(&k);
            }
        }
    }
}

fn mapping() -> (RecoverMapping, usize, usize) {
    let mut mapping = RecoverMapping::create();
    let snapshot = mapping.reg_snapshot::<Store>().unwrap();
    let event = mapping.reg_event::<Change>().unwrap();
    (mapping, snapshot, event)
}

fn journal_of(changes: Vec<(i64, Change)>) -> Journal {
    let mut journal = Journal::new();
    for (seq, change) in changes {
        assert!(journal.insert(JournalPayload::of(SequenceId::new(seq), &change).unwrap()));
    }
    journal
}

/// Runs a replay the way a lifecycle does: every part goes to the resolver
/// of its side, and what the resolver returns is settled.
fn replay(fixture: Fixture, actor: &mut Store, ctx: &mut PersistContext) -> Result<Vec<i64>, RecoveryError> {
    let mut replay = fixture.apply();
    let mut applied = Vec::new();
    loop {
        let outcome = match replay.next() {
            None => break,
            Some(part) => {
                applied.push(part.seq.value());
                assert_eq!(part.refs, 0);
                match part.side {
                    Side::SnapShot => SnapShotResolver::<Store>::default()
                        .apply(&part.bytes)
                        .map(|snapshot| actor.recover_snapshot(snapshot)),
                    Side::Event => EventResolver::<Change>::default()
                        .apply(&part.bytes)
                        .map(|event| actor.recover_journal(event)),
                }
            }
        };
        replay.settle(outcome, ctx)?;
    }
    Ok(applied)
}

fn context(id: &str) -> PersistContext {
    PersistContext::track(ActorId::new(id.to_string()))
}

#[test]
fn select() {
    let criteria = SelectionCriteria::new(20, 60).unwrap();
    let mut selection = Vec::new();
    for i in 0..100 {
        let id = SequenceId::new(i);
        if criteria.matches(&id) {
            selection.push(i);
        }
    }

    assert_eq!(selection, (20..=60).collect::<Vec<i64>>());
}

#[test]
fn selection_is_refused_where_the_bounds_meet_or_cross() {
    assert_eq!(SelectionCriteria::new(5, 5).unwrap_err(), SelectionError);
    assert_eq!(SelectionCriteria::new(6, 5).unwrap_err(), SelectionError);
    assert_eq!(SelectionCriteria::new(i64::MAX, i64::MIN).unwrap_err(), SelectionError);
    assert_eq!(SelectionCriteria::new(i64::MAX, i64::MAX).unwrap_err(), SelectionError);
    let narrow = SelectionCriteria::new(4, 5).unwrap();
    assert_eq!(narrow.min(), SequenceId::new(4));
    assert_eq!(narrow.max(), SequenceId::new(5));
    assert!(narrow.matches(&SequenceId::new(4)));
    assert!(narrow.matches(&SequenceId::new(5)));
    assert!(!narrow.matches(&SequenceId::new(3)));
    assert!(!narrow.matches(&SequenceId::new(6)));
    assert!(SelectionCriteria::new(i64::MIN, i64::MAX).is_ok());
    assert!(SelectionCriteria::new(-1, 0).is_ok());
}

#[test]
fn a_selection_spells_itself_out() {
    let criteria = SelectionCriteria::new(20, 60).unwrap();
    assert_eq!(criteria.to_string(), "select { min: SequenceId(20), max: SequenceId(60) }");
    assert_eq!(
        SelectionCriteria::new(-5, i64::MAX).unwrap().to_string(),
        "select { min: SequenceId(-5), max: SequenceId(9223372036854775807) }"
    );
    assert_eq!(format!("{:?}", SequenceId::new(20)), "SequenceId(20)");
}

#[test]
fn latest_selects_everything() {
    let all = SelectionCriteria::latest();
    assert_eq!(all.min(), SequenceId::min());
    assert_eq!(all.max(), SequenceId::max());
    assert!(all.matches(&SequenceId::new(i64::MIN)));
    assert!(all.matches(&SequenceId::new(0)));
    assert!(all.matches(&SequenceId::new(i64::MAX)));
}

#[test]
fn selection_error_says_what_it_is() {
    assert_eq!(
        SelectionError.to_string(),
        "It is possible that the selection is incorrectly specified."
    );
}

#[test]
fn sequence_starts_at_zero_and_moves_by_one() {
    let mut seq = SequenceId::default();
    assert_eq!(seq, SequenceId::new(0));
    seq.incr();
    assert_eq!(seq.value(), 1);
    seq.incr();
    assert_eq!(i64::from(seq), 2);
    seq.assign(SequenceId::new(40));
    assert_eq!(seq, SequenceId::new(40));
    seq.incr();
    assert_eq!(seq.value(), 41);
    assert_eq!(SequenceId::min().value(), i64::MIN);
    assert_eq!(SequenceId::max().value(), i64::MAX);
    assert!(SequenceId::new(1) < SequenceId::new(2));
}

#[test]
fn identifiers_keep_their_text() {
    let id = PersistenceId::new("stream-1".to_string());
    assert_eq!(id.as_str(), "stream-1");
    assert_eq!(id.to_string(), "stream-1");
    assert_eq!(id.clone(), id);
    let actor = ActorId::from(id.clone());
    assert_eq!(actor.as_str(), "stream-1");
    let back = PersistenceId::from(actor);
    assert_eq!(back, id);
    assert_ne!(back, PersistenceId::new("stream-2".to_string()));
    let version = Version::new("0.0.1");
    assert_eq!(version.as_str(), "0.0.1");
    assert_eq!(version, Version::new("0.0.1"));
}

#[test]
fn identifiers_come_from_what_can_be_displayed() {
    assert_eq!(42.to_persistence_id().as_str(), "42");
    assert_eq!("abc".into_persistence_id().as_str(), "abc");
    assert_eq!(7u8.to_actor_id().to_persistence_id().as_str(), "7");
    assert_eq!(PersistenceId::new("p".to_string()).to_actor_id().as_str(), "p");
    assert_eq!(PersistenceId::new("q".to_string()).into_actor_id().as_str(), "q");
}

#[test]
fn snapshot_round_trip() {
    let mut data = HashMap::new();
    data.insert("a".to_string(), "1".to_string());
    let store = Store { data };
    let id = PersistenceId::new("stream".to_string());
    let payload = SnapShotPayload::of(&id, SequenceId::new(5), &store).unwrap();
    assert_eq!(payload.id(), &id);
    assert_eq!(payload.key(), "store");
    assert_eq!(payload.seq, SequenceId::new(5));
    assert_eq!(payload.bytes(), b"a=1;");
    let copy = payload.clone();
    assert_eq!(copy.bytes(), payload.bytes());
    let loaded = SnapShotResolver::<Store>::default().apply(payload.bytes()).unwrap();
    assert_eq!(loaded, store);
}

#[test]
fn event_round_trip() {
    for change in [
        Change::Added("k".to_string(), "v".to_string()),
        Change::Removed("k".to_string()),
        Change::Added(String::new(), String::new()),
    ] {
        let payload = JournalPayload::of(SequenceId::new(1), &change).unwrap();
        assert_eq!(payload.key(), "change");
        assert_eq!(payload.seq, SequenceId::new(1));
        assert_eq!(payload.bytes, change.as_bytes().unwrap());
        let loaded = EventResolver::<Change>::default().apply(&payload.bytes).unwrap();
        assert_eq!(loaded, change);
    }
}

#[test]
fn what_cannot_be_stored_is_a_serialization_error() {
    let mut data = HashMap::new();
    data.insert("a=b".to_string(), "1".to_string());
    let id = PersistenceId::new("stream".to_string());
    match SnapShotPayload::of(&id, SequenceId::new(0), &Store { data }) {
        Err(PersistError::Serialization(text)) => assert_eq!(text, "key `a=b` cannot be stored"),
        other => panic!("{:?}", other),
    }
}

#[test]
fn what_cannot_be_loaded_is_a_deserialization_error() {
    match EventResolver::<Change>::default().apply(b"?") {
        Err(RecoveryError::Deserialization(text)) => {
            assert_eq!(text, "neither an addition nor a removal")
        }
        other => panic!("{:?}", other),
    }
    assert!(matches!(
        SnapShotResolver::<Store>::default().apply(&[0xff]),
        Err(RecoveryError::Deserialization(_))
    ));
}

#[test]
fn journal_keeps_its_entries_in_order_of_sequence() {
    let mut journal = Journal::new();
    assert!(journal.is_empty());
    for seq in [5, 1, 9, 3, 7, -2] {
        assert!(journal.insert(JournalPayload { seq: SequenceId::new(seq), key: "k", bytes: vec![seq as u8] }));
    }
    assert_eq!(journal.len(), 6);
    assert!(!journal.is_empty());
    assert_eq!(journal.get(0).unwrap().seq, SequenceId::new(-2));
    assert_eq!(journal.get(5).unwrap().seq, SequenceId::new(9));
    assert!(journal.get(6).is_none());
    let seqs: Vec<i64> = journal.into_vec().iter().map(|p| p.seq.value()).collect();
    assert_eq!(seqs, vec![-2, 1, 3, 5, 7, 9]);
}

#[test]
fn journal_keeps_the_first_entry_of_a_sequence() {
    let mut journal = Journal::new();
    assert!(journal.insert(JournalPayload { seq: SequenceId::new(1), key: "k", bytes: vec![1] }));
    assert!(journal.insert(JournalPayload { seq: SequenceId::new(2), key: "k", bytes: vec![2] }));
    assert!(!journal.insert(JournalPayload { seq: SequenceId::new(1), key: "k", bytes: vec![3] }));
    assert!(!journal.insert(JournalPayload { seq: SequenceId::new(2), key: "other", bytes: vec![4] }));
    assert_eq!(journal.len(), 2);
    assert_eq!(journal.get(0).unwrap().bytes, vec![1]);
    assert_eq!(journal.get(1).unwrap().bytes, vec![2]);
    assert_eq!(journal.get(1).unwrap().key(), "k");
}

#[test]
fn payloads_are_ordered_by_sequence() {
    let a = JournalPayload { seq: SequenceId::new(1), key: "z", bytes: vec![9] };
    let b = JournalPayload { seq: SequenceId::new(2), key: "a", bytes: vec![0] };
    assert!(a < b);
    assert!(b > a);
    assert!(a <= a.clone());
    assert_eq!(a.partial_cmp(&b), Some(std::cmp::Ordering::Less));
    assert_eq!(b.partial_cmp(&a), Some(std::cmp::Ordering::Greater));
    let c = JournalPayload { seq: SequenceId::new(1), key: "other", bytes: vec![] };
    assert_eq!(a.partial_cmp(&c), Some(std::cmp::Ordering::Equal));
}

#[test]
fn range_gives_the_selection_to_read() {
    let all = Range::All.criteria().unwrap();
    assert_eq!(all.min(), SequenceId::min());
    assert_eq!(all.max(), SequenceId::max());
    let from = Range::StartWith { from: SequenceId::new(5) }.criteria().unwrap();
    assert_eq!(from.min(), SequenceId::new(5));
    assert_eq!(from.max(), SequenceId::max());
    assert!(from.matches(&SequenceId::new(5)));
    assert!(!from.matches(&SequenceId::new(4)));
    assert_eq!(Range::StartWith { from: SequenceId::max() }.criteria().unwrap_err(), SelectionError);
}

#[test]
fn recovery_without_registrations_reads_nothing() {
    let mapping = RecoverMapping::create();
    assert!(mapping.is_snapshot_map_empty());
    assert!(mapping.is_event_map_empty());
    let id = PersistenceId::new("s".to_string());
    let stored = SnapShotPayload { id, key: "unknown", seq: SequenceId::new(3), bytes: vec![] };
    let snapshot = FixtureSnapShot::create(&mapping, Some(stored)).unwrap();
    assert!(snapshot.is_disabled());
    let journal = journal_of(vec![(1, Change::Removed("k".to_string()))]);
    let journal = FixtureJournal::create(&mapping, Some(journal)).unwrap();
    assert!(journal.is_disabled());
    let mut ctx = context("s");
    let mut actor = Store { data: HashMap::new() };
    assert_eq!(replay(Fixture::new(snapshot, journal), &mut actor, &mut ctx).unwrap(), Vec::<i64>::new());
    assert_eq!(ctx.sequence().value(), 0);
}

#[test]
fn recovery_from_nothing_stored_is_disabled() {
    let (mapping, _, _) = mapping();
    assert!(!mapping.is_snapshot_map_empty());
    assert!(!mapping.is_event_map_empty());
    let snapshot = FixtureSnapShot::create(&mapping, None).unwrap();
    assert!(snapshot.is_disabled());
    assert_eq!(snapshot.range(), Range::All);
    assert!(FixtureJournal::create(&mapping, None).unwrap().is_disabled());
    assert!(FixtureSnapShot::disable().is_disabled());
    assert!(FixtureJournal::disable().is_disabled());
    let empty = FixtureJournal::create(&mapping, Some(Journal::new())).unwrap();
    assert!(!empty.is_disabled());
    assert!(empty.into_parts().is_empty());
}

#[test]
fn recovery_replays_the_journal_in_order() {
    let (mapping, _, event) = mapping();
    let snapshot = FixtureSnapShot::create(&mapping, None).unwrap();
    assert_eq!(snapshot.range().criteria().unwrap().min(), SequenceId::min());
    let journal = journal_of(vec![
        (2, Change::Removed("k".to_string())),
        (1, Change::Added("k".to_string(), "v".to_string())),
    ]);
    let journal = FixtureJournal::create(&mapping, Some(journal)).unwrap();
    let fixture = Fixture::new(snapshot, journal);
    let mut ctx = context("s");
    let mut actor = Store { data: HashMap::new() };
    assert_eq!(ctx.sequence().value(), 0);
    let applied = replay(fixture, &mut actor, &mut ctx).unwrap();
    assert_eq!(applied, vec![1, 2]);
    assert!(actor.data.is_empty());
    assert_eq!(ctx.sequence().value(), 2);
    assert_eq!(event, 0);

    // The next event is written at the sequence that the context stands at,
    // and the context moves one up when the write is over.
    let change = Change::Added("k2".to_string(), "v2".to_string());
    let entry = Write::entry(&change, &ctx).unwrap();
    assert_eq!(entry.seq, SequenceId::new(2));
    assert_eq!(entry.key(), "change");
    let mut write = Write::persist();
    assert_eq!(write.record::<PersistError>(&Ok(()), &mut ctx), Verdict::Done);
    actor.recover_journal(change);
    assert_eq!(ctx.sequence().value(), 3);
    let mut expected = HashMap::new();
    expected.insert("k2".to_string(), "v2".to_string());
    assert_eq!(actor.data, expected);
}

#[test]
fn recovery_replays_the_snapshot_and_then_the_journal() {
    let (mapping, slot, _) = mapping();
    let mut data = HashMap::new();
    data.insert("a".to_string(), "1".to_string());
    let id = PersistenceId::new("s".to_string());
    let stored = SnapShotPayload::of(&id, SequenceId::new(5), &Store { data }).unwrap();
    let snapshot = FixtureSnapShot::create(&mapping, Some(stored)).unwrap();
    assert!(!snapshot.is_disabled());
    assert_eq!(snapshot.range(), Range::StartWith { from: SequenceId::new(5) });
    let criteria = snapshot.range().criteria().unwrap();
    assert_eq!(criteria.min(), SequenceId::new(5));
    assert_eq!(criteria.max(), SequenceId::max());
    let journal = journal_of(vec![(6, Change::Added("b".to_string(), "2".to_string()))]);
    let journal = FixtureJournal::create(&mapping, Some(journal)).unwrap();
    let mut ctx = context("s");
    let mut actor = Store { data: HashMap::new() };
    let applied = replay(Fixture::new(snapshot, journal), &mut actor, &mut ctx).unwrap();
    assert_eq!(applied, vec![5, 6]);
    let mut expected = HashMap::new();
    expected.insert("a".to_string(), "1".to_string());
    expected.insert("b".to_string(), "2".to_string());
    assert_eq!(actor.data, expected);
    assert_eq!(ctx.sequence().value(), 6);
    assert_eq!(slot, 0);
}

#[test]
fn recovery_from_a_snapshot_alone_stands_at_the_snapshot() {
    let (mapping, _, _) = mapping();
    let id = PersistenceId::new("s".to_string());
    let stored = SnapShotPayload::of(&id, SequenceId::new(9), &Store { data: HashMap::new() }).unwrap();
    let snapshot = FixtureSnapShot::create(&mapping, Some(stored)).unwrap();
    let parts = snapshot.into_parts();
    assert_eq!(parts.len(), 1);
    assert_eq!(parts[0].side, Side::SnapShot);
    assert_eq!(parts[0].seq, SequenceId::new(9));
    assert_eq!(parts[0].refs, 0);
    assert!(parts[0].bytes.is_empty());
}

#[test]
fn a_payload_without_resolver_is_not_compatible() {
    let (mapping, _, _) = mapping();
    let id = PersistenceId::new("s".to_string());
    let stored = SnapShotPayload { id, key: "elsewhere", seq: SequenceId::new(1), bytes: vec![] };
    match FixtureSnapShot::create(&mapping, Some(stored)) {
        Err(RecoveryError::NotCompatible(key)) => assert_eq!(key, "elsewhere"),
        other => panic!("{:?}", other),
    }
    let mut journal = journal_of(vec![(1, Change::Removed("k".to_string()))]);
    assert!(journal.insert(JournalPayload { seq: SequenceId::new(3), key: "later", bytes: vec![] }));
    assert!(journal.insert(JournalPayload { seq: SequenceId::new(2), key: "sooner", bytes: vec![] }));
    match FixtureJournal::create(&mapping, Some(journal)) {
        Err(RecoveryError::NotCompatible(key)) => assert_eq!(key, "sooner"),
        other => panic!("{:?}", other),
    }
}

#[test]
fn a_failed_part_ends_the_replay_where_it_stands() {
    let (mapping, _, _) = mapping();
    let mut journal = journal_of(vec![(1, Change::Added("k".to_string(), "v".to_string()))]);
    assert!(journal.insert(JournalPayload { seq: SequenceId::new(2), key: "change", bytes: b"?".to_vec() }));
    assert!(journal.insert(JournalPayload::of(SequenceId::new(3), &Change::Removed("k".to_string())).unwrap()));
    let journal = FixtureJournal::create(&mapping, Some(journal)).unwrap();
    let mut ctx = context("s");
    let mut actor = Store { data: HashMap::new() };
    let failed = replay(Fixture::new(FixtureSnapShot::disable(), journal), &mut actor, &mut ctx);
    assert!(matches!(failed, Err(RecoveryError::Deserialization(_))));
    assert_eq!(ctx.sequence().value(), 1);
    assert_eq!(actor.data.get("k"), Some(&"v".to_string()));
}

#[test]
fn settling_a_complete_replay_moves_nothing() {
    let fixture = Fixture::new(FixtureSnapShot::disable(), FixtureJournal::disable());
    let mut replay = fixture.apply();
    assert!(replay.next().is_none());
    let mut ctx = context("s");
    assert!(replay.settle::<RecoveryError>(Ok(()), &mut ctx).is_ok());
    assert_eq!(ctx.sequence().value(), 0);
    assert!(replay.next().is_none());
}

#[test]
fn persist_moves_the_sequence_by_one_however_the_write_goes() {
    let failed: Result<(), PersistError> = Err(PersistError::Selection);

    let mut ctx = context("s");
    let mut write = Write::persist();
    assert_eq!(write.record::<PersistError>(&Ok(()), &mut ctx), Verdict::Done);
    assert_eq!(ctx.sequence().value(), 1);
    assert_eq!(write.record::<PersistError>(&Ok(()), &mut ctx), Verdict::Done);
    assert_eq!(write.record(&failed, &mut ctx), Verdict::Done);
    assert_eq!(ctx.sequence().value(), 1);

    let mut write = Write::persist();
    for _ in 0..3 {
        assert_eq!(write.record(&failed, &mut ctx), Verdict::Retry);
        assert_eq!(ctx.sequence().value(), 1);
    }
    assert_eq!(write.record::<PersistError>(&Ok(()), &mut ctx), Verdict::Done);
    assert_eq!(ctx.sequence().value(), 2);

    let mut write = Write::persist();
    let mut attempts = 0;
    loop {
        attempts += 1;
        match write.record(&failed, &mut ctx) {
            Verdict::Retry => assert_eq!(ctx.sequence().value(), 2),
            Verdict::GivenUp => break,
            Verdict::Done => panic!("a write that never succeeded is not done"),
        }
    }
    assert_eq!(RETRIES, 5);
    assert_eq!(attempts, 6);
    assert_eq!(ctx.sequence().value(), 3);
    assert_eq!(write.record(&failed, &mut ctx), Verdict::Done);
    assert_eq!(ctx.sequence().value(), 3);
}

#[test]
fn snapshot_leaves_the_sequence() {
    let failed: Result<(), PersistError> = Err(PersistError::Serialization("no".to_string()));
    let mut ctx = context("s");
    ctx.mut_sequence().assign(SequenceId::new(7));
    let store = Store { data: HashMap::new() };
    let id = PersistenceId::new("s".to_string());
    let image = Write::image(&id, &store, &ctx).unwrap();
    assert_eq!(image.seq, SequenceId::new(7));
    assert_eq!(image.key(), "store");
    assert_eq!(image.id(), &id);
    let mut write = Write::snapshot();
    let mut attempts = 0;
    loop {
        attempts += 1;
        if write.record(&failed, &mut ctx) == Verdict::GivenUp {
            break;
        }
    }
    assert_eq!(attempts, 6);
    assert_eq!(ctx.sequence().value(), 7);
    let mut write = Write::snapshot();
    assert_eq!(write.record::<PersistError>(&Ok(()), &mut ctx), Verdict::Done);
    assert_eq!(ctx.sequence().value(), 7);
    assert_ne!(Side::Event, Side::SnapShot);
}

#[test]
fn spawn_with_recovery_needs_an_actor_to_run() {
    let id = PersistenceId::new("stream".to_string());
    assert_eq!(spawn_with_recovery(&id, Ok(()), Some(5)).unwrap(), 5);
    match spawn_with_recovery::<u8>(&id, Ok(()), None) {
        Err(ActorError::FailedActivation { reason, id }) => {
            assert_eq!(reason, "recover");
            assert_eq!(id, "stream");
        }
        other => panic!("{:?}", other),
    }
    match spawn_with_recovery(&id, Err(RecoveryError::NotCompatible("k")), Some(5)) {
        Err(ActorError::External(text)) => assert_eq!(text, "data is not compatible with mapping."),
        other => panic!("{:?}", other),
    }
}

#[test]
fn a_missing_protocol_is_named() {
    assert_eq!(journal_protocol(Some(3)).unwrap(), 3);
    assert_eq!(snapshot_protocol(Some("s")).unwrap(), "s");
    assert_eq!(journal_protocol::<u8>(None).unwrap_err().module, "JournalProtocol");
    assert_eq!(snapshot_protocol::<u8>(None).unwrap_err().module, "SnapShotProtocol");
    assert_eq!(
        journal_protocol::<u8>(None).unwrap_err().to_string(),
        "extension = `JournalProtocol` does not installed in ActorSystem."
    );
}

#[test]
fn the_latest_snapshot_is_looked_up_under_the_highest_sequence() {
    assert_eq!(FixtureSnapShot::latest(), SequenceId::max());
    assert_eq!(FixtureSnapShot::latest().value(), i64::MAX);
}

#[test]
fn errors_say_what_they_are() {
    let missing = ExtensionMissingError { module: "JournalProtocol" };
    assert_eq!(missing.to_string(), "extension = `JournalProtocol` does not installed in ActorSystem.");
    assert_eq!(PersistError::from(missing).to_string(), missing.to_string());
    assert_eq!(PersistError::Selection.to_string(), "");
    assert_eq!(PersistError::NotFound { id: PersistenceId::new("p".to_string()) }.to_string(), "p");
    assert_eq!(PersistError::from(SerializeError("a".to_string())).to_string(), "a");
    assert_eq!(PersistError::from(DeserializeError("b".to_string())).to_string(), "b");
    assert_eq!(RecoveryError::from(DeserializeError("c".to_string())).to_string(), "c");
    assert_eq!(RecoveryError::from(missing).to_string(), missing.to_string());
    assert_eq!(
        RecoveryError::from(PersistError::Selection).to_string(),
        "A problem occurred at persist protocol."
    );
    assert_eq!(RecoveryError::from(SelectionError).to_string(), SelectionError.to_string());
    assert_eq!(RecoveryError::NotCompatible("k").to_string(), "data is not compatible with mapping.");
}

/// A store of payloads in memory, as a host would supply one.
struct Memory {
    snapshots: Vec<SnapShotPayload>,
    journal: Vec<JournalPayload>,
}

impl Memory {
    fn latest(&self, id: &PersistenceId, bound: &SequenceId) -> Option<SnapShotPayload> {
        self.snapshots
            .iter()
            .filter(|payload| payload.id() == id && payload.seq <= *bound)
            .max_by_key(|payload| payload.seq)
            .cloned()
    }

    fn select(&self, criteria: SelectionCriteria) -> Option<Journal> {
        let mut selected = Journal::new();
        for payload in self.journal.iter().filter(|payload| criteria.matches(&payload.seq)) {
            selected.insert(payload.clone());
        }
        Some(selected)
    }
}

enum Command {
    Create,
    Add { k: String, v: String },
    Remove { k: String },
}

fn tell(actor: &mut Store, ctx: &mut PersistContext, memory: &mut Memory, command: Command) {
    let id = PersistenceId::from(ctx.id().clone());
    let change = match command {
        Command::Create => {
            memory.snapshots.push(Write::image(&id, actor, ctx).unwrap());
            let mut write = Write::snapshot();
            assert_eq!(write.record::<PersistError>(&Ok(()), ctx), Verdict::Done);
            None
        }
        Command::Add { k, v } => {
            actor.data.insert(k.clone(), v.clone());
            Some(Change::Added(k, v))
        }
        Command::Remove { k } => {
            actor.data.remove(&k);
            Some(Change::Removed(k))
        }
    };
    if let Some(change) = change {
        memory.journal.push(Write::entry(&change, ctx).unwrap());
        let mut write = Write::persist();
        assert_eq!(write.record::<PersistError>(&Ok(()), ctx), Verdict::Done);
    }
}

#[test]
fn a_persistent_actor_comes_back_from_storage() {
    let (mapping, _, _) = mapping();
    let mut memory = Memory { snapshots: Vec::new(), journal: Vec::new() };
    let mut ctx = context("actor");
    let mut actor = Store { data: HashMap::new() };

    tell(&mut actor, &mut ctx, &mut memory, Command::Create);
    tell(&mut actor, &mut ctx, &mut memory, Command::Add { k: "aaa".to_string(), v: "111".to_string() });
    tell(&mut actor, &mut ctx, &mut memory, Command::Add { k: "bbb".to_string(), v: "222".to_string() });
    tell(&mut actor, &mut ctx, &mut memory, Command::Add { k: "ccc".to_string(), v: "333".to_string() });
    tell(&mut actor, &mut ctx, &mut memory, Command::Add { k: "ddd".to_string(), v: "444".to_string() });
    tell(&mut actor, &mut ctx, &mut memory, Command::Add { k: "eee".to_string(), v: "555".to_string() });
    tell(&mut actor, &mut ctx, &mut memory, Command::Add { k: "fff".to_string(), v: "666".to_string() });
    tell(&mut actor, &mut ctx, &mut memory, Command::Remove { k: "bbb".to_string() });
    tell(&mut actor, &mut ctx, &mut memory, Command::Remove { k: "ddd".to_string() });
    tell(&mut actor, &mut ctx, &mut memory, Command::Remove { k: "fff".to_string() });
    assert_eq!(ctx.sequence().value(), 9);
    let seqs: Vec<i64> = memory.journal.iter().map(|payload| payload.seq.value()).collect();
    assert_eq!(seqs, (0..9).collect::<Vec<i64>>());

    // The actor is shut down and spawned again: it comes back from storage.
    let id = PersistenceId::new("actor".to_string());
    let latest = memory.latest(&id, &FixtureSnapShot::latest());
    let snapshot = FixtureSnapShot::create(&mapping, latest).unwrap();
    assert_eq!(snapshot.range(), Range::StartWith { from: SequenceId::new(0) });
    let read = memory.select(snapshot.range().criteria().unwrap());
    let journal = FixtureJournal::create(&mapping, read).unwrap();
    let mut ctx = context("actor");
    let mut recovered = Store { data: HashMap::new() };
    let applied = replay(Fixture::new(snapshot, journal), &mut recovered, &mut ctx).unwrap();
    assert_eq!(applied, vec![0, 0, 1, 2, 3, 4, 5, 6, 7, 8]);
    assert_eq!(recovered, actor);
    let mut expected = HashMap::new();
    expected.insert("aaa".to_string(), "111".to_string());
    expected.insert("ccc".to_string(), "333".to_string());
    expected.insert("eee".to_string(), "555".to_string());
    assert_eq!(recovered.data, expected);
    assert_eq!(ctx.sequence().value(), 8);
    let recovered = spawn_with_recovery(&id, Ok(()), Some(recovered)).unwrap();
    assert_eq!(recovered.data.len(), 3);
}
