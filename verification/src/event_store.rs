//! The event store: every event appended once, deduplicated by the id that its
//! producer gives it.
use crate::events::{aggregate_name_of, Event};
use crate::json::Json;
use vstd::prelude::*;

verus! {

#[verifier::external_type_specification]
#[verifier::external_body]
pub struct ExNaiveDateTime(chrono::NaiveDateTime);

/// Where an event comes from.
#[derive(Debug, Clone, Copy, PartialEq, Eq, Structural)]
pub enum EventOrigin {
    BACKEND,
}

impl EventOrigin {
    /// The origin's name, as it is recorded.
    pub open spec fn name(self) -> Seq<char> {
        match self {
            EventOrigin::BACKEND => "BACKEND"@,
        }
    }

    pub fn to_string(&self) -> (r: String)
        ensures
            r@ == self.name(),
    {
        match self {
            EventOrigin::BACKEND => String::from_str("BACKEND"),
        }
    }
}

/// An event as it is handed to the store.
pub struct StorableEvent {
    pub event: Event,
    pub deduplication_id: String,
    pub timestamp: chrono::NaiveDateTime,
    pub metadata: Json,
    pub origin: EventOrigin,
}

/// An event as the store records it.
pub struct EventRow {
    pub timestamp: chrono::NaiveDateTime,
    pub aggregate_name: String,
    pub aggregate_id: String,
    pub payload: Json,
    pub origin: String,
    pub metadata: Json,
}

/// Why the store refused an event.
#[derive(Debug, Clone, PartialEq, Eq)]
pub enum EventStoreError {
    /// The event could not be serialized.
    InvalidEvent(String),
    /// The event could not be inserted.
    Append(String),
}

/// Whether `row` records `event` of the aggregate `aggregate_id`, with `payload` as its
/// serialized content.
pub open spec fn records(row: EventRow, aggregate_id: Seq<char>, event: StorableEvent, payload: Json) -> bool {
    &&& row.timestamp == event.timestamp
    &&& row.aggregate_name@ == aggregate_name_of(event.event)
    &&& row.aggregate_id@ == aggregate_id
    &&& row.payload == payload
    &&& row.origin@ == event.origin.name()
    &&& row.metadata == event.metadata
}

/// The row that records `event` of the aggregate `aggregate_id`, with `payload` as its
/// serialized content, at `timestamp`, with `metadata` and from `origin`.
pub fn event_row(
    aggregate_id: &str,
    event: Event,
    timestamp: chrono::NaiveDateTime,
    metadata: Json,
    origin: EventOrigin,
    payload: Json,
) -> (r: EventRow)
    ensures
        r.timestamp == timestamp,
        r.aggregate_name@ == aggregate_name_of(event),
        event is Project ==> r.aggregate_name@ == "PROJECT"@,
        event is Contributor ==> r.aggregate_name@ == "CONTRIBUTOR"@,
        event is Payment ==> r.aggregate_name@ == "PAYMENT"@,
        r.aggregate_id@ == aggregate_id@,
        r.payload == payload,
        r.origin@ == origin.name(),
        r.metadata == metadata,
{
    EventRow {
        timestamp,
        aggregate_name: String::from_str(event.aggregate_name()),
        aggregate_id: aggregate_id.to_owned(),
        payload,
        origin: origin.to_string(),
        metadata,
    }
}

/// What an append writes, once the event is serialized and the deduplications table has
/// been looked up.
pub enum AppendAction {
    /// The deduplication id is already recorded: nothing is written.
    Skip,
    /// The event is refused.
    Reject(EventStoreError),
    /// Insert `row` into the events table, then `deduplication_id` into the deduplications
    /// table with the index that the row got.
    Insert { row: EventRow, deduplication_id: String },
}

/// What to write for `storable_event` of the aggregate `aggregate_id`, given its serialized
/// content `payload` (or the serialization's failure) and whether its deduplication id is
/// already recorded. A failed serialization refuses the event; a recorded id skips it; else
/// its row and its deduplication id are inserted.
pub fn append_action(
    aggregate_id: &str,
    storable_event: StorableEvent,
    payload: Result<Json, String>,
    already_exists: bool,
) -> (r: AppendAction)
    ensures
        match payload {
            Err(msg) => r == AppendAction::Reject(EventStoreError::InvalidEvent(msg)),
            Ok(p) => if already_exists {
                r is Skip
            } else {
                r matches AppendAction::Insert { row, deduplication_id } && records(
                    row,
                    aggregate_id@,
                    storable_event,
                    p,
                ) && deduplication_id@ == storable_event.deduplication_id@
            },
        },
{
    let payload = match payload {
        Ok(p) => p,
        Err(msg) => return AppendAction::Reject(EventStoreError::InvalidEvent(msg)),
    };
    if already_exists {
        return AppendAction::Skip;
    }
    let StorableEvent { event, deduplication_id, timestamp, metadata, origin } = storable_event;
    let row = event_row(aggregate_id, event, timestamp, metadata, origin, payload);
    AppendAction::Insert { row, deduplication_id }
}

/// The largest index that an event can get.
pub const MAX_EVENT_INDEX: i32 = 2147483647i32;

/// The events table and the deduplications table. The event at position `i` has the
/// index `i + 1`, and the deduplication id at position `i` is the one under which it
/// was appended.
pub struct EventStore {
    events: Vec<EventRow>,
    deduplication_ids: Vec<String>,
}

/// Whether `ids` holds `id`.
pub open spec fn contains_id(ids: Seq<Seq<char>>, id: Seq<char>) -> bool {
    exists|i: int| 0 <= i < ids.len() && ids[i] == id
}

/// Whether no id occurs twice in `ids`.
pub open spec fn distinct_ids(ids: Seq<Seq<char>>) -> bool {
    forall|i: int, j: int| 0 <= i < ids.len() && 0 <= j < ids.len() && i != j ==> ids[i] != ids[j]
}

impl EventStore {
    #[verifier::type_invariant]
    spec fn well_formed(self) -> bool {
        &&& self.events@.len() == self.deduplication_ids@.len()
        &&& self.events@.len() <= MAX_EVENT_INDEX
        &&& distinct_ids(self.ids())
    }

    /// The recorded events, in the order of their indexes.
    pub closed spec fn rows(self) -> Seq<EventRow> {
        self.events@
    }

    /// The deduplication ids, position by position with the events.
    pub closed spec fn ids(self) -> Seq<Seq<char>> {
        self.deduplication_ids@.map_values(|s: String| s@)
    }

    /// An empty store.
    pub fn new() -> (r: EventStore)
        ensures
            r.rows().len() == 0,
            r.ids().len() == 0,
    {
        let r = EventStore { events: Vec::new(), deduplication_ids: Vec::new() };
        proof {
            assert(r.ids() =~= Seq::<Seq<char>>::empty());
        }
        r
    }

    /// The recorded events.
    pub fn events(&self) -> (r: &Vec<EventRow>)
        ensures
            r@ == self.rows(),
    {
        &self.events
    }

    /// The number of recorded events.
    pub fn len(&self) -> (r: usize)
        ensures
            r == self.rows().len(),
            r == self.ids().len(),
            r <= MAX_EVENT_INDEX,
    {
        proof {
            use_type_invariant(self);
        }
        self.events.len()
    }

    /// The index of the event appended under `deduplication_id`, if any.
    pub fn find_deduplication(&self, deduplication_id: &str) -> (r: Option<i32>)
        ensures
            r is Some <==> contains_id(self.ids(), deduplication_id@),
            r matches Some(index) ==> 1 <= index <= self.ids().len() && self.ids()[index - 1]
                == deduplication_id@,
    {
        proof {
            use_type_invariant(self);
        }
        let n = self.deduplication_ids.len();
        let mut i: usize = 0;
        while i < n
            invariant
                n == self.deduplication_ids@.len(),
                n == self.ids().len(),
                n <= MAX_EVENT_INDEX,
                0 <= i <= n,
                forall|k: int| 0 <= k < i ==> self.ids()[k] != deduplication_id@,
            decreases n - i,
        {
            let candidate = self.deduplication_ids[i].as_str();
            if str_eq(candidate, deduplication_id) {
                assert(self.ids()[i as int] == deduplication_id@);
                return Some((i + 1) as i32);
            }
            i = i + 1;
        }
        None
    }

    /// Appends `storable_event` as an event of the aggregate `aggregate_id`, with
    /// `payload` as its serialized content (or the serialization's failure). An event
    /// whose deduplication id was already appended is ignored.
    pub fn append(&mut self, aggregate_id: &str, storable_event: StorableEvent, payload: Result<Json, String>) -> (r: Result<(), EventStoreError>)
        ensures
            match payload {
                Err(msg) => r == Err::<(), EventStoreError>(EventStoreError::InvalidEvent(msg))
                    && final(self).rows() == old(self).rows() && final(self).ids() == old(self).ids(),
                Ok(p) => if contains_id(old(self).ids(), storable_event.deduplication_id@) {
                    r is Ok && final(self).rows() == old(self).rows() && final(self).ids() == old(self).ids()
                } else if old(self).rows().len() >= MAX_EVENT_INDEX {
                    r matches Err(EventStoreError::Append(_))
                        && final(self).rows() == old(self).rows() && final(self).ids() == old(self).ids()
                } else {
                    &&& r is Ok
                    &&& final(self).rows().len() == old(self).rows().len() + 1
                    &&& final(self).rows().drop_last() == old(self).rows()
                    &&& records(final(self).rows().last(), aggregate_id@, storable_event, p)
                    &&& final(self).ids() == old(self).ids().push(storable_event.deduplication_id@)
                },
            },
            distinct_ids(final(self).ids()),
    {
        proof {
            use_type_invariant(&*self);
        }
        let already_exists = self.find_deduplication(storable_event.deduplication_id.as_str()).is_some();
        let (row, id) = match append_action(aggregate_id, storable_event, payload, already_exists) {
            AppendAction::Skip => return Ok(()),
            AppendAction::Reject(e) => return Err(e),
            AppendAction::Insert { row, deduplication_id } => (row, deduplication_id),
        };
        if self.events.len() >= MAX_EVENT_INDEX as usize {
            return Err(EventStoreError::Append(String::from_str("no index left for a new event")));
        }
        let ghost old_ids = self.ids();
        proof {
            assert forall|i: int, j: int|
                0 <= i < old_ids.push(id@).len() && 0 <= j < old_ids.push(id@).len() && i != j
                implies old_ids.push(id@)[i] != old_ids.push(id@)[j] by {
                if i < old_ids.len() && j < old_ids.len() {
                } else if i == old_ids.len() {
                    assert(old_ids.push(id@)[j] == old_ids[j]);
                } else {
                    assert(old_ids.push(id@)[i] == old_ids[i]);
                }
            }
        }
        let mut taken = EventStore::new();
        std::mem::swap(self, &mut taken);
        let EventStore { mut events, deduplication_ids: mut ids } = taken;
        events.push(row);
        ids.push(id);
        proof {
            assert(ids@.map_values(|s: String| s@) =~= old_ids.push(id@));
        }
        *self = EventStore { events, deduplication_ids: ids };
        Ok(())
    }
}

/// Once an event is appended under a deduplication id, that id is recorded, so every later
/// append under it is ignored: an event is stored at most once.
pub proof fn lemma_appended_id_is_recorded(ids: Seq<Seq<char>>, deduplication_id: Seq<char>)
    ensures
        contains_id(ids.push(deduplication_id), deduplication_id),
        forall|other: Seq<char>| contains_id(ids, other) ==> contains_id(ids.push(deduplication_id), other),
{
    assert(ids.push(deduplication_id)[ids.len() as int] == deduplication_id);
    assert forall|other: Seq<char>| contains_id(ids, other) implies contains_id(ids.push(deduplication_id), other) by {
        let i = choose|i: int| 0 <= i < ids.len() && ids[i] == other;
        assert(ids.push(deduplication_id)[i] == other);
    }
}

/// The deduplication id of the last appended event is recorded at its position only: looking
/// it up gives the index of that event.
pub proof fn lemma_last_id_is_found_at_last_index(ids: Seq<Seq<char>>, deduplication_id: Seq<char>)
    requires
        distinct_ids(ids.push(deduplication_id)),
    ensures
        forall|i: int|
            0 <= i < ids.len() + 1 && #[trigger] ids.push(deduplication_id)[i] == deduplication_id ==> i
                == ids.len(),
{
    assert forall|i: int|
        0 <= i < ids.len() + 1 && #[trigger] ids.push(deduplication_id)[i] == deduplication_id implies i
            == ids.len() by {
        if i != ids.len() {
            assert(ids.push(deduplication_id)[ids.len() as int] == deduplication_id);
        }
    }
}

/// Calls `<str as PartialEq>::eq`; the contract claims that it compares the texts.
#[verifier::external_body]
fn str_eq(a: &str, b: &str) -> (r: bool)
    ensures
        r == (a@ == b@),
{
    a == b
}

} // verus!
