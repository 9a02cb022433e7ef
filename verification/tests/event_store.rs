use marketplace::event_store::{append_action, AppendAction, EventOrigin, EventStore, EventStoreError, StorableEvent};
use marketplace::events::{ContributionEvent, Event, ProjectEvent};
use marketplace::ids::ContributionId;
use marketplace::json::Json;

fn timestamp() -> chrono::NaiveDateTime {
    chrono::NaiveDate::from_ymd_opt(2022, 10, 1).unwrap().and_hms_opt(12, 0, 0).unwrap()
}

fn created(deduplication_id: &str) -> StorableEvent {
    StorableEvent {
        event: Event::Project(ProjectEvent::Created { project_id: 42 }),
        deduplication_id: deduplication_id.to_string(),
        timestamp: timestamp(),
        metadata: Json::Null,
        origin: EventOrigin::BACKEND,
    }
}

fn payload() -> Json {
    Json::Object(vec![("project_id".to_string(), Json::String("42".to_string()))])
}

#[test]
fn append_records_the_event() {
    let mut store = EventStore::new();
    assert_eq!(store.append("project-42", created("dedup-1"), Ok(payload())), Ok(()));
    assert_eq!(store.len(), 1);
    let row = &store.events()[0];
    assert_eq!(row.aggregate_name, "PROJECT");
    assert_eq!(row.aggregate_id, "project-42");
    assert_eq!(row.origin, "BACKEND");
    assert_eq!(row.payload, payload());
    assert_eq!(row.metadata, Json::Null);
    assert_eq!(row.timestamp, timestamp());
    assert_eq!(store.find_deduplication("dedup-1"), Some(1));
}

#[test]
fn append_with_same_deduplication_id_is_ignored() {
    let mut store = EventStore::new();
    assert_eq!(store.append("project-42", created("dedup-1"), Ok(payload())), Ok(()));
    assert_eq!(store.append("project-43", created("dedup-1"), Ok(Json::Null)), Ok(()));
    assert_eq!(store.len(), 1);
    assert_eq!(store.events()[0].aggregate_id, "project-42");
}

#[test]
fn events_get_increasing_indexes() {
    let mut store = EventStore::new();
    store.append("a", created("first"), Ok(Json::Null)).unwrap();
    store.append("b", created("second"), Ok(Json::Null)).unwrap();
    assert_eq!(store.find_deduplication("first"), Some(1));
    assert_eq!(store.find_deduplication("second"), Some(2));
    assert_eq!(store.find_deduplication("third"), None);
}

#[test]
fn unserializable_event_is_refused() {
    let mut store = EventStore::new();
    assert_eq!(
        store.append("a", created("first"), Err("bad payload".to_string())),
        Err(EventStoreError::InvalidEvent("bad payload".to_string()))
    );
    assert_eq!(store.len(), 0);
}

#[test]
fn aggregate_names() {
    assert_eq!(Event::Project(ProjectEvent::Created { project_id: 1 }).aggregate_name(), "PROJECT");
    assert_eq!(
        Event::Contributor(ContributionEvent::Validated { id: ContributionId::from(1) }).aggregate_name(),
        "CONTRIBUTOR"
    );
}

#[test]
fn event_row_records_its_event() {
    let row = marketplace::event_store::event_row(
        "payment-1",
        Event::Project(ProjectEvent::Created { project_id: 7 }),
        timestamp(),
        Json::Bool(true),
        EventOrigin::BACKEND,
        payload(),
    );
    assert_eq!(row.aggregate_name, "PROJECT");
    assert_eq!(row.aggregate_id, "payment-1");
    assert_eq!(row.origin, "BACKEND");
    assert_eq!(row.metadata, Json::Bool(true));
    assert_eq!(row.payload, payload());
}

#[test]
fn append_action_inserts_a_new_event() {
    match append_action("project-42", created("dedup-1"), Ok(payload()), false) {
        AppendAction::Insert { row, deduplication_id } => {
            assert_eq!(deduplication_id, "dedup-1");
            assert_eq!(row.aggregate_name, "PROJECT");
            assert_eq!(row.aggregate_id, "project-42");
            assert_eq!(row.origin, "BACKEND");
            assert_eq!(row.payload, payload());
            assert_eq!(row.metadata, Json::Null);
            assert_eq!(row.timestamp, timestamp());
        },
        _ => panic!("expected an insertion"),
    }
}

#[test]
fn append_action_skips_a_recorded_deduplication_id() {
    assert!(matches!(append_action("project-42", created("dedup-1"), Ok(payload()), true), AppendAction::Skip));
}

#[test]
fn append_action_refuses_an_unserializable_event() {
    for exists in [false, true] {
        match append_action("project-42", created("dedup-1"), Err("bad".to_string()), exists) {
            AppendAction::Reject(e) => assert_eq!(e, EventStoreError::InvalidEvent("bad".to_string())),
            _ => panic!("expected a refusal"),
        }
    }
}
