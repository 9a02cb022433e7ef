//! Requesting a payment for a project: the event that records the request.
use crate::event_store::{EventOrigin, StorableEvent};
use crate::events::{Event, ProjectEvent};
use crate::json::Json;
use crate::uuid::{hyphenated, is_random_v4, new_v4, uuid_to_string, Uuid};
use vstd::prelude::*;

verus! {

/// The body of a payment request.
#[derive(Debug, Clone, PartialEq, Eq)]
pub struct Body {
    pub recipient_id: Uuid,
    pub requestor_id: Uuid,
    pub amount_in_usd: u32,
    pub reason: String,
}

/// Whether `event` records the payment request `body` for the project `project_id` under
/// the id `payment_request_id`, deduplicated by `deduplication_uuid`, at `timestamp`.
pub open spec fn requests_payment(
    event: StorableEvent,
    project_id: Uuid,
    body: Body,
    payment_request_id: Uuid,
    deduplication_uuid: Uuid,
    timestamp: chrono::NaiveDateTime,
) -> bool {
    &&& event.event == Event::Project(ProjectEvent::PaymentRequested {
        project_id,
        id: payment_request_id,
        recipient_id: body.recipient_id,
        requestor_id: body.requestor_id,
        amount_in_usd: body.amount_in_usd,
        reason: body.reason,
    })
    &&& event.deduplication_id@ == hyphenated(deduplication_uuid)
    &&& event.timestamp == timestamp
    &&& event.metadata is Null
    &&& event.origin == EventOrigin::BACKEND
}

/// The event that records the payment request `body` for the project `project_id`.
pub fn payment_request_event(
    project_id: Uuid,
    body: Body,
    payment_request_id: Uuid,
    deduplication_uuid: Uuid,
    timestamp: chrono::NaiveDateTime,
) -> (r: StorableEvent)
    ensures
        requests_payment(r, project_id, body, payment_request_id, deduplication_uuid, timestamp),
        r.event matches Event::Project(ProjectEvent::PaymentRequested { project_id: p, id, recipient_id, requestor_id, amount_in_usd, reason })
            && p == project_id && id == payment_request_id && recipient_id == body.recipient_id
            && requestor_id == body.requestor_id && amount_in_usd == body.amount_in_usd && reason == body.reason,
{
    StorableEvent {
        event: Event::Project(
            ProjectEvent::PaymentRequested {
                project_id,
                id: payment_request_id,
                recipient_id: body.recipient_id,
                requestor_id: body.requestor_id,
                amount_in_usd: body.amount_in_usd,
                reason: body.reason,
            },
        ),
        deduplication_id: uuid_to_string(deduplication_uuid),
        timestamp,
        metadata: Json::Null,
        origin: EventOrigin::BACKEND,
    }
}

/// An event that records a payment request carries the request's fields as they are: the
/// body's recipient as recipient, its requestor as requestor, its amount and its reason, for
/// the project and under the id that were given.
pub proof fn lemma_request_keeps_body(
    event: StorableEvent,
    project_id: Uuid,
    body: Body,
    payment_request_id: Uuid,
    deduplication_uuid: Uuid,
    timestamp: chrono::NaiveDateTime,
)
    requires
        requests_payment(event, project_id, body, payment_request_id, deduplication_uuid, timestamp),
    ensures
        event.event matches Event::Project(ProjectEvent::PaymentRequested { project_id: p, id, recipient_id, requestor_id, amount_in_usd, reason })
            && p == project_id && id == payment_request_id && recipient_id == body.recipient_id
            && requestor_id == body.requestor_id && amount_in_usd == body.amount_in_usd && reason == body.reason,
        event.timestamp == timestamp,
        event.deduplication_id@ == hyphenated(deduplication_uuid),
{
}

/// Calls `chrono::Utc::now().naive_utc()`: the current time, of which nothing is claimed.
#[verifier::external_body]
fn now_naive_utc() -> chrono::NaiveDateTime {
    chrono::Utc::now().naive_utc()
}

/// A new payment request for the project `project_id`: a fresh id for it, and the event
/// that records it, stamped with the current time.
pub fn request_payment(project_id: Uuid, body: Body) -> (r: (Uuid, StorableEvent))
    ensures
        is_random_v4(r.0),
        exists|deduplication_uuid: Uuid|
            is_random_v4(deduplication_uuid) && requests_payment(
                r.1,
                project_id,
                body,
                r.0,
                deduplication_uuid,
                r.1.timestamp,
            ),
{
    let payment_request_id = new_v4();
    let deduplication_uuid = new_v4();
    let timestamp = now_naive_utc();
    let event = payment_request_event(project_id, body, payment_request_id, deduplication_uuid, timestamp);
    (payment_request_id, event)
}

} // verus!
