use marketplace::amount::{Amount, Currency};
use marketplace::decimal::DecimalNumber;
use marketplace::event_store::EventOrigin;
use marketplace::events::{BlockchainNetwork, Event, PaymentEvent, PaymentId, PaymentReceipt, ProjectEvent};
use marketplace::json::Json;
use marketplace::payment_projector::Projector;
use marketplace::payment_request::{payment_request_event, request_payment, Body};

const PAYMENT_ID: u128 = 0xabad1756_18ba_42e2_8cbf_83369cecfb38;
const RECEIPT_ID: u128 = 0xb5db0b56_ab3e_4bd1_b9a2_6a3d41f35b8f;

fn receipt() -> PaymentReceipt {
    PaymentReceipt::OnChainPayment {
        network: BlockchainNetwork::Ethereum,
        recipient_address: "0x07399c0a".to_string(),
        transaction_hash: "0x797fb772".to_string(),
    }
}

#[test]
fn uuid_text_is_hyphenated_lowercase() {
    assert_eq!(PaymentId(PAYMENT_ID).to_string(), "abad1756-18ba-42e2-8cbf-83369cecfb38");
    assert_eq!(PaymentId(0).to_string(), "00000000-0000-0000-0000-000000000000");
    assert_eq!(PaymentId(RECEIPT_ID).to_string(), "b5db0b56-ab3e-4bd1-b9a2-6a3d41f35b8f");
}

#[test]
fn random_uuids_carry_version_and_variant() {
    let (request_id, _) = request_payment(1, body());
    for u in [PaymentId::new().0, PaymentId::new().0, request_id] {
        assert_eq!((u >> 76) & 0xf, 4);
        assert_eq!((u >> 62) & 0x3, 2);
    }
}

#[test]
fn processed_payment_is_recorded() {
    let projector = Projector::new(());
    let event = Event::Payment(PaymentEvent::Processed {
        id: PaymentId(PAYMENT_ID),
        receipt_id: RECEIPT_ID,
        amount: Amount::new(DecimalNumber::from_i128_with_scale(50045, 2), Currency::Crypto("USDC".to_string())),
        receipt: receipt(),
    });
    let record = projector.payment_record(event).unwrap();
    assert_eq!(record.receipt_id, RECEIPT_ID);
    assert_eq!(record.request_id, PAYMENT_ID);
    assert_eq!(record.amount, DecimalNumber::from_i128_with_scale(50045, 2));
    assert_eq!(record.currency_code, "USDC");
    assert_eq!(record.receipt, receipt());
}

#[test]
fn other_events_are_not_recorded() {
    let projector = Projector::new(());
    assert!(projector.payment_record(Event::Project(ProjectEvent::Created { project_id: 1 })).is_none());
}

fn body() -> Body {
    Body { recipient_id: 11, requestor_id: 12, amount_in_usd: 500, reason: "{\"work\": \"done\"}".to_string() }
}

#[test]
fn payment_request_event_records_the_request() {
    let timestamp = chrono::NaiveDate::from_ymd_opt(2022, 1, 1).unwrap().and_hms_opt(0, 0, 0).unwrap();
    let event = payment_request_event(99, body(), PAYMENT_ID, RECEIPT_ID, timestamp);
    assert_eq!(
        event.event,
        Event::Project(ProjectEvent::PaymentRequested {
            project_id: 99,
            id: PAYMENT_ID,
            recipient_id: 11,
            requestor_id: 12,
            amount_in_usd: 500,
            reason: "{\"work\": \"done\"}".to_string(),
        })
    );
    assert_eq!(event.deduplication_id, "b5db0b56-ab3e-4bd1-b9a2-6a3d41f35b8f");
    assert_eq!(event.timestamp, timestamp);
    assert_eq!(event.metadata, Json::Null);
    assert_eq!(event.origin, EventOrigin::BACKEND);
}

#[test]
fn new_payment_request_gets_fresh_ids() {
    let (id, event) = request_payment(99, body());
    match event.event {
        Event::Project(ProjectEvent::PaymentRequested { id: recorded, project_id, .. }) => {
            assert_eq!(recorded, id);
            assert_eq!(project_id, 99);
        },
        _ => panic!("not a payment request"),
    }
    assert_eq!(event.deduplication_id.len(), 36);
    assert_ne!(event.deduplication_id, PaymentId(id).to_string());
}
