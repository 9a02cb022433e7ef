use marketplace::json::Json;
use marketplace::webhook::{
    is_event_shaped, webhook_event, webhook_target, EnvVarError, WebhookError, WEBHOOK_TARGET_ENV_VAR,
};

fn text(s: &str) -> Json {
    Json::String(s.to_string())
}

fn object(members: Vec<(&str, Json)>) -> Json {
    Json::Object(members.into_iter().map(|(k, v)| (k.to_string(), v)).collect())
}

#[test]
fn env_variable_not_set() {
    assert!(matches!(
        webhook_target(Err(EnvVarError::NotPresent)),
        Err(WebhookError::EnvVarNotSet(EnvVarError::NotPresent))
    ));
}

#[test]
fn env_variable_invalid() {
    assert!(matches!(
        webhook_target(Ok("Some random junk".to_string())),
        Err(WebhookError::InvalidEnvVar(_))
    ));
}

#[test]
fn env_variable_valid() {
    let target = webhook_target(Ok("http://localhost:1234/webhook".to_string())).unwrap();
    assert_eq!(target.as_str(), "http://localhost:1234/webhook");
    assert_eq!(target.as_url().path(), "/webhook");
}

#[test]
fn env_variable_name() {
    assert_eq!(WEBHOOK_TARGET_ENV_VAR, "EVENT_WEBHOOK_TARGET");
}

fn payment_processed_payload() -> Json {
    object(vec![
        ("amount", object(vec![("amount", text("500.45")), ("currency", object(vec![("Crypto", text("USDC"))]))])),
        ("id", text("abad1756-18ba-42e2-8cbf-83369cecfb38")),
        (
            "receipt",
            object(vec![(
                "OnChainPayment",
                object(vec![
                    ("network", text("Ethereum")),
                    ("recipient_address", text("0x07399c0a2cd5d6eb4c3a6f0d0de7a71e0ebe5d5cc7c9fd0de41fbd57f81b1e1")),
                    ("transaction_hash", text("0x797fb77202901c52094d2544f3631a3535b8ca40009f6a6ac6940b67e6873a4")),
                ]),
            )]),
        ),
        ("receipt_id", text("b5db0b56-ab3e-4bd1-b9a2-6a3d41f35b8f")),
    ])
}

#[test]
fn webhook_event_serialize() {
    let event_json = object(vec![("Payment", object(vec![("Processed", payment_processed_payload())]))]);
    assert!(is_event_shaped(&event_json));

    let json_value = webhook_event(event_json);

    let expected_json_value = object(vec![
        ("aggregate_name", text("Payment")),
        ("event_name", text("Processed")),
        ("payload", payment_processed_payload()),
    ]);
    assert_eq!(json_value, expected_json_value);
}

#[test]
fn non_event_json_has_no_event_shape() {
    assert!(!is_event_shaped(&Json::Null));
    assert!(!is_event_shaped(&object(vec![])));
    assert!(!is_event_shaped(&object(vec![("Payment", text("Processed"))])));
    assert!(!is_event_shaped(&object(vec![("Payment", object(vec![]))])));
}

#[test]
fn not_found_issue_links_to_github() {
    let issue = marketplace::github::Issue::not_found().unwrap();
    assert_eq!(issue.external_link.as_str(), "https://github.com/404");
    assert_eq!(issue.number, 0);
    assert!(issue.title.is_empty());
}
