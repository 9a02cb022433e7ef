//! Forwarding events to a webhook: where to send them, and in what shape.
use crate::json::Json;
use crate::parsed_url::{url_parse, ParsedUrl};
use vstd::prelude::*;

verus! {

/// The environment variable that names the webhook's target URL.
pub const WEBHOOK_TARGET_ENV_VAR: &'static str = "EVENT_WEBHOOK_TARGET";

/// Why an environment variable could not be read.
#[derive(Debug, Clone, Copy, PartialEq, Eq, Structural)]
pub enum EnvVarError {
    NotPresent,
    NotUnicode,
}

/// Why no event can be sent to the webhook.
#[derive(Debug)]
pub enum WebhookError {
    /// The target variable is not set.
    EnvVarNotSet(EnvVarError),
    /// The target variable does not hold a URL.
    InvalidEnvVar(url::ParseError),
}

/// The webhook's target, from the value of its environment variable.
pub fn webhook_target(env_var: Result<String, EnvVarError>) -> (r: Result<ParsedUrl, WebhookError>)
    ensures
        match env_var {
            Err(e) => r matches Err(WebhookError::EnvVarNotSet(e2)) && e2 == e,
            Ok(text) => match url_parse(text@) {
                Some(serialization) => r matches Ok(u) && u@ == serialization,
                None => r matches Err(WebhookError::InvalidEnvVar(_)),
            },
        },
{
    match env_var {
        Err(e) => Err(WebhookError::EnvVarNotSet(e)),
        Ok(text) => match ParsedUrl::parse(text.as_str()) {
            Ok(u) => Ok(u),
            Err(e) => Err(WebhookError::InvalidEnvVar(e)),
        },
    }
}

/// Whether an event's JSON has the shape of an externally tagged event: an object whose
/// first member (the aggregate) holds an object whose first member (the event) holds the
/// payload.
pub open spec fn has_event_shape(event_json: Json) -> bool {
    &&& event_json matches Json::Object(aggregates)
    &&& aggregates@.len() > 0
    &&& aggregates@[0].1 matches Json::Object(events)
    &&& events@.len() > 0
}

/// Whether `event_json` has the shape that `webhook_event` needs.
pub fn is_event_shaped(event_json: &Json) -> (r: bool)
    ensures
        r == has_event_shape(*event_json),
        r == (*event_json is Object && (event_json->Object_0)@.len() > 0
            && (event_json->Object_0)@[0].1 is Object && ((event_json->Object_0)@[0].1->Object_0)@.len()
            > 0),
{
    match event_json {
        Json::Object(aggregates) => {
            if aggregates.len() == 0 {
                false
            } else {
                match &aggregates[0].1 {
                    Json::Object(events) => events.len() > 0,
                    _ => false,
                }
            }
        },
        _ => false,
    }
}

/// The body sent to the webhook for an event: an object with the aggregate's name, the
/// event's name and the event's payload.
pub fn webhook_event(event_json: Json) -> (r: Json)
    requires
        has_event_shape(event_json),
    ensures
        ({
            let aggregate = (event_json->Object_0)@[0];
            let event = (aggregate.1->Object_0)@[0];
            &&& r matches Json::Object(fields)
            &&& fields@.len() == 3
            &&& fields@[0].0@ == "aggregate_name"@
            &&& fields@[0].1 == Json::String(aggregate.0)
            &&& fields@[1].0@ == "event_name"@
            &&& fields@[1].1 == Json::String(event.0)
            &&& fields@[2].0@ == "payload"@
            &&& fields@[2].1 == event.1
        }),
{
    match event_json {
        Json::Object(mut aggregates) => {
            let (aggregate_name, aggregate) = aggregates.remove(0);
            match aggregate {
                Json::Object(mut events) => {
                    let (event_name, payload) = events.remove(0);
                    let mut fields: Vec<(String, Json)> = Vec::new();
                    fields.push((String::from_str("aggregate_name"), Json::String(aggregate_name)));
                    fields.push((String::from_str("event_name"), Json::String(event_name)));
                    fields.push((String::from_str("payload"), payload));
                    Json::Object(fields)
                },
                _ => {
                    proof {
                        assert(false);
                    }
                    Json::Null
                },
            }
        },
        _ => {
            proof {
                assert(false);
            }
            Json::Null
        },
    }
}

/// Whatever the aggregate's and the event's names, a JSON object whose first member holds a
/// non-empty object has the shape of an event, and nothing else has: the shape depends on the
/// nesting alone, never on the text of the keys.
pub proof fn lemma_event_shape_is_nesting(event_json: Json)
    ensures
        has_event_shape(event_json) <==> (event_json is Object && (event_json->Object_0)@.len() > 0
            && (event_json->Object_0)@[0].1 is Object && ((event_json->Object_0)@[0].1->Object_0)@.len()
            > 0),
{
}

} // verus!
