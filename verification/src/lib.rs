//! Verified core of a contribution marketplace: money amounts, project and payment
//! events, the event store, event projections and webhooks, and the contribution
//! action queue.
pub mod accept_application;
pub mod action_queue;
pub mod amount;
pub mod caller;
pub mod decimal;
pub mod event_store;
pub mod events;
pub mod github;
pub mod ids;
pub mod json;
pub mod parsed_url;
pub mod payment_projector;
pub mod payment_request;
pub mod projections;
pub mod refresher;
pub mod repositories;
pub mod uuid;
pub mod webhook;
