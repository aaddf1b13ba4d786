//! The state machine of an interactive HTTP client: a request draft that is
//! edited event by event, the engine rules that turn a draft into a call and
//! a reply into a result, and a newest-first history of what was sent.

pub mod http_client;
pub mod message;
pub mod app;
pub mod laws;
pub mod presentation;
