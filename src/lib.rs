//! A client for a telemetry collector: structured events are batched into a
//! payload, rendered as a JSON array and posted to one of two fixed collector
//! endpoints. The library holds the data model, the JSON form of events, the
//! request that carries a batch, and the decisions taken while a delivery
//! runs; the caller supplies the network.

pub mod correlation;
pub mod detail;
pub mod error;
pub mod event;
pub mod exchange;
pub mod json;
pub mod payload;
pub mod wire;

pub use correlation::CorrelationId;
pub use detail::MessageDetail;
pub use error::{EchoError, ErrKind};
pub use event::{events_to_json, CollectorUrl, Event, EventType, Response};
pub use exchange::{classify_status, Exchange, LogEntry, LogLevel, Phase, StatusClass};
pub use payload::{OutgoingRequest, Payload, METHOD, USER_AGENT};
