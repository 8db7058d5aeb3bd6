//! Event-listener library for a permissioned splinter network: it turns the
//! administrative event stream of a circuit-management daemon into ordered,
//! schema-encoded outbound messages, and decides when a circuit's state-change
//! stream may be opened.

pub mod application_metadata;
pub mod authorization_handler;
pub mod config;
pub mod error;
pub mod event_handler;
pub mod hex;
pub mod json;
pub mod messages;
pub mod pubsub;
pub mod records;
pub mod state_change;
pub mod strutil;
pub mod supervisor;
pub mod translator;
