//! Connection lifecycle and supervision core of a streaming market-data
//! ingestion service.
//!
//! The crate models the decision logic of the service: the connection
//! registry with its reconnect/backoff protocol, the per-feed consumption
//! loop with throttling, the message classifier, and the process supervisor.
//! Transport I/O (the websocket itself, timers, task spawning) is performed
//! by a thin unverified shell that drives these decision functions.

pub mod acquire;
pub mod backoff;
pub mod classify;
pub mod config;
pub mod consumer;
pub mod errors;
pub mod reading;
pub mod registry;
pub mod supervisor;
