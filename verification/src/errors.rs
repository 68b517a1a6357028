use vstd::prelude::*;

verus! {

/// The failure kinds that the ingestion core distinguishes.
///
/// Failures local to a single read or parse are absorbed by the caller and
/// never become a `ProcessError`; every variant here ends either the whole
/// startup (`ConfigError`) or one feed's consumption loop.
#[derive(Debug, Clone, PartialEq, Eq)]
pub enum ProcessError {
    /// Configuration could not be validated; fatal to startup.
    ConfigError(String),
    /// The feed identifier is not a parseable URL; fatal to that feed's
    /// first connect attempt, with no retry.
    UrlParseError(String),
    /// The transport failed while connecting, reading or sending.
    TransportError(String),
    /// The connect retry budget was exhausted; fatal to that feed's loop.
    MaxRetriesReached(String),
    /// `read` was called for a feed with no registered connection.
    ConnectionNotFound(String),
    /// An outbound control message could not be serialized.
    SerializationError(String),
    /// A message processor rejected a dispatched payload; fatal to that
    /// feed's loop.
    ProcessingError(String),
}

} // verus!
