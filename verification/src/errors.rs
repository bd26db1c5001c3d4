//! Error taxonomy of the adapter.
//!
//! Construction failures are fatal and never retried; connection faults are
//! transient and absorbed by retry policy up to a ceiling; state errors come
//! from calling an operation outside the `Open` state and have no side
//! effect; close errors report a shutdown that exceeded its bounded wait,
//! after which the adapter is still `Closed`.

use vstd::prelude::*;

verus! {

/// Why adapter construction was rejected. Fatal: the caller must fix the
/// configuration or identity and construct anew.
#[derive(Clone, Copy, Debug, PartialEq, Eq, Structural)]
pub enum ConstructionError {
    /// The configuration text was not a JSON object.
    InvalidConfigText,
    /// `host` was present but not a string.
    InvalidHost,
    /// `port` was present but not an integer in `0..=65535`.
    InvalidPort,
    /// `stream_key_prefix` was present but not a string.
    InvalidStreamKeyPrefix,
    /// `start_position` was neither `"now"`, `"earliest"` nor an integer offset.
    InvalidStartPosition,
    /// `channel_capacity` was not an integer in `1..=usize::MAX`.
    InvalidChannelCapacity,
    /// `publish_mode` was neither `"ack"` nor `"buffered"`.
    InvalidPublishMode,
    /// `reconnect_backoff_ms` or `reconnect_backoff_max_ms` was not an integer.
    InvalidReconnectBackoff,
    /// `reconnect_max_retries` was not an integer in `0..=u32::MAX`.
    InvalidReconnectRetries,
    /// `max_entry_bytes` was not an integer in `1..=usize::MAX`.
    InvalidMaxEntryBytes,
    /// The trader identifier was empty.
    EmptyTraderId,
    /// The instance identifier was empty.
    EmptyInstanceId,
}

/// A transient fault of the network session to the durable log.
#[derive(Clone, Copy, Debug, PartialEq, Eq, Structural)]
pub enum ConnectionError {
    /// The session is not attached to the log service.
    Disconnected,
}

/// Why a `publish` call failed.
#[derive(Clone, Copy, Debug, PartialEq, Eq, Structural)]
pub enum PublishError {
    /// The adapter was not `Open`; nothing was sent.
    State,
    /// The envelope exceeds the configured entry size limit; not retried.
    TooLarge,
    /// The write session was down and the write was not accepted.
    Connection,
}

/// An operation was invoked in the wrong session state. Immediate
/// failure, no side effect.
#[derive(Clone, Copy, Debug, PartialEq, Eq, Structural)]
pub enum StateError {
    /// The operation needs the adapter to be `Open`, and it is not.
    NotOpen,
    /// The session was already opened once; it cannot be opened again.
    AlreadyOpened,
    /// The consumer handle was already taken once.
    HandleTaken,
    /// The consumer handle has not been taken yet.
    HandleNotTaken,
}

/// Shutdown exceeded its bounded wait. The adapter is `Closed` regardless.
#[derive(Clone, Copy, Debug, PartialEq, Eq, Structural)]
pub enum CloseError {
    /// The reader task did not confirm its stop within the shutdown wait.
    Timeout,
}

} // verus!
