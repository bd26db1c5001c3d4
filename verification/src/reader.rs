//! The stream reader's state and position.
//!
//! The reader moves through `Idle -> Reading -> (Backoff <-> Reading) ->
//! Stopped`. `start` is the log position it was opened at; `position` is
//! the next log entry to fetch, and advances only after the entry at it
//! has been forwarded to the channel — never on a fault, so recovery
//! re-enters the log exactly where forwarding stopped.

use vstd::prelude::*;

use crate::config::StartPosition;

verus! {

/// The reader's lifecycle state.
#[derive(Clone, Copy, Debug, PartialEq, Eq, Structural)]
pub enum ReaderState {
    /// Not started yet.
    Idle,
    /// Long-polling the log for the entry at `position`.
    Reading,
    /// Waiting out a transient read fault before retrying.
    Backoff,
    /// Terminated: stopped, or failed fatally.
    Stopped,
}

/// The reader's whole state: lifecycle, start offset, next position, and
/// how many retries the current fault has cost so far.
#[derive(Clone, Copy, Debug, PartialEq, Eq, Structural)]
pub struct StreamReader {
    pub state: ReaderState,
    pub start: usize,
    pub position: usize,
    pub retries: u32,
}

impl StreamReader {
    /// The position never falls behind the start, and does not move
    /// before the reader starts.
    pub open spec fn wf(&self) -> bool {
        &&& self.start <= self.position
        &&& self.state is Idle ==> self.position == self.start && self.start == 0
    }

    /// A reader that has not started.
    pub fn idle() -> (r: StreamReader)
        ensures
            r.wf(),
            r == (StreamReader {
                state: ReaderState::Idle,
                start: 0,
                position: 0,
                retries: 0,
            }),
    {
        StreamReader { state: ReaderState::Idle, start: 0, position: 0, retries: 0 }
    }
}

/// Where a configured start position lands on a log that currently holds
/// `log_len` entries: the tail for `Now`, the head for `Earliest`, the
/// offset itself for `Offset` — held at the tail when it lies past it.
pub open spec fn resolve_start_spec(start: StartPosition, log_len: usize) -> usize {
    match start {
        StartPosition::Now => log_len,
        StartPosition::Earliest => 0usize,
        StartPosition::Offset(n) => if n <= log_len as u64 {
            n as usize
        } else {
            log_len
        },
    }
}

/// Resolves a configured start position against the log's current length.
pub fn resolve_start(start: StartPosition, log_len: usize) -> (p: usize)
    ensures
        p == resolve_start_spec(start, log_len),
        p <= log_len,
{
    match start {
        StartPosition::Now => log_len,
        StartPosition::Earliest => 0,
        StartPosition::Offset(n) => if n <= log_len as u64 {
            n as usize
        } else {
            log_len
        },
    }
}

} // verus!
