//! The model of one network session onto the durable log.
//!
//! The durable log is an ordered append-only store: a session can append
//! an entry at the tail or read the entry at a position. The session
//! counts every network call it attempts and can be detached to stand in
//! for a transient disconnect; while detached every call fails without
//! touching the log. This in-memory model is what the adapter's contracts
//! are stated against; a network-backed session must meet the same
//! contracts call for call.

use vstd::prelude::*;

use crate::codec::LogEntry;
use crate::errors::ConnectionError;

verus! {

/// What a read at a position yields: the entry there, or nothing when the
/// position is still past the tail.
pub open spec fn read_at(entries: Seq<Seq<(Seq<u8>, Seq<u8>)>>, from: int) -> Option<
    Seq<(Seq<u8>, Seq<u8>)>,
> {
    if 0 <= from < entries.len() {
        Some(entries[from])
    } else {
        None
    }
}

/// The views of a vector of log entries, in log order.
pub open spec fn entry_views(entries: Seq<LogEntry>) -> Seq<Seq<(Seq<u8>, Seq<u8>)>> {
    entries.map_values(|e: LogEntry| e@)
}

/// One session to the durable log, together with the log stream it is
/// attached to.
pub struct LogSession {
    entries: Vec<LogEntry>,
    calls: u64,
    attached: bool,
}

impl LogSession {
    /// The entries of the stream this session serves, in append order.
    pub closed spec fn log(&self) -> Seq<Seq<(Seq<u8>, Seq<u8>)>> {
        entry_views(self.entries@)
    }

    /// How many network calls were attempted through this session.
    pub closed spec fn spec_calls(&self) -> u64 {
        self.calls
    }

    /// Whether the session is attached to the log service.
    pub closed spec fn is_attached(&self) -> bool {
        self.attached
    }

    /// A fresh session onto an empty stream.
    pub fn connect() -> (s: LogSession)
        ensures
            s.log() == Seq::<Seq<(Seq<u8>, Seq<u8>)>>::empty(),
            s.spec_calls() == 0,
            s.is_attached(),
    {
        let s = LogSession { entries: Vec::new(), calls: 0, attached: true };
        proof {
            assert(s.log() =~= Seq::<Seq<(Seq<u8>, Seq<u8>)>>::empty());
        }
        s
    }

    /// A session onto a stream that already holds entries: what a process
    /// restart sees after an earlier process appended them.
    pub fn connect_to(entries: Vec<LogEntry>) -> (s: LogSession)
        ensures
            s.log() == entry_views(entries@),
            s.spec_calls() == 0,
            s.is_attached(),
    {
        LogSession { entries, calls: 0, attached: true }
    }

    /// Severs the session: a transient network fault. The log itself keeps
    /// its entries.
    pub fn detach(&mut self)
        ensures
            final(self).log() == old(self).log(),
            final(self).spec_calls() == old(self).spec_calls(),
            !final(self).is_attached(),
    {
        self.attached = false;
    }

    /// Restores the session after a fault.
    pub fn reattach(&mut self)
        ensures
            final(self).log() == old(self).log(),
            final(self).spec_calls() == old(self).spec_calls(),
            final(self).is_attached(),
    {
        self.attached = true;
    }

    /// Whether the session is attached, without a network call.
    pub fn attached_now(&self) -> (b: bool)
        ensures
            b == self.is_attached(),
    {
        self.attached
    }

    /// How many entries the stream holds.
    pub fn entry_count(&self) -> (n: usize)
        ensures
            n == self.log().len(),
    {
        self.entries.len()
    }

    /// The call counter, for observing that an operation performed no
    /// network call.
    pub fn call_count(&self) -> (n: u64)
        ensures
            n == self.spec_calls(),
    {
        self.calls
    }

    /// Appends one entry at the tail. One network call; while detached the
    /// entry is not accepted and the log is unchanged.
    pub fn append(&mut self, entry: LogEntry) -> (r: Result<(), ConnectionError>)
        ensures
            final(self).is_attached() == old(self).is_attached(),
            final(self).spec_calls() == bump(old(self).spec_calls()),
            old(self).is_attached() ==> r is Ok && final(self).log() == old(self).log().push(
                entry@,
            ),
            !old(self).is_attached() ==> r == Err::<(), ConnectionError>(
                ConnectionError::Disconnected,
            ) && final(self).log() == old(self).log(),
    {
        self.calls = bump_counter(self.calls);
        if !self.attached {
            return Err(ConnectionError::Disconnected);
        }
        let ghost before = self.log();
        let ghost v = entry@;
        self.entries.push(entry);
        proof {
            assert(self.log() =~= before.push(v));
        }
        Ok(())
    }

    /// Reads the entry at `from`, or `None` when the stream has no entry
    /// there yet (the long poll timed out with no news). One network call;
    /// fails while detached.
    pub fn try_read(&mut self, from: usize) -> (r: Result<Option<LogEntry>, ConnectionError>)
        ensures
            final(self).is_attached() == old(self).is_attached(),
            final(self).log() == old(self).log(),
            final(self).log().len() <= usize::MAX,
            final(self).spec_calls() == bump(old(self).spec_calls()),
            old(self).is_attached() ==> match r {
                Ok(Some(e)) => read_at(old(self).log(), from as int) == Some(e@),
                Ok(None) => read_at(old(self).log(), from as int) is None,
                Err(_) => false,
            },
            !old(self).is_attached() ==> r == Err::<Option<LogEntry>, ConnectionError>(
                ConnectionError::Disconnected,
            ),
    {
        self.calls = bump_counter(self.calls);
        let n = self.entries.len();
        proof {
            assert(self.log().len() == n);
        }
        if !self.attached {
            return Err(ConnectionError::Disconnected);
        }
        if from < n {
            let e = &self.entries[from];
            Ok(Some(clone_entry(e)))
        } else {
            Ok(None)
        }
    }

    /// Hands the stored entries out, ending the model session: what an
    /// orderly process shutdown leaves durably in the log.
    pub fn into_entries(self) -> (r: Vec<LogEntry>)
        ensures
            entry_views(r@) == self.log(),
    {
        self.entries
    }
}

/// The counter after one more call, held at the ceiling instead of
/// wrapping.
pub open spec fn bump(c: u64) -> u64 {
    if c == u64::MAX {
        c
    } else {
        (c + 1) as u64
    }
}

fn bump_counter(c: u64) -> (r: u64)
    ensures
        r == bump(c),
{
    if c == u64::MAX {
        c
    } else {
        c + 1
    }
}

/// An owned copy of a log entry.
pub fn clone_entry(e: &LogEntry) -> (r: LogEntry)
    ensures
        r@ == e@,
{
    let n: usize = e.fields.len();
    let mut fields: Vec<crate::codec::LogField> = Vec::new();
    let mut i: usize = 0;
    while i < n
        invariant
            n == e.fields.len(),
            i <= n,
            fields@.map_values(|f: crate::codec::LogField| f@) =~= e@.take(i as int),
        decreases n - i,
    {
        let f = &e.fields[i];
        let nf = crate::codec::LogField {
            name: crate::codec::copy_bytes(&f.name),
            value: crate::codec::copy_bytes(&f.value),
        };
        proof {
            assert(nf@ == e@[i as int]);
        }
        let ghost before = fields@;
        fields.push(nf);
        proof {
            assert(fields@.map_values(|f: crate::codec::LogField| f@) =~= before.map_values(
                |f: crate::codec::LogField| f@,
            ).push(e@[i as int]));
            assert(e@.take(i as int + 1) =~= e@.take(i as int).push(e@[i as int]));
            assert(fields@.map_values(|f: crate::codec::LogField| f@) =~= e@.take(i as int + 1));
        }
        i = i + 1;
    }
    let r = LogEntry { fields };
    proof {
        assert(e@.take(n as int) =~= e@);
    }
    r
}

} // verus!
