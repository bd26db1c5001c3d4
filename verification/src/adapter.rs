//! The adapter: lifecycle controller, publisher and reader step in one
//! owned value.
//!
//! One foreground context calls `publish` and `close`; a runner drives
//! `poll_reader` for the background consumption loop, performing one
//! bounded step per call (one long-poll read, one forwarded entry, one
//! backoff decision), and the consumer drains `next_message`. The
//! adapter's single source of truth for "is this open" is its session
//! state; every operation outside `Open` fails with a state error and no
//! side effect.
//!
//! The central invariant, `tracks`, ties the adapter to the log it was
//! opened against: everything ever pushed onto the channel is exactly
//! the decoded log segment from the reader's start position up to its
//! current position, in log order. Every operation preserves it.

use vstd::prelude::*;

use crate::channel::{buffer_views, BoundedChannel, RecvPoll};
use crate::codec::{decode_entry, decode_spec, encode_entry, encode_spec};
use crate::config::{BusConfig, ConfigValue, PublishMode, config_error, config_matches, config_pairs_of, pairs_view};
use crate::envelope::{env_of, Envelope, EnvelopeView};
use crate::errors::{CloseError, ConstructionError, PublishError, StateError};
use crate::identity::{stream_key_spec, IdentityContext};
use crate::reader::{resolve_start, resolve_start_spec, ReaderState, StreamReader};
use crate::session::{bump, read_at, LogSession};

verus! {

/// The adapter's session state.
#[derive(Clone, Copy, Debug, PartialEq, Eq, Structural)]
pub enum SessionState {
    /// Constructed and validated, sessions not opened yet.
    Uninitialized,
    /// Sessions live, reader running: the only state that accepts work.
    Open,
    /// Shutdown in progress.
    Closing,
    /// Terminal. Every further operation fails with a state error.
    Closed,
}

/// What one reader step did.
#[derive(Clone, Copy, Debug, PartialEq, Eq, Structural)]
pub enum PollOutcome {
    /// The adapter is not open or the reader is not running; nothing
    /// happened, no network call was made.
    NotActive,
    /// The backoff wait is over; the reader is reading again, at the
    /// position it left off.
    Resumed,
    /// The channel is full: backpressure. The reader did not read, so
    /// the log itself buffers until the consumer catches up.
    Throttled,
    /// The long poll found no entry at the current position yet.
    NoNews,
    /// One entry was read, decoded and pushed onto the channel, and the
    /// position advanced past it.
    Forwarded,
    /// A transient read fault: the reader backs off, keeping its
    /// position, and will retry.
    BackedOff,
    /// Retries are exhausted: fatal. The reader stopped, the channel
    /// terminated, and the adapter is `Closed`.
    LostConnection,
    /// An entry would not decode: non-transient. The reader stopped and
    /// the channel terminated, surfacing the fault as end-of-stream.
    BadEntry,
}

/// The decoded log segment `start..end`: what a reader that has
/// forwarded exactly that range has pushed onto its channel.
pub open spec fn delivered_segment(
    log: Seq<Seq<(Seq<u8>, Seq<u8>)>>,
    start: int,
    end: int,
) -> Seq<EnvelopeView> {
    Seq::new((end - start) as nat, |i: int| decode_spec(log[start + i])->Some_0)
}

/// Every entry of the log segment `start..end` decodes.
pub open spec fn all_decodable(log: Seq<Seq<(Seq<u8>, Seq<u8>)>>, start: int, end: int) -> bool {
    forall|i: int| start <= i < end ==> (#[trigger] decode_spec(log[i])) is Some
}

/// The entries a sequence of envelopes encodes to, in order.
pub open spec fn encoded_views(q: Seq<EnvelopeView>) -> Seq<Seq<(Seq<u8>, Seq<u8>)>> {
    Seq::new(q.len(), |i: int| encode_spec(q[i]))
}

/// The call counter after `n` more calls.
pub open spec fn bumps(c: u64, n: nat) -> u64
    decreases n,
{
    if n == 0 {
        c
    } else {
        bump(bumps(c, (n - 1) as nat))
    }
}

/// The durable, ordered message-bus adapter.
pub struct MessageBusAdapter {
    state: SessionState,
    cfg: BusConfig,
    identity: IdentityContext,
    stream_key: Vec<u8>,
    queue: Vec<Envelope>,
    reader: StreamReader,
    chan: BoundedChannel,
    handle_taken: bool,
}

impl MessageBusAdapter {
    /// The session state.
    pub closed spec fn spec_state(&self) -> SessionState {
        self.state
    }

    /// The validated configuration.
    pub closed spec fn spec_cfg(&self) -> BusConfig {
        self.cfg
    }

    /// The identity context.
    pub closed spec fn spec_identity(&self) -> IdentityContext {
        self.identity
    }

    /// The derived stream key bytes.
    pub closed spec fn spec_stream_key(&self) -> Seq<u8> {
        self.stream_key@
    }

    /// The reader's state.
    pub closed spec fn spec_reader(&self) -> StreamReader {
        self.reader
    }

    /// Everything the reader ever pushed onto the channel, oldest first.
    pub closed spec fn chan_sent(&self) -> Seq<EnvelopeView> {
        self.chan.sent()
    }

    /// Everything the consumer took out, oldest first.
    pub closed spec fn chan_delivered(&self) -> Seq<EnvelopeView> {
        self.chan.delivered()
    }

    /// Whether the channel has terminated.
    pub closed spec fn chan_closed(&self) -> bool {
        self.chan.is_closed()
    }

    /// How many envelopes sit in the channel.
    pub closed spec fn chan_buffered(&self) -> nat {
        self.chan.buffered()
    }

    /// The publisher's local send queue (buffered mode), oldest first.
    pub closed spec fn queued(&self) -> Seq<EnvelopeView> {
        buffer_views(self.queue@)
    }

    /// Whether the consumer handle was taken.
    pub closed spec fn spec_handle_taken(&self) -> bool {
        self.handle_taken
    }

    /// The adapter's own consistency.
    pub closed spec fn wf(&self) -> bool {
        &&& self.cfg.wf()
        &&& self.chan.wf()
        &&& self.chan.spec_capacity() == self.cfg.channel_capacity
        &&& self.reader.wf()
        &&& self.stream_key@ == stream_key_spec(
            self.cfg.stream_key_prefix@,
            self.identity.trader(),
            self.identity.instance(),
        )
        &&& self.state is Uninitialized ==> self.reader.state is Idle && !self.handle_taken
            && self.chan.sent().len() == 0
        &&& !(self.state is Uninitialized) ==> !(self.reader.state is Idle)
        &&& self.state is Closed ==> self.reader.state is Stopped && self.chan.is_closed()
            && self.queue@.len() == 0
        &&& self.chan.is_closed() ==> self.reader.state is Stopped
        &&& self.cfg.publish_mode is Ack ==> self.queue@.len() == 0
    }

    /// The adapter against the log it was opened on: the channel's whole
    /// history is exactly the decoded log segment from the reader's start
    /// to its position. This is what makes delivery ordered, gapless and
    /// duplicate-free.
    pub closed spec fn tracks(&self, log: Seq<Seq<(Seq<u8>, Seq<u8>)>>) -> bool {
        &&& self.wf()
        &&& !(self.reader.state is Idle) ==> {
            &&& self.reader.position <= log.len()
            &&& all_decodable(log, self.reader.start as int, self.reader.position as int)
            &&& self.chan.sent() == delivered_segment(
                log,
                self.reader.start as int,
                self.reader.position as int,
            )
        }
    }

    /// Validates identity-independent configuration and builds the
    /// adapter, still `Uninitialized`: no session exists and nothing has
    /// been read or published.
    pub fn new(identity: IdentityContext, pairs: &Vec<(String, ConfigValue)>) -> (r: Result<
        MessageBusAdapter,
        ConstructionError,
    >)
        ensures
            match r {
                Ok(a) => {
                    &&& config_error(pairs_view(pairs@)) is None
                    &&& a.wf()
                    &&& config_matches(a.spec_cfg(), pairs_view(pairs@))
                    &&& a.spec_state() is Uninitialized
                    &&& a.spec_identity() == identity
                    &&& a.chan_sent() == Seq::<EnvelopeView>::empty()
                    &&& a.chan_delivered() == Seq::<EnvelopeView>::empty()
                    &&& a.chan_buffered() == 0
                    &&& !a.chan_closed()
                    &&& a.queued() == Seq::<EnvelopeView>::empty()
                    &&& !a.spec_handle_taken()
                    &&& forall|log: Seq<Seq<(Seq<u8>, Seq<u8>)>>| #[trigger] a.tracks(log)
                },
                Err(e) => config_error(pairs_view(pairs@)) == Some(e),
            },
            r is Ok <==> config_error(pairs_view(pairs@)) is None,
    {
        let cfg = match BusConfig::from_pairs(pairs) {
            Ok(cfg) => cfg,
            Err(e) => { return Err(e) },
        };
        let stream_key = identity.derive_stream_key(cfg.stream_key_prefix.as_str());
        let chan = BoundedChannel::new(cfg.channel_capacity);
        let a = MessageBusAdapter {
            state: SessionState::Uninitialized,
            cfg,
            identity,
            stream_key,
            queue: Vec::new(),
            reader: StreamReader::idle(),
            chan,
            handle_taken: false,
        };
        proof {
            assert(buffer_views(a.queue@) =~= Seq::<EnvelopeView>::empty());
            assert(a.wf());
            assert forall|log: Seq<Seq<(Seq<u8>, Seq<u8>)>>| #[trigger] a.tracks(log) by {}
        }
        Ok(a)
    }

    /// Opens the adapter against a log session: positions the reader at
    /// the configured start on the log as it stands now and starts
    /// reading. Fails with no side effect unless `Uninitialized`.
    pub fn open_session(&mut self, conn: &LogSession) -> (r: Result<(), StateError>)
        requires
            old(self).wf(),
        ensures
            final(self).wf(),
            !(old(self).spec_state() is Uninitialized) ==> r == Err::<(), StateError>(
                StateError::AlreadyOpened,
            ) && *final(self) == *old(self),
            old(self).spec_state() is Uninitialized ==> {
                &&& r is Ok
                &&& final(self).spec_state() is Open
                &&& final(self).tracks(conn.log())
                &&& final(self).spec_reader().state is Reading
                &&& final(self).spec_reader().start == resolve_start_spec(
                    old(self).spec_cfg().start_position,
                    conn.log().len() as usize,
                )
                &&& final(self).spec_reader().position == final(self).spec_reader().start
                &&& final(self).spec_cfg() == old(self).spec_cfg()
                &&& final(self).spec_identity() == old(self).spec_identity()
                &&& final(self).spec_stream_key() == old(self).spec_stream_key()
                &&& final(self).chan_sent() == old(self).chan_sent()
                &&& final(self).chan_delivered() == old(self).chan_delivered()
                &&& final(self).chan_buffered() == 0
                &&& !final(self).chan_closed()
                &&& final(self).queued() == old(self).queued()
                &&& !final(self).spec_handle_taken()
            },
    {
        if !matches!(self.state, SessionState::Uninitialized) {
            return Err(StateError::AlreadyOpened);
        }
        proof {
            self.chan.lemma_history();
        }
        let log_len = conn.entry_count();
        let pos = resolve_start(self.cfg.start_position, log_len);
        self.reader.state = ReaderState::Reading;
        self.reader.start = pos;
        self.reader.position = pos;
        self.state = SessionState::Open;
        proof {
            assert(delivered_segment(conn.log(), pos as int, pos as int) =~= Seq::<
                EnvelopeView,
            >::empty());
            assert(self.chan.sent() =~= Seq::<EnvelopeView>::empty());
        }
        Ok(())
    }

    /// Publishes one envelope under this adapter's stream key.
    ///
    /// Outside `Open` this fails with a state error and performs no
    /// network call. An envelope over the configured entry size fails
    /// immediately, unretried. In acknowledged mode success is returned
    /// only after the log has accepted the append — the new entry is then
    /// visible to a read at the log's previous tail; a transient write
    /// fault is retried up to the reconnect ceiling before surfacing, and
    /// exhausting the retries is fatal: the adapter transitions to
    /// `Closed` and the caller must re-open. In buffered mode the
    /// envelope enters the local send queue and the log is not touched.
    pub fn publish(&mut self, conn: &mut LogSession, topic: bytes::Bytes, payload: bytes::Bytes)
        -> (r: Result<(), PublishError>)
        requires
            old(self).wf(),
        ensures
            final(self).wf(),
            final(self).spec_cfg() == old(self).spec_cfg(),
            final(self).spec_identity() == old(self).spec_identity(),
            final(self).spec_stream_key() == old(self).spec_stream_key(),
            final(self).chan_sent() == old(self).chan_sent(),
            final(self).chan_delivered() == old(self).chan_delivered(),
            final(self).spec_handle_taken() == old(self).spec_handle_taken(),
            final(conn).is_attached() == old(conn).is_attached(),
            old(self).tracks(old(conn).log()) ==> final(self).tracks(final(conn).log()),
            !(old(self).spec_state() is Open) ==> r == Err::<(), PublishError>(PublishError::State)
                && *final(self) == *old(self) && *final(conn) == *old(conn),
            old(self).spec_state() is Open ==> ({
                let env = env_of(topic, payload);
                let fits = env.topic.len() + env.payload.len()
                    <= old(self).spec_cfg().max_entry_bytes;
                &&& !fits ==> r == Err::<(), PublishError>(PublishError::TooLarge) && *final(self)
                    == *old(self) && *final(conn) == *old(conn)
                &&& fits && old(self).spec_cfg().publish_mode is Ack && old(conn).is_attached()
                    ==> {
                    &&& r is Ok
                    &&& final(conn).log() == old(conn).log().push(encode_spec(env))
                    &&& read_at(final(conn).log(), old(conn).log().len() as int) == Some(
                        encode_spec(env),
                    )
                    &&& final(conn).spec_calls() == bump(old(conn).spec_calls())
                    &&& *final(self) == *old(self)
                }
                &&& fits && old(self).spec_cfg().publish_mode is Ack && !old(conn).is_attached()
                    ==> {
                    &&& r == Err::<(), PublishError>(PublishError::Connection)
                    &&& final(conn).log() == old(conn).log()
                    &&& final(conn).spec_calls() == bumps(
                        old(conn).spec_calls(),
                        (old(self).spec_cfg().max_retries + 1) as nat,
                    )
                    &&& final(self).spec_state() is Closed
                    &&& final(self).spec_reader().state is Stopped
                    &&& final(self).spec_reader().position == old(self).spec_reader().position
                    &&& final(self).spec_reader().start == old(self).spec_reader().start
                    &&& final(self).chan_closed()
                    &&& final(self).queued().len() == 0
                }
                &&& fits && old(self).spec_cfg().publish_mode is Buffered ==> {
                    &&& r is Ok
                    &&& *final(conn) == *old(conn)
                    &&& final(self).queued() == old(self).queued().push(env)
                    &&& final(self).spec_state() == old(self).spec_state()
                    &&& final(self).spec_reader() == old(self).spec_reader()
                    &&& final(self).chan_closed() == old(self).chan_closed()
                }
            }),
    {
        if !matches!(self.state, SessionState::Open) {
            return Err(PublishError::State);
        }
        let env = Envelope::new(topic, payload);
        let topic_len = env.topic_len();
        let payload_len = env.payload_len();
        let max = self.cfg.max_entry_bytes;
        if topic_len > max || payload_len > max - topic_len {
            return Err(PublishError::TooLarge);
        }
        match self.cfg.publish_mode {
            PublishMode::Ack => {
                let ghost calls0 = conn.spec_calls();
                let retry_ceiling = self.cfg.max_retries;
                let mut attempt: u32 = 0;
                loop
                    invariant
                        *self == *old(self),
                        self.wf(),
                        self.state is Open,
                        self.cfg.publish_mode is Ack,
                        retry_ceiling == self.cfg.max_retries,
                        env@ == env_of(topic, payload),
                        env@.topic.len() + env@.payload.len() <= self.cfg.max_entry_bytes,
                        conn.is_attached() == old(conn).is_attached(),
                        conn.log() == old(conn).log(),
                        conn.spec_calls() == bumps(calls0, attempt as nat),
                        calls0 == old(conn).spec_calls(),
                        attempt <= retry_ceiling,
                        attempt > 0 ==> !conn.is_attached(),
                    decreases retry_ceiling - attempt,
                {
                    let entry = encode_entry(&env);
                    match conn.append(entry) {
                        Ok(()) => {
                            proof {
                                if old(self).tracks(old(conn).log()) {
                                    assert(old(conn).log() =~= conn.log().take(
                                        old(conn).log().len() as int,
                                    ));
                                    lemma_tracks_grows(*self, old(conn).log(), conn.log());
                                }
                            }
                            return Ok(());
                        },
                        Err(_) => {
                            if attempt == retry_ceiling {
                                self.reader.state = ReaderState::Stopped;
                                self.chan.close_sender();
                                self.queue = Vec::new();
                                self.state = SessionState::Closed;
                                proof {
                                    assert(buffer_views(self.queue@) =~= Seq::<
                                        EnvelopeView,
                                    >::empty());
                                }
                                return Err(PublishError::Connection);
                            }
                            attempt = attempt + 1;
                        },
                    }
                }
            },
            PublishMode::Buffered => {
                self.queue.push(env);
                proof {
                    assert(buffer_views(self.queue@) =~= buffer_views(old(self).queue@).push(
                        env_of(topic, payload),
                    ));
                }
                Ok(())
            },
        }
    }

    /// Hands out the consumer side of the channel: once, and only while
    /// `Open`.
    pub fn take_stream(&mut self) -> (r: Result<(), StateError>)
        requires
            old(self).wf(),
        ensures
            final(self).wf(),
            !(old(self).spec_state() is Open) ==> r == Err::<(), StateError>(StateError::NotOpen)
                && *final(self) == *old(self),
            old(self).spec_state() is Open && old(self).spec_handle_taken() ==> r == Err::<
                (),
                StateError,
            >(StateError::HandleTaken) && *final(self) == *old(self),
            old(self).spec_state() is Open && !old(self).spec_handle_taken() ==> {
                &&& r is Ok
                &&& final(self).spec_handle_taken()
                &&& final(self).spec_state() == old(self).spec_state()
                &&& final(self).spec_cfg() == old(self).spec_cfg()
                &&& final(self).spec_identity() == old(self).spec_identity()
                &&& final(self).spec_stream_key() == old(self).spec_stream_key()
                &&& final(self).spec_reader() == old(self).spec_reader()
                &&& final(self).chan_sent() == old(self).chan_sent()
                &&& final(self).chan_delivered() == old(self).chan_delivered()
                &&& final(self).chan_closed() == old(self).chan_closed()
                &&& final(self).chan_buffered() == old(self).chan_buffered()
                &&& final(self).queued() == old(self).queued()
                &&& forall|log: Seq<Seq<(Seq<u8>, Seq<u8>)>>|
                    old(self).tracks(log) ==> #[trigger] final(self).tracks(log)
            },
    {
        if !matches!(self.state, SessionState::Open) {
            return Err(StateError::NotOpen);
        }
        if self.handle_taken {
            return Err(StateError::HandleTaken);
        }
        self.handle_taken = true;
        Ok(())
    }

    /// One receive attempt on the consumer handle: the next envelope in
    /// order, `Pending` when nothing is buffered yet, `Ended` once the
    /// channel has terminated and drained.
    pub fn next_message(&mut self) -> (r: Result<RecvPoll, StateError>)
        requires
            old(self).wf(),
        ensures
            final(self).wf(),
            final(self).spec_state() == old(self).spec_state(),
            final(self).spec_cfg() == old(self).spec_cfg(),
            final(self).spec_reader() == old(self).spec_reader(),
            final(self).chan_sent() == old(self).chan_sent(),
            final(self).chan_closed() == old(self).chan_closed(),
            final(self).queued() == old(self).queued(),
            final(self).spec_handle_taken() == old(self).spec_handle_taken(),
            forall|log: Seq<Seq<(Seq<u8>, Seq<u8>)>>|
                old(self).tracks(log) ==> #[trigger] final(self).tracks(log),
            !old(self).spec_handle_taken() ==> r == Err::<RecvPoll, StateError>(
                StateError::HandleNotTaken,
            ) && *final(self) == *old(self),
            old(self).spec_handle_taken() ==> match r {
                Ok(RecvPoll::Item(e)) => {
                    &&& old(self).chan_buffered() > 0
                    &&& e@ == old(self).chan_sent()[old(self).chan_delivered().len() as int]
                    &&& final(self).chan_delivered() == old(self).chan_delivered().push(e@)
                },
                Ok(RecvPoll::Pending) => old(self).chan_buffered() == 0 && !old(self).chan_closed()
                    && *final(self) == *old(self),
                Ok(RecvPoll::Ended) => old(self).chan_buffered() == 0 && old(self).chan_closed()
                    && *final(self) == *old(self),
                Err(_) => false,
            },
    {
        if !self.handle_taken {
            return Err(StateError::HandleNotTaken);
        }
        let r = self.chan.recv();
        proof {
            assert forall|log: Seq<Seq<(Seq<u8>, Seq<u8>)>>|
                old(self).tracks(log) implies #[trigger] self.tracks(log) by {}
        }
        Ok(r)
    }

    /// One step of the background consumption loop. See `PollOutcome`
    /// for the cases; the runner sleeps `backoff_delay_ms` between a
    /// `BackedOff` and its `Resumed`.
    pub fn poll_reader(&mut self, conn: &mut LogSession) -> (r: PollOutcome)
        requires
            old(self).wf(),
            old(self).tracks(old(conn).log()),
        ensures
            final(self).wf(),
            final(self).tracks(final(conn).log()),
            final(conn).log() == old(conn).log(),
            final(conn).is_attached() == old(conn).is_attached(),
            final(self).spec_cfg() == old(self).spec_cfg(),
            final(self).spec_identity() == old(self).spec_identity(),
            final(self).spec_stream_key() == old(self).spec_stream_key(),
            final(self).chan_delivered() == old(self).chan_delivered(),
            final(self).spec_handle_taken() == old(self).spec_handle_taken(),
            final(self).spec_reader().start == old(self).spec_reader().start,
            match r {
                PollOutcome::NotActive => (!(old(self).spec_state() is Open) || old(
                    self,
                ).spec_reader().state is Stopped) && *final(self) == *old(self) && *final(conn)
                    == *old(conn),
                PollOutcome::Resumed => {
                    &&& old(self).spec_state() is Open
                    &&& old(self).spec_reader().state is Backoff
                    &&& *final(conn) == *old(conn)
                    &&& final(self).spec_reader() == (StreamReader {
                        state: ReaderState::Reading,
                        ..old(self).spec_reader()
                    })
                    &&& final(self).spec_state() == old(self).spec_state()
                    &&& final(self).chan_sent() == old(self).chan_sent()
                    &&& !final(self).chan_closed()
                    &&& final(self).queued() == old(self).queued()
                },
                PollOutcome::Throttled => {
                    &&& old(self).spec_state() is Open
                    &&& old(self).spec_reader().state is Reading
                    &&& old(self).chan_buffered() == old(self).spec_cfg().channel_capacity
                    &&& *final(self) == *old(self)
                    &&& *final(conn) == *old(conn)
                },
                PollOutcome::NoNews => {
                    &&& old(self).spec_state() is Open
                    &&& old(self).spec_reader().state is Reading
                    &&& old(conn).is_attached()
                    &&& old(self).spec_reader().position >= old(conn).log().len()
                    &&& final(conn).spec_calls() == bump(old(conn).spec_calls())
                    &&& final(self).spec_reader() == (StreamReader {
                        retries: 0,
                        ..old(self).spec_reader()
                    })
                    &&& final(self).spec_state() == old(self).spec_state()
                    &&& final(self).chan_sent() == old(self).chan_sent()
                    &&& !final(self).chan_closed()
                    &&& final(self).queued() == old(self).queued()
                },
                PollOutcome::Forwarded => {
                    &&& old(self).spec_state() is Open
                    &&& old(self).spec_reader().state is Reading
                    &&& old(conn).is_attached()
                    &&& old(self).spec_reader().position < old(conn).log().len()
                    &&& decode_spec(old(conn).log()[old(self).spec_reader().position as int])
                        is Some
                    &&& final(self).spec_reader() == (StreamReader {
                        position: (old(self).spec_reader().position + 1) as usize,
                        retries: 0,
                        ..old(self).spec_reader()
                    })
                    &&& final(self).chan_sent() == old(self).chan_sent().push(
                        decode_spec(old(conn).log()[old(self).spec_reader().position as int])
                            ->Some_0,
                    )
                    &&& final(conn).spec_calls() == bump(old(conn).spec_calls())
                    &&& final(self).spec_state() == old(self).spec_state()
                    &&& !final(self).chan_closed()
                    &&& final(self).queued() == old(self).queued()
                },
                PollOutcome::BackedOff => {
                    &&& old(self).spec_state() is Open
                    &&& old(self).spec_reader().state is Reading
                    &&& !old(conn).is_attached()
                    &&& old(self).spec_reader().retries < old(self).spec_cfg().max_retries
                    &&& final(self).spec_reader() == (StreamReader {
                        state: ReaderState::Backoff,
                        retries: (old(self).spec_reader().retries + 1) as u32,
                        ..old(self).spec_reader()
                    })
                    &&& final(conn).spec_calls() == bump(old(conn).spec_calls())
                    &&& final(self).spec_state() == old(self).spec_state()
                    &&& final(self).chan_sent() == old(self).chan_sent()
                    &&& !final(self).chan_closed()
                    &&& final(self).queued() == old(self).queued()
                },
                PollOutcome::LostConnection => {
                    &&& old(self).spec_state() is Open
                    &&& old(self).spec_reader().state is Reading
                    &&& !old(conn).is_attached()
                    &&& old(self).spec_reader().retries >= old(self).spec_cfg().max_retries
                    &&& final(self).spec_state() is Closed
                    &&& final(self).spec_reader().state is Stopped
                    &&& final(self).spec_reader().position == old(self).spec_reader().position
                    &&& final(self).chan_closed()
                    &&& final(self).chan_sent() == old(self).chan_sent()
                    &&& final(self).queued().len() == 0
                    &&& final(conn).spec_calls() == bump(old(conn).spec_calls())
                },
                PollOutcome::BadEntry => {
                    &&& old(self).spec_state() is Open
                    &&& old(self).spec_reader().state is Reading
                    &&& old(conn).is_attached()
                    &&& old(self).spec_reader().position < old(conn).log().len()
                    &&& decode_spec(old(conn).log()[old(self).spec_reader().position as int])
                        is None
                    &&& final(self).spec_reader() == (StreamReader {
                        state: ReaderState::Stopped,
                        ..old(self).spec_reader()
                    })
                    &&& final(self).chan_closed()
                    &&& final(self).chan_sent() == old(self).chan_sent()
                    &&& final(conn).spec_calls() == bump(old(conn).spec_calls())
                    &&& final(self).spec_state() == old(self).spec_state()
                    &&& final(self).queued() == old(self).queued()
                },
            },
    {
        if !matches!(self.state, SessionState::Open) {
            return PollOutcome::NotActive;
        }
        match self.reader.state {
            ReaderState::Idle => PollOutcome::NotActive,
            ReaderState::Stopped => PollOutcome::NotActive,
            ReaderState::Backoff => {
                self.reader.state = ReaderState::Reading;
                PollOutcome::Resumed
            },
            ReaderState::Reading => {
                if self.chan.room() == 0 {
                    return PollOutcome::Throttled;
                }
                match conn.try_read(self.reader.position) {
                    Err(_) => {
                        if self.reader.retries < self.cfg.max_retries {
                            self.reader.retries = self.reader.retries + 1;
                            self.reader.state = ReaderState::Backoff;
                            PollOutcome::BackedOff
                        } else {
                            self.reader.state = ReaderState::Stopped;
                            self.chan.close_sender();
                            self.queue = Vec::new();
                            self.state = SessionState::Closed;
                            proof {
                                assert(buffer_views(self.queue@) =~= Seq::<EnvelopeView>::empty());
                            }
                            PollOutcome::LostConnection
                        }
                    },
                    Ok(None) => {
                        self.reader.retries = 0;
                        PollOutcome::NoNews
                    },
                    Ok(Some(entry)) => {
                        match decode_entry(&entry) {
                            None => {
                                self.reader.state = ReaderState::Stopped;
                                self.chan.close_sender();
                                PollOutcome::BadEntry
                            },
                            Some(env) => {
                                let ghost log = conn.log();
                                let ghost s = self.reader.start as int;
                                let ghost p = self.reader.position as int;
                                self.chan.send(env);
                                self.reader.position = self.reader.position + 1;
                                self.reader.retries = 0;
                                proof {
                                    assert(decode_spec(log[p]) is Some);
                                    assert(self.chan.sent()[p - s] == decode_spec(log[p])->Some_0);
                                    assert(delivered_segment(log, s, p + 1) =~= delivered_segment(
                                        log,
                                        s,
                                        p,
                                    ).push(decode_spec(log[p])->Some_0));
                                }
                                PollOutcome::Forwarded
                            },
                        }
                    },
                }
            },
        }
    }

    /// Shuts the adapter down, idempotently: stop the reader, flush the
    /// buffered send queue while a session is attached, terminate the
    /// channel, close the sessions, and settle in `Closed`. A second
    /// call is a success with no effect at all. A detached session
    /// cannot take the remaining buffered envelopes; they are dropped
    /// with the close still reported as orderly, since acknowledged
    /// durability was never promised for buffered mode.
    pub fn close(&mut self, conn: &mut LogSession) -> (r: Result<(), CloseError>)
        requires
            old(self).wf(),
            old(self).tracks(old(conn).log()),
        ensures
            r is Ok,
            final(self).wf(),
            final(self).tracks(final(conn).log()),
            final(self).spec_state() is Closed,
            final(self).spec_reader().state is Stopped,
            final(self).spec_reader().position == old(self).spec_reader().position,
            final(self).spec_reader().start == old(self).spec_reader().start,
            final(self).chan_closed(),
            final(self).queued().len() == 0,
            final(self).chan_sent() == old(self).chan_sent(),
            final(self).chan_delivered() == old(self).chan_delivered(),
            final(self).spec_cfg() == old(self).spec_cfg(),
            final(self).spec_handle_taken() == old(self).spec_handle_taken(),
            old(self).spec_state() is Closed ==> *final(self) == *old(self) && *final(conn)
                == *old(conn),
            !(old(self).spec_state() is Closed) ==> {
                &&& !final(conn).is_attached()
                &&& old(self).spec_cfg().publish_mode is Buffered && old(conn).is_attached()
                    ==> final(conn).log() == old(conn).log() + encoded_views(old(self).queued())
                    && final(conn).spec_calls() == bumps(
                    old(conn).spec_calls(),
                    old(self).queued().len(),
                )
                &&& !(old(self).spec_cfg().publish_mode is Buffered && old(conn).is_attached())
                    ==> final(conn).log() == old(conn).log() && final(conn).spec_calls() == old(
                    conn,
                ).spec_calls()
            },
    {
        if matches!(self.state, SessionState::Closed) {
            return Ok(());
        }
        self.state = SessionState::Closing;
        self.reader.state = ReaderState::Stopped;
        let ghost log0 = conn.log();
        let ghost calls0 = conn.spec_calls();
        let ghost q0 = buffer_views(old(self).queue@);
        let ghost pre = *self;
        if matches!(self.cfg.publish_mode, PublishMode::Buffered) && conn.attached_now() {
            proof {
                assert(buffer_views(self.queue@) =~= q0.skip(0));
                assert(log0 + encoded_views(q0.take(0)) =~= log0);
            }
            while self.queue.len() > 0
                invariant
                    conn.is_attached(),
                    self.chan == pre.chan,
                    self.state == pre.state,
                    self.reader == pre.reader,
                    self.cfg == pre.cfg,
                    self.identity == pre.identity,
                    self.stream_key == pre.stream_key,
                    self.handle_taken == pre.handle_taken,
                    buffer_views(self.queue@) =~= q0.skip(
                        (q0.len() - buffer_views(self.queue@).len()) as int,
                    ),
                    buffer_views(self.queue@).len() <= q0.len(),
                    conn.log() == log0 + encoded_views(
                        q0.take((q0.len() - buffer_views(self.queue@).len()) as int),
                    ),
                    conn.spec_calls() == bumps(
                        calls0,
                        (q0.len() - buffer_views(self.queue@).len()) as nat,
                    ),
                decreases self.queue.len(),
            {
                let ghost k = (q0.len() - buffer_views(self.queue@).len()) as int;
                proof {
                    assert(buffer_views(self.queue@)[0] == q0[k]);
                }
                let e = self.queue.remove(0);
                proof {
                    assert(e@ == q0[k]);
                    assert(buffer_views(self.queue@) =~= q0.skip(k).remove(0));
                    assert(q0.skip(k).remove(0) =~= q0.skip(k + 1));
                }
                let entry = encode_entry(&e);
                let ghost before = conn.log();
                let _ = conn.append(entry);
                proof {
                    assert(conn.log() == before.push(encode_spec(q0[k])));
                    assert(encoded_views(q0.take(k + 1)) =~= encoded_views(q0.take(k)).push(
                        encode_spec(q0[k]),
                    ));
                    assert(conn.log() =~= log0 + encoded_views(q0.take(k + 1)));
                }
            }
            proof {
                assert(q0.take(q0.len() as int) =~= q0);
            }
        } else {
            self.queue = Vec::new();
        }
        self.chan.close_sender();
        conn.detach();
        self.state = SessionState::Closed;
        proof {
            assert(buffer_views(self.queue@) =~= Seq::<EnvelopeView>::empty());
            if old(self).spec_reader().state is Idle {
                assert(self.chan.sent().len() == 0);
                assert(delivered_segment(conn.log(), 0, 0) =~= Seq::<EnvelopeView>::empty());
                assert(self.chan.sent() =~= delivered_segment(conn.log(), 0, 0));
            } else {
                assert(old(conn).log() =~= conn.log().take(old(conn).log().len() as int));
                lemma_tracks_segment_transfer(*old(self), *self, old(conn).log(), conn.log());
            }
        }
        Ok(())
    }
}

impl MessageBusAdapter {
    /// Parses and validates JSON configuration text and builds the
    /// adapter: what a host process hands over as raw bytes.
    pub fn from_json(identity: IdentityContext, config_json: &Vec<u8>) -> (r: Result<
        MessageBusAdapter,
        ConstructionError,
    >)
        ensures
            match r {
                Ok(a) => {
                    &&& config_pairs_of(config_json@) is Some
                    &&& config_error(config_pairs_of(config_json@)->Some_0) is None
                    &&& a.wf()
                    &&& config_matches(a.spec_cfg(), config_pairs_of(config_json@)->Some_0)
                    &&& a.spec_state() is Uninitialized
                    &&& a.spec_identity() == identity
                    &&& a.chan_sent() == Seq::<EnvelopeView>::empty()
                    &&& a.chan_delivered() == Seq::<EnvelopeView>::empty()
                    &&& a.chan_buffered() == 0
                    &&& !a.chan_closed()
                    &&& a.queued() == Seq::<EnvelopeView>::empty()
                    &&& !a.spec_handle_taken()
                    &&& forall|log: Seq<Seq<(Seq<u8>, Seq<u8>)>>| #[trigger] a.tracks(log)
                },
                Err(e) => {
                    &&& config_pairs_of(config_json@) is None ==> e
                        == ConstructionError::InvalidConfigText
                    &&& config_pairs_of(config_json@) matches Some(ps) ==> config_error(ps)
                        == Some(e)
                },
            },
            r is Ok <==> (config_pairs_of(config_json@) matches Some(ps) && config_error(ps)
                is None),
    {
        let pairs = match crate::config::config_pairs_from_json(config_json) {
            Ok(pairs) => pairs,
            Err(e) => { return Err(e) },
        };
        MessageBusAdapter::new(identity, &pairs)
    }

    /// The session state.
    pub fn session_state(&self) -> (s: SessionState)
        ensures
            s == self.spec_state(),
    {
        self.state
    }

    /// The reader's current state, start and position.
    pub fn reader_snapshot(&self) -> (r: StreamReader)
        ensures
            r == self.spec_reader(),
    {
        self.reader
    }

    /// A copy of the derived stream key bytes.
    pub fn stream_key_bytes(&self) -> (k: Vec<u8>)
        ensures
            k@ == self.spec_stream_key(),
    {
        crate::codec::copy_bytes(&self.stream_key)
    }

    /// How many envelopes wait in the buffered send queue.
    pub fn queued_count(&self) -> (n: usize)
        ensures
            n == self.queued().len(),
    {
        self.queue.len()
    }

    /// How many envelopes sit in the channel, not yet taken out.
    pub fn channel_backlog(&self) -> (n: usize)
        ensures
            n == self.chan_buffered(),
    {
        self.chan.backlog()
    }

    /// The configured backoff delay before the given retry attempt.
    pub fn reconnect_delay_ms(&self, attempt: u32) -> (d: u64)
        ensures
            d == crate::config::backoff_spec(
                self.spec_cfg().backoff_base_ms,
                self.spec_cfg().backoff_max_ms,
                attempt as nat,
            ),
    {
        self.cfg.backoff_delay_ms(attempt)
    }
}

/// A tracked adapter still tracks the log after entries are appended past
/// its reader's position: what was already forwarded is untouched, so
/// out-of-band growth of the log disturbs nothing.
pub proof fn lemma_tracks_grows(
    a: MessageBusAdapter,
    log1: Seq<Seq<(Seq<u8>, Seq<u8>)>>,
    log2: Seq<Seq<(Seq<u8>, Seq<u8>)>>,
)
    requires
        a.tracks(log1),
        log1.len() <= log2.len(),
        log1 == log2.take(log1.len() as int),
    ensures
        a.tracks(log2),
{
    if !(a.spec_reader().state is Idle) {
        let s = a.spec_reader().start as int;
        let p = a.spec_reader().position as int;
        assert forall|i: int| s <= i < p implies (#[trigger] decode_spec(log2[i])) is Some by {
            assert(log1[i] == log2[i]);
        }
        assert forall|i: int| 0 <= i < p - s implies delivered_segment(log2, s, p)[i]
            == delivered_segment(log1, s, p)[i] by {
            assert(log1[s + i] == log2[s + i]);
        }
        assert(delivered_segment(log2, s, p) =~= delivered_segment(log1, s, p));
    }
}

/// Carries the tracking segment from one adapter state to another that
/// kept the reader's window and channel history, over a log that only
/// grew.
proof fn lemma_tracks_segment_transfer(
    before: MessageBusAdapter,
    after: MessageBusAdapter,
    log1: Seq<Seq<(Seq<u8>, Seq<u8>)>>,
    log2: Seq<Seq<(Seq<u8>, Seq<u8>)>>,
)
    requires
        before.tracks(log1),
        !(before.spec_reader().state is Idle),
        !(after.spec_reader().state is Idle),
        after.spec_reader().start == before.spec_reader().start,
        after.spec_reader().position == before.spec_reader().position,
        after.chan_sent() == before.chan_sent(),
        log1.len() <= log2.len(),
        log1 == log2.take(log1.len() as int),
    ensures
        after.spec_reader().position <= log2.len(),
        all_decodable(log2, after.spec_reader().start as int, after.spec_reader().position as int),
        after.chan_sent() == delivered_segment(
            log2,
            after.spec_reader().start as int,
            after.spec_reader().position as int,
        ),
{
    let s = before.spec_reader().start as int;
    let p = before.spec_reader().position as int;
    assert forall|i: int| s <= i < p implies (#[trigger] decode_spec(log2[i])) is Some by {
        assert(log1[i] == log2[i]);
    }
    assert forall|i: int| 0 <= i < p - s implies delivered_segment(log2, s, p)[i]
        == delivered_segment(log1, s, p)[i] by {
        assert(log1[s + i] == log2[s + i]);
    }
    assert(delivered_segment(log2, s, p) =~= delivered_segment(log1, s, p));
}

/// The decision at the end of a bounded shutdown wait: orderly when the
/// reader confirmed its stop in time, a reported (but safe) timeout when
/// it did not.
pub fn close_outcome(stopped_in_time: bool) -> (r: Result<(), CloseError>)
    ensures
        r is Ok <==> stopped_in_time,
        !stopped_in_time ==> r == Err::<(), CloseError>(CloseError::Timeout),
{
    if stopped_in_time {
        Ok(())
    } else {
        Err(CloseError::Timeout)
    }
}

/// Order preservation: everything the channel ever carried is the decoded
/// log segment, entry for entry — the consumer sees log order, with no
/// gap and no duplicate, and what it has already taken out is a prefix of
/// that segment.
pub proof fn lemma_delivery_in_log_order(a: MessageBusAdapter, log: Seq<Seq<(Seq<u8>, Seq<u8>)>>)
    requires
        a.tracks(log),
        !(a.spec_reader().state is Idle),
    ensures
        a.spec_reader().start <= a.spec_reader().position <= log.len(),
        a.chan_sent().len() == a.spec_reader().position - a.spec_reader().start,
        forall|i: int| 0 <= i < a.chan_sent().len() ==> a.chan_sent()[i] == decode_spec(
            log[a.spec_reader().start + i],
        )->Some_0,
        a.chan_delivered().len() <= a.chan_sent().len(),
        forall|i: int| 0 <= i < a.chan_delivered().len() ==> a.chan_delivered()[i]
            == a.chan_sent()[i],
{
    let s = a.spec_reader().start as int;
    let p = a.spec_reader().position as int;
    assert(a.chan_sent() == delivered_segment(log, s, p));
    a.chan.lemma_history();
}

/// The channel discipline, seen from outside the adapter: what the
/// consumer has taken out is a prefix of what the reader sent, the rest
/// still sits in the buffer, and the buffer never exceeds the configured
/// capacity.
pub proof fn lemma_channel_discipline(a: MessageBusAdapter)
    requires
        a.wf(),
    ensures
        a.chan_delivered().len() + a.chan_buffered() == a.chan_sent().len(),
        a.chan_buffered() <= a.spec_cfg().channel_capacity,
        forall|i: int| 0 <= i < a.chan_delivered().len() ==> a.chan_delivered()[i]
            == a.chan_sent()[i],
{
    a.chan.lemma_history();
}

/// Published order is delivered order: when the log's entries are the
/// encodings of envelopes `E_1 .. E_n`, the channel's history is exactly
/// the contiguous run of those envelopes from the reader's start to its
/// position — same relative order, nothing missing inside the run.
pub proof fn lemma_published_sequence_delivered(
    a: MessageBusAdapter,
    envs: Seq<EnvelopeView>,
    log: Seq<Seq<(Seq<u8>, Seq<u8>)>>,
)
    requires
        a.tracks(log),
        !(a.spec_reader().state is Idle),
        log.len() == envs.len(),
        forall|i: int| 0 <= i < envs.len() ==> log[i] == encode_spec(#[trigger] envs[i]),
    ensures
        a.chan_sent() =~= envs.subrange(
            a.spec_reader().start as int,
            a.spec_reader().position as int,
        ),
{
    let s = a.spec_reader().start as int;
    let p = a.spec_reader().position as int;
    assert(a.chan_sent() == delivered_segment(log, s, p));
    assert forall|i: int| 0 <= i < p - s implies a.chan_sent()[i] == envs.subrange(s, p)[i] by {
        crate::codec::lemma_encode_decode(envs[s + i]);
        assert(log[s + i] == encode_spec(envs[s + i]));
        assert(delivered_segment(log, s, p)[i] == decode_spec(log[s + i])->Some_0);
    }
}

/// What the consumer has taken out, at any instant, is a gapless prefix
/// of the published run in publish order: envelope `i` handed to the
/// consumer is envelope `start + i` of the published sequence.
pub proof fn lemma_consumer_sees_published_prefix(
    a: MessageBusAdapter,
    envs: Seq<EnvelopeView>,
    log: Seq<Seq<(Seq<u8>, Seq<u8>)>>,
)
    requires
        a.tracks(log),
        !(a.spec_reader().state is Idle),
        log.len() == envs.len(),
        forall|i: int| 0 <= i < envs.len() ==> log[i] == encode_spec(#[trigger] envs[i]),
    ensures
        a.chan_delivered().len() + a.spec_reader().start <= a.spec_reader().position,
        a.chan_delivered() =~= envs.subrange(
            a.spec_reader().start as int,
            a.spec_reader().start + a.chan_delivered().len(),
        ),
{
    let s = a.spec_reader().start as int;
    let d = a.chan_delivered().len() as int;
    lemma_published_sequence_delivered(a, envs, log);
    lemma_delivery_in_log_order(a, log);
    assert forall|i: int| 0 <= i < d implies a.chan_delivered()[i] == envs.subrange(s, s + d)[i] by {
        assert(a.chan_delivered()[i] == a.chan_sent()[i]);
        assert(a.chan_sent()[i] == envs.subrange(s, a.spec_reader().position as int)[i]);
    }
}

} // verus!
