use streambus::adapter::{close_outcome, MessageBusAdapter, PollOutcome, SessionState};
use streambus::channel::RecvPoll;
use streambus::codec::{decode_entry, LogEntry};
use streambus::config::ConfigValue;
use streambus::errors::{CloseError, PublishError, StateError};
use streambus::identity::IdentityContext;
use streambus::reader::ReaderState;
use streambus::session::LogSession;

fn text(k: &str, v: &str) -> (String, ConfigValue) {
    (String::from(k), ConfigValue::Text(String::from(v)))
}

fn uint(k: &str, v: u64) -> (String, ConfigValue) {
    (String::from(k), ConfigValue::UInt(v))
}

fn identity() -> IdentityContext {
    IdentityContext::new(String::from("trader-1"), String::from("instance-1")).expect("identity")
}

fn open_adapter(pairs: Vec<(String, ConfigValue)>, conn: &LogSession) -> MessageBusAdapter {
    let mut a = MessageBusAdapter::new(identity(), &pairs).expect("construction");
    a.open_session(conn).expect("open");
    a
}

fn publish_bytes(
    a: &mut MessageBusAdapter,
    conn: &mut LogSession,
    topic: &[u8],
    payload: &[u8],
) -> Result<(), PublishError> {
    a.publish(
        conn,
        bytes::Bytes::from(topic.to_vec()),
        bytes::Bytes::from(payload.to_vec()),
    )
}

fn recv_payload(a: &mut MessageBusAdapter) -> Vec<u8> {
    match a.next_message().expect("handle taken") {
        RecvPoll::Item(e) => e.payload_vec(),
        RecvPoll::Pending => panic!("expected an envelope, channel was empty"),
        RecvPoll::Ended => panic!("expected an envelope, channel had ended"),
    }
}

#[test]
fn publish_then_stream_scenario() {
    let mut conn = LogSession::connect();
    let mut a = open_adapter(vec![text("start_position", "now")], &conn);
    a.take_stream().expect("handle");
    publish_bytes(&mut a, &mut conn, b"orders", &[1, 2, 3]).expect("publish");
    assert!(matches!(a.poll_reader(&mut conn), PollOutcome::Forwarded));
    match a.next_message().expect("handle taken") {
        RecvPoll::Item(e) => {
            assert_eq!(e.topic_vec(), b"orders".to_vec());
            assert_eq!(e.payload_vec(), vec![1, 2, 3]);
        },
        _ => panic!("expected exactly one envelope"),
    }
    assert!(matches!(a.next_message().expect("handle taken"), RecvPoll::Pending));
    assert!(matches!(a.poll_reader(&mut conn), PollOutcome::NoNews));
    assert!(matches!(a.next_message().expect("handle taken"), RecvPoll::Pending));
    publish_bytes(&mut a, &mut conn, b"orders", &[4]).expect("publish");
    assert!(matches!(a.poll_reader(&mut conn), PollOutcome::Forwarded));
    assert_eq!(recv_payload(&mut a), vec![4]);
}

#[test]
fn delivery_preserves_publish_order() {
    let mut conn = LogSession::connect();
    let mut a = open_adapter(Vec::new(), &conn);
    a.take_stream().expect("handle");
    for i in 0u8..5 {
        publish_bytes(&mut a, &mut conn, b"t", &[i]).expect("publish");
    }
    for _ in 0..5 {
        assert!(matches!(a.poll_reader(&mut conn), PollOutcome::Forwarded));
    }
    for i in 0u8..5 {
        assert_eq!(recv_payload(&mut a), vec![i]);
    }
    assert!(matches!(a.next_message().expect("handle taken"), RecvPoll::Pending));
}

#[test]
fn acknowledged_publish_is_visible_to_read() {
    let mut conn = LogSession::connect();
    let mut a = open_adapter(Vec::new(), &conn);
    let tail = conn.entry_count();
    publish_bytes(&mut a, &mut conn, b"orders", &[7, 7]).expect("publish");
    let entry = conn
        .try_read(tail)
        .expect("attached")
        .expect("entry visible at the previous tail");
    let e = decode_entry(&entry).expect("decodes");
    assert_eq!(e.topic_vec(), b"orders".to_vec());
    assert_eq!(e.payload_vec(), vec![7, 7]);
}

#[test]
fn close_terminates_stream_despite_out_of_band_writes() {
    let mut conn = LogSession::connect();
    let mut a = open_adapter(Vec::new(), &conn);
    a.take_stream().expect("handle");
    publish_bytes(&mut a, &mut conn, b"t", &[1]).expect("publish");
    assert!(matches!(a.poll_reader(&mut conn), PollOutcome::Forwarded));
    a.close(&mut conn).expect("close");
    assert!(matches!(a.session_state(), SessionState::Closed));
    // out-of-band growth of the log after close
    conn.reattach();
    let stray = streambus::codec::encode_entry(&streambus::envelope::Envelope::from_vecs(
        b"t".to_vec(),
        vec![9],
    ));
    conn.append(stray).expect("attached");
    assert!(matches!(a.poll_reader(&mut conn), PollOutcome::NotActive));
    // what was forwarded before the close still drains, then the stream ends
    assert_eq!(recv_payload(&mut a), vec![1]);
    assert!(matches!(a.next_message().expect("handle taken"), RecvPoll::Ended));
    assert!(matches!(a.next_message().expect("handle taken"), RecvPoll::Ended));
}

#[test]
fn close_twice_is_idempotent() {
    let mut conn = LogSession::connect();
    let mut a = open_adapter(Vec::new(), &conn);
    assert!(a.close(&mut conn).is_ok());
    let entries = conn.entry_count();
    let calls = conn.call_count();
    let position = a.reader_snapshot().position;
    assert!(a.close(&mut conn).is_ok());
    assert!(matches!(a.session_state(), SessionState::Closed));
    assert_eq!(conn.entry_count(), entries);
    assert_eq!(conn.call_count(), calls);
    assert_eq!(a.reader_snapshot().position, position);
}

#[test]
fn disconnect_and_recovery_loses_nothing() {
    let mut conn = LogSession::connect();
    let mut a = open_adapter(vec![uint("reconnect_max_retries", 3)], &conn);
    a.take_stream().expect("handle");
    publish_bytes(&mut a, &mut conn, b"t", &[1]).expect("publish");
    assert!(matches!(a.poll_reader(&mut conn), PollOutcome::Forwarded));
    let position = a.reader_snapshot().position;
    conn.detach();
    assert!(matches!(a.poll_reader(&mut conn), PollOutcome::BackedOff));
    assert!(matches!(a.reader_snapshot().state, ReaderState::Backoff));
    // the reader holds its position through the fault: no gap on resume
    assert_eq!(a.reader_snapshot().position, position);
    conn.reattach();
    publish_bytes(&mut a, &mut conn, b"t", &[2]).expect("publish");
    assert!(matches!(a.poll_reader(&mut conn), PollOutcome::Resumed));
    assert_eq!(a.reader_snapshot().position, position);
    assert!(matches!(a.poll_reader(&mut conn), PollOutcome::Forwarded));
    assert!(matches!(a.poll_reader(&mut conn), PollOutcome::NoNews));
    assert_eq!(recv_payload(&mut a), vec![1]);
    assert_eq!(recv_payload(&mut a), vec![2]);
    assert!(matches!(a.next_message().expect("handle taken"), RecvPoll::Pending));
}

#[test]
fn publish_on_closed_adapter_makes_no_network_call() {
    let mut conn = LogSession::connect();
    let mut a = open_adapter(Vec::new(), &conn);
    a.close(&mut conn).expect("close");
    let calls = conn.call_count();
    let entries = conn.entry_count();
    let r = publish_bytes(&mut a, &mut conn, b"t", &[1]);
    assert!(matches!(r, Err(PublishError::State)));
    assert_eq!(conn.call_count(), calls);
    assert_eq!(conn.entry_count(), entries);
}

#[test]
fn publish_before_open_fails_with_state_error() {
    let mut conn = LogSession::connect();
    let mut a = MessageBusAdapter::new(identity(), &Vec::new()).expect("construction");
    let r = publish_bytes(&mut a, &mut conn, b"t", &[1]);
    assert!(matches!(r, Err(PublishError::State)));
    assert_eq!(conn.call_count(), 0);
}

#[test]
fn oversized_envelope_is_rejected_without_network_call() {
    let mut conn = LogSession::connect();
    let mut a = open_adapter(vec![uint("max_entry_bytes", 4)], &conn);
    let r = publish_bytes(&mut a, &mut conn, b"abc", &[1, 2]);
    assert!(matches!(r, Err(PublishError::TooLarge)));
    assert_eq!(conn.call_count(), 0);
    publish_bytes(&mut a, &mut conn, b"abc", &[1]).expect("exactly at the limit");
}

#[test]
fn publish_while_detached_retries_then_fails_fatally() {
    let mut conn = LogSession::connect();
    let mut a = open_adapter(vec![uint("reconnect_max_retries", 2)], &conn);
    conn.detach();
    let r = publish_bytes(&mut a, &mut conn, b"t", &[1]);
    assert!(matches!(r, Err(PublishError::Connection)));
    assert_eq!(conn.entry_count(), 0);
    // one initial attempt plus the two configured retries
    assert_eq!(conn.call_count(), 3);
    // exhausting the write retries is fatal: the adapter is closed
    assert!(matches!(a.session_state(), SessionState::Closed));
}

#[test]
fn buffered_mode_queues_and_flushes_on_close() {
    let mut conn = LogSession::connect();
    let mut a = open_adapter(vec![text("publish_mode", "buffered")], &conn);
    publish_bytes(&mut a, &mut conn, b"t", &[1]).expect("queued");
    publish_bytes(&mut a, &mut conn, b"t", &[2]).expect("queued");
    assert_eq!(a.queued_count(), 2);
    assert_eq!(conn.entry_count(), 0);
    assert_eq!(conn.call_count(), 0);
    a.close(&mut conn).expect("close");
    assert_eq!(a.queued_count(), 0);
    conn.reattach();
    let first = conn.try_read(0).expect("attached").expect("flushed");
    let second = conn.try_read(1).expect("attached").expect("flushed");
    assert_eq!(decode_entry(&first).expect("decodes").payload_vec(), vec![1]);
    assert_eq!(decode_entry(&second).expect("decodes").payload_vec(), vec![2]);
}

#[test]
fn exhausted_retries_close_the_adapter() {
    let mut conn = LogSession::connect();
    let mut a = open_adapter(vec![uint("reconnect_max_retries", 1)], &conn);
    a.take_stream().expect("handle");
    conn.detach();
    assert!(matches!(a.poll_reader(&mut conn), PollOutcome::BackedOff));
    assert!(matches!(a.poll_reader(&mut conn), PollOutcome::Resumed));
    assert!(matches!(a.poll_reader(&mut conn), PollOutcome::LostConnection));
    assert!(matches!(a.session_state(), SessionState::Closed));
    assert!(matches!(a.next_message().expect("handle taken"), RecvPoll::Ended));
}

#[test]
fn undecodable_entry_terminates_the_stream() {
    let mut conn = LogSession::connect();
    conn.append(LogEntry { fields: Vec::new() }).expect("attached");
    let mut a = open_adapter(vec![text("start_position", "earliest")], &conn);
    a.take_stream().expect("handle");
    assert!(matches!(a.poll_reader(&mut conn), PollOutcome::BadEntry));
    assert!(matches!(a.reader_snapshot().state, ReaderState::Stopped));
    assert!(matches!(a.next_message().expect("handle taken"), RecvPoll::Ended));
    // the adapter itself is still open for the write path
    publish_bytes(&mut a, &mut conn, b"t", &[1]).expect("publish");
}

#[test]
fn full_channel_throttles_the_reader() {
    let mut conn = LogSession::connect();
    let mut a = open_adapter(vec![uint("channel_capacity", 1)], &conn);
    a.take_stream().expect("handle");
    publish_bytes(&mut a, &mut conn, b"t", &[1]).expect("publish");
    publish_bytes(&mut a, &mut conn, b"t", &[2]).expect("publish");
    assert!(matches!(a.poll_reader(&mut conn), PollOutcome::Forwarded));
    let calls = conn.call_count();
    assert!(matches!(a.poll_reader(&mut conn), PollOutcome::Throttled));
    // backpressure: the throttled step made no network call
    assert_eq!(conn.call_count(), calls);
    assert_eq!(recv_payload(&mut a), vec![1]);
    assert!(matches!(a.poll_reader(&mut conn), PollOutcome::Forwarded));
    assert_eq!(recv_payload(&mut a), vec![2]);
}

#[test]
fn start_position_earliest_replays_the_log() {
    let mut conn = LogSession::connect();
    let mut a = open_adapter(Vec::new(), &conn);
    publish_bytes(&mut a, &mut conn, b"t", &[1]).expect("publish");
    publish_bytes(&mut a, &mut conn, b"t", &[2]).expect("publish");
    a.close(&mut conn).expect("close");
    // a process restart: a fresh session onto what the log durably holds
    let entries = conn.into_entries();
    let mut conn2 = LogSession::connect_to(entries);
    let mut b = open_adapter(vec![text("start_position", "earliest")], &conn2);
    b.take_stream().expect("handle");
    assert!(matches!(b.poll_reader(&mut conn2), PollOutcome::Forwarded));
    assert!(matches!(b.poll_reader(&mut conn2), PollOutcome::Forwarded));
    assert_eq!(recv_payload(&mut b), vec![1]);
    assert_eq!(recv_payload(&mut b), vec![2]);
}

#[test]
fn start_position_offset_skips_earlier_entries() {
    let mut conn = LogSession::connect();
    let mut a = open_adapter(Vec::new(), &conn);
    for i in 0u8..3 {
        publish_bytes(&mut a, &mut conn, b"t", &[i]).expect("publish");
    }
    a.close(&mut conn).expect("close");
    let mut conn2 = LogSession::connect_to(conn.into_entries());
    let mut b = open_adapter(vec![uint("start_position", 1)], &conn2);
    b.take_stream().expect("handle");
    assert!(matches!(b.poll_reader(&mut conn2), PollOutcome::Forwarded));
    assert!(matches!(b.poll_reader(&mut conn2), PollOutcome::Forwarded));
    assert!(matches!(b.poll_reader(&mut conn2), PollOutcome::NoNews));
    assert_eq!(recv_payload(&mut b), vec![1]);
    assert_eq!(recv_payload(&mut b), vec![2]);
}

#[test]
fn stream_handle_is_taken_once_and_only_while_open() {
    let mut conn = LogSession::connect();
    let mut a = MessageBusAdapter::new(identity(), &Vec::new()).expect("construction");
    assert!(matches!(a.take_stream(), Err(StateError::NotOpen)));
    a.open_session(&conn).expect("open");
    a.take_stream().expect("first take");
    assert!(matches!(a.take_stream(), Err(StateError::HandleTaken)));
    a.close(&mut conn).expect("close");
    assert!(matches!(a.take_stream(), Err(StateError::NotOpen)));
}

#[test]
fn next_message_needs_the_handle() {
    let conn = LogSession::connect();
    let mut a = open_adapter(Vec::new(), &conn);
    assert!(matches!(a.next_message(), Err(StateError::HandleNotTaken)));
}

#[test]
fn open_session_runs_once() {
    let conn = LogSession::connect();
    let mut a = open_adapter(Vec::new(), &conn);
    assert!(matches!(a.open_session(&conn), Err(StateError::AlreadyOpened)));
}

#[test]
fn adapter_from_json_configuration() {
    let conn = LogSession::connect();
    let json = b"{\"channel_capacity\": 2, \"publish_mode\": \"buffered\"}".to_vec();
    let mut a = MessageBusAdapter::from_json(identity(), &json).expect("construction");
    a.open_session(&conn).expect("open");
    let mut conn = conn;
    publish_bytes(&mut a, &mut conn, b"t", &[1]).expect("buffered publish");
    assert_eq!(a.queued_count(), 1);
    assert_eq!(conn.entry_count(), 0);
}

#[test]
fn adapter_from_json_rejects_bad_text() {
    let json = b"not json at all".to_vec();
    assert!(matches!(
        MessageBusAdapter::from_json(identity(), &json),
        Err(streambus::errors::ConstructionError::InvalidConfigText)
    ));
    let json = b"{\"channel_capacity\": 0}".to_vec();
    assert!(matches!(
        MessageBusAdapter::from_json(identity(), &json),
        Err(streambus::errors::ConstructionError::InvalidChannelCapacity)
    ));
}

#[test]
fn adapter_stream_key_is_derived_from_identity() {
    let conn = LogSession::connect();
    let a = open_adapter(vec![text("stream_key_prefix", "feed")], &conn);
    assert_eq!(a.stream_key_bytes(), b"feed:trader-1:instance-1".to_vec());
}

#[test]
fn close_outcome_maps_the_bounded_wait() {
    assert!(close_outcome(true).is_ok());
    assert!(matches!(close_outcome(false), Err(CloseError::Timeout)));
}

#[test]
fn adapters_for_distinct_identities_are_independent() {
    let mut conn_a = LogSession::connect();
    let mut conn_b = LogSession::connect();
    let id_a = IdentityContext::new(String::from("trader-a"), String::from("i-a")).expect("id");
    let id_b = IdentityContext::new(String::from("trader-b"), String::from("i-b")).expect("id");
    let mut a = MessageBusAdapter::new(id_a, &Vec::new()).expect("construction");
    let mut b = MessageBusAdapter::new(id_b, &Vec::new()).expect("construction");
    a.open_session(&conn_a).expect("open");
    b.open_session(&conn_b).expect("open");
    a.take_stream().expect("handle");
    b.take_stream().expect("handle");
    publish_bytes(&mut a, &mut conn_a, b"t", &[1]).expect("publish");
    publish_bytes(&mut b, &mut conn_b, b"t", &[2]).expect("publish");
    assert!(matches!(a.poll_reader(&mut conn_a), PollOutcome::Forwarded));
    assert!(matches!(b.poll_reader(&mut conn_b), PollOutcome::Forwarded));
    assert_eq!(recv_payload(&mut a), vec![1]);
    assert_eq!(recv_payload(&mut b), vec![2]);
    a.close(&mut conn_a).expect("close");
    // closing one adapter does not disturb the other
    assert!(matches!(b.poll_reader(&mut conn_b), PollOutcome::NoNews));
    assert_eq!(conn_b.entry_count(), 1);
    b.close(&mut conn_b).expect("close");
}
