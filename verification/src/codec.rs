//! Serialization of envelopes into the durable log's entry format.
//!
//! A log entry is a list of named fields, the log's native shape: an
//! envelope becomes one field holding the topic and one holding the
//! payload, with no extra framing. Decoding takes the first field of each
//! name and fails only when one of the two is missing.

use vstd::prelude::*;

use crate::envelope::{Envelope, EnvelopeView};

verus! {

/// One named field of a log entry.
pub struct LogField {
    pub name: Vec<u8>,
    pub value: Vec<u8>,
}

impl View for LogField {
    type V = (Seq<u8>, Seq<u8>);

    open spec fn view(&self) -> (Seq<u8>, Seq<u8>) {
        (self.name@, self.value@)
    }
}

/// One entry of the durable log: a list of named fields.
pub struct LogEntry {
    pub fields: Vec<LogField>,
}

impl View for LogEntry {
    type V = Seq<(Seq<u8>, Seq<u8>)>;

    open spec fn view(&self) -> Seq<(Seq<u8>, Seq<u8>)> {
        self.fields@.map_values(|f: LogField| f@)
    }
}

/// The name of the field that carries the topic: `b"topic"`.
pub open spec fn topic_field_name() -> Seq<u8> {
    seq![116u8, 111u8, 112u8, 105u8, 99u8]
}

/// The name of the field that carries the payload: `b"payload"`.
pub open spec fn payload_field_name() -> Seq<u8> {
    seq![112u8, 97u8, 121u8, 108u8, 111u8, 97u8, 100u8]
}

/// How an envelope is laid out as an entry: topic field, then payload field.
pub open spec fn encode_spec(e: EnvelopeView) -> Seq<(Seq<u8>, Seq<u8>)> {
    seq![(topic_field_name(), e.topic), (payload_field_name(), e.payload)]
}

/// The value of the first field with the given name, if any.
pub open spec fn lookup_field(fields: Seq<(Seq<u8>, Seq<u8>)>, name: Seq<u8>) -> Option<Seq<u8>>
    decreases fields.len(),
{
    if fields.len() == 0 {
        None
    } else if fields[0].0 == name {
        Some(fields[0].1)
    } else {
        lookup_field(fields.drop_first(), name)
    }
}

/// What decoding an entry yields: the envelope with the first topic field
/// and the first payload field, or nothing when either is missing.
pub open spec fn decode_spec(entry: Seq<(Seq<u8>, Seq<u8>)>) -> Option<EnvelopeView> {
    match (lookup_field(entry, topic_field_name()), lookup_field(entry, payload_field_name())) {
        (Some(t), Some(p)) => Some(EnvelopeView { topic: t, payload: p }),
        _ => None,
    }
}

/// Whether two byte vectors hold the same bytes.
pub fn bytes_eq(a: &Vec<u8>, b: &Vec<u8>) -> (r: bool)
    ensures
        r == (a@ == b@),
{
    if a.len() != b.len() {
        assert(a@ != b@);
        return false;
    }
    let n: usize = a.len();
    let mut i: usize = 0;
    while i < n
        invariant
            n == a.len() == b.len(),
            i <= n,
            forall|j: int| 0 <= j < i ==> a@[j] == b@[j],
        decreases n - i,
    {
        if a[i] != b[i] {
            return false;
        }
        i = i + 1;
    }
    assert(a@ =~= b@);
    true
}

/// The topic field name as an owned vector.
pub fn topic_field_name_vec() -> (v: Vec<u8>)
    ensures
        v@ == topic_field_name(),
{
    let mut v: Vec<u8> = Vec::new();
    v.push(116u8);
    v.push(111u8);
    v.push(112u8);
    v.push(105u8);
    v.push(99u8);
    assert(v@ =~= topic_field_name());
    v
}

/// The payload field name as an owned vector.
pub fn payload_field_name_vec() -> (v: Vec<u8>)
    ensures
        v@ == payload_field_name(),
{
    let mut v: Vec<u8> = Vec::new();
    v.push(112u8);
    v.push(97u8);
    v.push(121u8);
    v.push(108u8);
    v.push(111u8);
    v.push(97u8);
    v.push(100u8);
    assert(v@ =~= payload_field_name());
    v
}

/// Serializes an envelope into a log entry, field per field.
pub fn encode_entry(e: &Envelope) -> (entry: LogEntry)
    ensures
        entry@ == encode_spec(e@),
{
    let mut fields: Vec<LogField> = Vec::new();
    fields.push(LogField { name: topic_field_name_vec(), value: e.topic_vec() });
    fields.push(LogField { name: payload_field_name_vec(), value: e.payload_vec() });
    let entry = LogEntry { fields };
    assert(entry@ =~= encode_spec(e@));
    entry
}

/// Deserializes a log entry back into an envelope: the first `topic` and
/// first `payload` fields, or `None` when one of the two is missing.
pub fn decode_entry(entry: &LogEntry) -> (r: Option<Envelope>)
    ensures
        match r {
            Some(e) => decode_spec(entry@) == Some(e@),
            None => decode_spec(entry@) is None,
        },
{
    let topic_name = topic_field_name_vec();
    let payload_name = payload_field_name_vec();
    let mut topic: Option<Vec<u8>> = None;
    let mut payload: Option<Vec<u8>> = None;
    let n: usize = entry.fields.len();
    let mut i: usize = 0;
    proof {
        assert(entry@.skip(0) =~= entry@);
    }
    while i < n
        invariant
            n == entry.fields.len(),
            i <= n,
            topic_name@ == topic_field_name(),
            payload_name@ == payload_field_name(),
            match topic {
                Some(t) => lookup_field(entry@, topic_field_name()) == Some(t@),
                None => lookup_field(entry@, topic_field_name()) == lookup_field(
                    entry@.skip(i as int),
                    topic_field_name(),
                ),
            },
            match payload {
                Some(p) => lookup_field(entry@, payload_field_name()) == Some(p@),
                None => lookup_field(entry@, payload_field_name()) == lookup_field(
                    entry@.skip(i as int),
                    payload_field_name(),
                ),
            },
        decreases n - i,
    {
        proof {
            assert(entry@.skip(i as int).len() > 0);
            assert(entry@.skip(i as int)[0] == entry@[i as int]);
            assert(entry@.skip(i as int).drop_first() =~= entry@.skip(i as int + 1));
        }
        let field = &entry.fields[i];
        if topic.is_none() && bytes_eq(&field.name, &topic_name) {
            topic = Some(copy_bytes(&field.value));
        } else if payload.is_none() && bytes_eq(&field.name, &payload_name) {
            payload = Some(copy_bytes(&field.value));
        }
        i = i + 1;
    }
    proof {
        assert(entry@.skip(n as int) =~= Seq::<(Seq<u8>, Seq<u8>)>::empty());
    }
    match (topic, payload) {
        (Some(t), Some(p)) => Some(Envelope::from_vecs(t, p)),
        _ => None,
    }
}

/// An owned copy of a byte vector.
pub fn copy_bytes(v: &Vec<u8>) -> (r: Vec<u8>)
    ensures
        r@ == v@,
{
    let n: usize = v.len();
    let mut r: Vec<u8> = Vec::new();
    let mut i: usize = 0;
    while i < n
        invariant
            n == v.len(),
            i <= n,
            r@ == v@.take(i as int),
        decreases n - i,
    {
        r.push(v[i]);
        proof {
            assert(r@ =~= v@.take(i as int + 1));
        }
        i = i + 1;
    }
    proof {
        assert(v@.take(n as int) =~= v@);
    }
    r
}

/// Round trip: decoding an encoded envelope yields that envelope back.
/// This is what keeps delivery faithful: what the publisher writes is
/// exactly what the reader hands on.
pub proof fn lemma_encode_decode(e: EnvelopeView)
    ensures
        decode_spec(encode_spec(e)) == Some(e),
{
    let entry = encode_spec(e);
    let tail = seq![(payload_field_name(), e.payload)];
    assert(entry[0].0 == topic_field_name());
    assert(lookup_field(entry, topic_field_name()) == Some(e.topic));
    assert(topic_field_name().len() != payload_field_name().len());
    assert(entry[0].0 != payload_field_name());
    assert(entry.drop_first() =~= tail);
    assert(tail[0].0 == payload_field_name());
    assert(lookup_field(tail, payload_field_name()) == Some(e.payload));
    assert(lookup_field(entry, payload_field_name()) == lookup_field(tail, payload_field_name()));
}

} // verus!
