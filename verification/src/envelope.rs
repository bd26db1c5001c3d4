//! The message envelope: the unit of durability.

use vstd::prelude::*;

use crate::bytebuf::{bytes_content, bytes_dup, bytes_from_vec, bytes_len, bytes_to_vec};

verus! {

/// What an envelope is mathematically: a topic and a payload, each a
/// sequence of bytes.
pub ghost struct EnvelopeView {
    pub topic: Seq<u8>,
    pub payload: Seq<u8>,
}

/// The envelope two byte buffers stand for.
pub open spec fn env_of(topic: bytes::Bytes, payload: bytes::Bytes) -> EnvelopeView {
    EnvelopeView { topic: bytes_content(topic), payload: bytes_content(payload) }
}

/// A topic identifier bound to an opaque payload. Immutable once
/// constructed; both sides are plain byte sequences with no schema
/// imposed by this layer.
pub struct Envelope {
    topic: bytes::Bytes,
    payload: bytes::Bytes,
}

impl View for Envelope {
    type V = EnvelopeView;

    closed spec fn view(&self) -> EnvelopeView {
        EnvelopeView { topic: bytes_content(self.topic), payload: bytes_content(self.payload) }
    }
}

impl Envelope {
    /// Binds a topic to a payload.
    pub fn new(topic: bytes::Bytes, payload: bytes::Bytes) -> (e: Envelope)
        ensures
            e@.topic == bytes_content(topic),
            e@.payload == bytes_content(payload),
    {
        Envelope { topic, payload }
    }

    /// Builds an envelope from owned byte vectors.
    pub fn from_vecs(topic: Vec<u8>, payload: Vec<u8>) -> (e: Envelope)
        ensures
            e@.topic == topic@,
            e@.payload == payload@,
    {
        let t = bytes_from_vec(topic);
        let p = bytes_from_vec(payload);
        Envelope { topic: t, payload: p }
    }

    /// A copy of the topic bytes.
    pub fn topic_vec(&self) -> (v: Vec<u8>)
        ensures
            v@ == self@.topic,
    {
        bytes_to_vec(&self.topic)
    }

    /// A copy of the payload bytes.
    pub fn payload_vec(&self) -> (v: Vec<u8>)
        ensures
            v@ == self@.payload,
    {
        bytes_to_vec(&self.payload)
    }

    /// The topic length in bytes.
    pub fn topic_len(&self) -> (n: usize)
        ensures
            n == self@.topic.len(),
    {
        bytes_len(&self.topic)
    }

    /// The payload length in bytes.
    pub fn payload_len(&self) -> (n: usize)
        ensures
            n == self@.payload.len(),
    {
        bytes_len(&self.payload)
    }

    /// A second envelope holding the same bytes.
    pub fn duplicate(&self) -> (e: Envelope)
        ensures
            e@ == self@,
    {
        Envelope { topic: bytes_dup(&self.topic), payload: bytes_dup(&self.payload) }
    }
}

} // verus!
