//! The bounded hand-off channel between the stream reader and the consumer.
//!
//! Single producer (the reader), single consumer (the caller holding the
//! handle). The channel never drops an entry: when it is full the reader
//! is throttled instead. Two ghost sequences record its history: `sent`
//! is every envelope ever pushed, `delivered` the prefix of `sent` the
//! consumer has already taken out, so `sent == delivered + buffered`.

use vstd::prelude::*;

use crate::envelope::{Envelope, EnvelopeView};

verus! {

/// What one receive attempt yielded.
pub enum RecvPoll {
    /// The next envelope, in order.
    Item(Envelope),
    /// Nothing buffered yet; the sequence is still live.
    Pending,
    /// The sequence has terminated: the channel is closed and drained.
    Ended,
}

/// The views of the buffered envelopes, oldest first.
pub open spec fn buffer_views(buf: Seq<Envelope>) -> Seq<EnvelopeView> {
    buf.map_values(|e: Envelope| e@)
}

/// A bounded first-in-first-out channel of envelopes.
pub struct BoundedChannel {
    buf: Vec<Envelope>,
    capacity: usize,
    closed: bool,
    sent: Ghost<Seq<EnvelopeView>>,
    delivered: Ghost<Seq<EnvelopeView>>,
}

impl BoundedChannel {
    /// The channel is consistent: everything ever sent is either already
    /// delivered or still buffered, in order, and the buffer respects the
    /// bound.
    pub closed spec fn wf(&self) -> bool {
        &&& self.capacity >= 1
        &&& self.buf@.len() <= self.capacity
        &&& self.sent@ == self.delivered@ + buffer_views(self.buf@)
    }

    /// Every envelope ever pushed by the reader, oldest first.
    pub closed spec fn sent(&self) -> Seq<EnvelopeView> {
        self.sent@
    }

    /// Every envelope the consumer has taken out, oldest first.
    pub closed spec fn delivered(&self) -> Seq<EnvelopeView> {
        self.delivered@
    }

    /// Whether the producer side has been shut.
    pub closed spec fn is_closed(&self) -> bool {
        self.closed
    }

    /// How many envelopes sit in the buffer.
    pub closed spec fn buffered(&self) -> nat {
        self.buf@.len()
    }

    /// The configured bound.
    pub closed spec fn spec_capacity(&self) -> usize {
        self.capacity
    }

    /// An empty open channel with the given bound.
    pub fn new(capacity: usize) -> (c: BoundedChannel)
        requires
            capacity >= 1,
        ensures
            c.wf(),
            c.spec_capacity() == capacity,
            !c.is_closed(),
            c.buffered() == 0,
            c.sent() == Seq::<EnvelopeView>::empty(),
            c.delivered() == Seq::<EnvelopeView>::empty(),
    {
        let c = BoundedChannel {
            buf: Vec::new(),
            capacity,
            closed: false,
            sent: Ghost(Seq::empty()),
            delivered: Ghost(Seq::empty()),
        };
        proof {
            assert(buffer_views(c.buf@) =~= Seq::<EnvelopeView>::empty());
            assert(c.sent@ =~= c.delivered@ + buffer_views(c.buf@));
        }
        c
    }

    /// How many envelopes the buffer still has room for.
    pub fn room(&self) -> (n: usize)
        requires
            self.wf(),
        ensures
            n == self.spec_capacity() - self.buffered(),
    {
        self.capacity - self.buf.len()
    }

    /// How many envelopes sit in the buffer, executably.
    pub fn backlog(&self) -> (n: usize)
        ensures
            n == self.buffered(),
    {
        self.buf.len()
    }

    /// Whether the channel is closed, executably.
    pub fn closed_now(&self) -> (b: bool)
        ensures
            b == self.is_closed(),
    {
        self.closed
    }

    /// Pushes one envelope at the back. The producer calls this only with
    /// room available and before closing; the bound is never exceeded.
    pub fn send(&mut self, e: Envelope)
        requires
            old(self).wf(),
            !old(self).is_closed(),
            old(self).buffered() < old(self).spec_capacity(),
        ensures
            final(self).wf(),
            final(self).spec_capacity() == old(self).spec_capacity(),
            !final(self).is_closed(),
            final(self).sent() == old(self).sent().push(e@),
            final(self).delivered() == old(self).delivered(),
            final(self).buffered() == old(self).buffered() + 1,
    {
        let ghost v = e@;
        self.buf.push(e);
        proof {
            self.sent@ = self.sent@.push(v);
            assert(buffer_views(self.buf@) =~= buffer_views(old(self).buf@).push(v));
            assert(self.sent@ =~= self.delivered@ + buffer_views(self.buf@));
        }
    }

    /// One receive attempt: the oldest buffered envelope if any, `Ended`
    /// once the channel is closed and drained, `Pending` otherwise.
    pub fn recv(&mut self) -> (r: RecvPoll)
        requires
            old(self).wf(),
        ensures
            final(self).wf(),
            final(self).spec_capacity() == old(self).spec_capacity(),
            final(self).is_closed() == old(self).is_closed(),
            final(self).sent() == old(self).sent(),
            match r {
                RecvPoll::Item(e) => {
                    &&& old(self).buffered() > 0
                    &&& e@ == old(self).sent()[old(self).delivered().len() as int]
                    &&& final(self).delivered() == old(self).delivered().push(e@)
                    &&& final(self).buffered() == old(self).buffered() - 1
                },
                RecvPoll::Pending => {
                    &&& old(self).buffered() == 0
                    &&& !old(self).is_closed()
                    &&& *final(self) == *old(self)
                },
                RecvPoll::Ended => {
                    &&& old(self).buffered() == 0
                    &&& old(self).is_closed()
                    &&& *final(self) == *old(self)
                },
            },
    {
        if self.buf.len() == 0 {
            if self.closed {
                RecvPoll::Ended
            } else {
                RecvPoll::Pending
            }
        } else {
            let e = self.buf.remove(0);
            proof {
                let v = e@;
                assert(buffer_views(old(self).buf@)[0] == v);
                assert(old(self).sent()[old(self).delivered().len() as int] == v);
                self.delivered@ = self.delivered@.push(v);
                assert(buffer_views(self.buf@) =~= buffer_views(old(self).buf@).remove(0));
                assert(self.sent@ =~= self.delivered@ + buffer_views(self.buf@));
            }
            RecvPoll::Item(e)
        }
    }

    /// What consistency gives the consumer: it has taken a prefix of
    /// what was sent, and the rest still sits in the buffer.
    pub proof fn lemma_history(&self)
        requires
            self.wf(),
        ensures
            self.delivered().len() + self.buffered() == self.sent().len(),
            self.buffered() <= self.spec_capacity(),
            forall|i: int| 0 <= i < self.delivered().len() ==> self.delivered()[i]
                == self.sent()[i],
    {
        assert forall|i: int| 0 <= i < self.delivered().len() implies self.delivered()[i]
            == self.sent()[i] by {
            assert(self.sent()[i] == (self.delivered@ + buffer_views(self.buf@))[i]);
        }
    }

    /// Shuts the producer side: after the buffer drains, the consumer
    /// sees `Ended` forever.
    pub fn close_sender(&mut self)
        requires
            old(self).wf(),
        ensures
            final(self).wf(),
            final(self).spec_capacity() == old(self).spec_capacity(),
            final(self).is_closed(),
            final(self).sent() == old(self).sent(),
            final(self).delivered() == old(self).delivered(),
            final(self).buffered() == old(self).buffered(),
    {
        self.closed = true;
    }
}

} // verus!
