//! The poll-to-stream bridge's core: a bounded, closeable event buffer.
//!
//! A worker loop outside the library polls the session and offers each
//! event here; a consumer drains at its own pace. When the buffer is
//! full the offer is refused and the producer must wait — deliberate
//! back-pressure that slows the poll loop rather than dropping events.
//! Stopping is idempotent and final: a stopped bridge accepts nothing
//! more, while the consumer may still drain what was buffered.
use vstd::prelude::*;
use std::collections::VecDeque;
use crate::events::Event;
use crate::message::Message;

verus! {

/// Configuration for the bridged polling loop.
#[derive(Debug, Clone, Copy, PartialEq, Eq, Structural)]
pub struct AsyncConfig {
    pub poll_timeout_ms: i32,
    pub buffer: usize,
}

impl Default for AsyncConfig {
    /// A hundred-millisecond poll timeout and room for 512 events.
    fn default() -> (r: Self)
        ensures
            r.poll_timeout_ms == 100,
            r.buffer == 512,
    {
        AsyncConfig { poll_timeout_ms: 100, buffer: 512 }
    }
}

impl AsyncConfig {
    /// Creates a configuration with defaults.
    pub fn new() -> (r: Self)
        ensures
            r.poll_timeout_ms == 100,
            r.buffer == 512,
    {
        AsyncConfig { poll_timeout_ms: 100, buffer: 512 }
    }

    /// Sets the polling timeout in milliseconds.
    pub fn poll_timeout_ms(self, timeout_ms: i32) -> (r: Self)
        ensures
            r.poll_timeout_ms == timeout_ms,
            r.buffer == self.buffer,
    {
        let mut c = self;
        c.poll_timeout_ms = timeout_ms;
        c
    }

    /// Sets the buffer capacity for events.
    pub fn buffer(self, buffer: usize) -> (r: Self)
        ensures
            r.buffer == buffer,
            r.poll_timeout_ms == self.poll_timeout_ms,
    {
        let mut c = self;
        c.buffer = buffer;
        c
    }
}

/// The outcome of offering an event to the bridge.
#[derive(Debug, Clone, Copy, PartialEq, Eq, Structural)]
pub enum OfferOutcome {
    /// The event was buffered.
    Accepted,
    /// The buffer is full; the producer must wait and try again.
    Full,
    /// The bridge was stopped; no further events are forwarded.
    Closed,
}

/// A bounded, closeable buffer between one producer and one consumer.
pub struct EventBridge {
    buffer: VecDeque<(Event, Message)>,
    capacity: usize,
    stopped: bool,
}

impl EventBridge {
    /// The buffered events, oldest first.
    pub closed spec fn spec_buffer(&self) -> Seq<(Event, Message)> {
        self.buffer@
    }

    /// The fixed capacity the bridge was created with.
    pub closed spec fn spec_capacity(&self) -> usize {
        self.capacity
    }

    /// Whether the bridge was stopped.
    pub closed spec fn spec_stopped(&self) -> bool {
        self.stopped
    }

    /// The buffer never holds more than its capacity.
    pub open spec fn wf(&self) -> bool {
        &&& self.spec_buffer().len() <= self.spec_capacity()
        &&& self.spec_capacity() >= 1
    }

    /// Creates a bridge with the configured capacity; a zero capacity is
    /// raised to one so the bridge can always make progress.
    pub fn new(config: AsyncConfig) -> (r: Self)
        ensures
            r.wf(),
            r.spec_buffer() == Seq::<(Event, Message)>::empty(),
            r.spec_capacity() == (if config.buffer >= 1 {
                config.buffer
            } else {
                1
            }),
            !r.spec_stopped(),
    {
        let capacity = if config.buffer >= 1 {
            config.buffer
        } else {
            1
        };
        EventBridge { buffer: VecDeque::new(), capacity, stopped: false }
    }

    /// Offers one event to the bridge.
    ///
    /// A stopped bridge refuses it as `Closed`; a full buffer refuses it
    /// as `Full`, leaving the buffer unchanged either way — the producer
    /// blocks on a full buffer rather than dropping the event. Otherwise
    /// the event is appended and the offer is `Accepted`: exactly the
    /// capacity can be accepted over what the consumer has drained.
    pub fn offer(&mut self, event: Event, message: Message) -> (r: OfferOutcome)
        requires
            old(self).wf(),
        ensures
            final(self).wf(),
            final(self).spec_capacity() == old(self).spec_capacity(),
            final(self).spec_stopped() == old(self).spec_stopped(),
            r == (if old(self).spec_stopped() {
                OfferOutcome::Closed
            } else if old(self).spec_buffer().len() >= old(self).spec_capacity() {
                OfferOutcome::Full
            } else {
                OfferOutcome::Accepted
            }),
            r == OfferOutcome::Accepted ==> final(self).spec_buffer() == old(self).spec_buffer().push(
                (event, message),
            ),
            r != OfferOutcome::Accepted ==> final(self).spec_buffer() == old(self).spec_buffer(),
    {
        if self.stopped {
            return OfferOutcome::Closed;
        }
        if self.buffer.len() >= self.capacity {
            return OfferOutcome::Full;
        }
        self.buffer.push_back((event, message));
        OfferOutcome::Accepted
    }

    /// Takes the oldest buffered event, if any; draining frees room for
    /// the producer and is permitted after a stop.
    pub fn next_event(&mut self) -> (r: Option<(Event, Message)>)
        requires
            old(self).wf(),
        ensures
            final(self).wf(),
            final(self).spec_capacity() == old(self).spec_capacity(),
            final(self).spec_stopped() == old(self).spec_stopped(),
            match r {
                Option::Some(em) => old(self).spec_buffer().len() > 0 && em == old(
                    self,
                ).spec_buffer()[0] && final(self).spec_buffer() == old(self).spec_buffer().skip(1),
                Option::None => old(self).spec_buffer().len() == 0 && final(self).spec_buffer()
                    == old(self).spec_buffer(),
            },
    {
        self.buffer.pop_front()
    }

    /// Stops the bridge: idempotent, and final until reconstruction.
    /// After a stop no offer is accepted, so no further events are
    /// forwarded to the consumer.
    pub fn stop(&mut self)
        requires
            old(self).wf(),
        ensures
            final(self).wf(),
            final(self).spec_stopped(),
            final(self).spec_buffer() == old(self).spec_buffer(),
            final(self).spec_capacity() == old(self).spec_capacity(),
    {
        self.stopped = true;
    }

    /// Returns the number of buffered events.
    pub fn len(&self) -> (r: usize)
        ensures
            r == self.spec_buffer().len(),
    {
        self.buffer.len()
    }

    /// Returns true when no events are buffered.
    pub fn is_empty(&self) -> (r: bool)
        ensures
            r == (self.spec_buffer().len() == 0),
    {
        self.buffer.len() == 0
    }

    /// Returns the fixed capacity.
    pub fn capacity(&self) -> (r: usize)
        ensures
            r == self.spec_capacity(),
    {
        self.capacity
    }

    /// Returns true when the bridge was stopped.
    pub fn is_stopped(&self) -> (r: bool)
        ensures
            r == self.spec_stopped(),
    {
        self.stopped
    }
}

/// A bridge with capacity `K` accepts at most `K` events beyond what the
/// consumer has drained: once the buffer holds `K` events, the offer is
/// refused and the producer stalls instead of losing the event.
pub proof fn lemma_backpressure_at_capacity(b: EventBridge, r: OfferOutcome)
    requires
        b.wf(),
        b.spec_buffer().len() == b.spec_capacity(),
        spec_offer_outcome(b, r),
    ensures
        r != OfferOutcome::Accepted,
{
}

/// The outcome `offer` reports for a bridge in state `b`.
pub open spec fn spec_offer_outcome(b: EventBridge, r: OfferOutcome) -> bool {
    r == (if b.spec_stopped() {
        OfferOutcome::Closed
    } else if b.spec_buffer().len() >= b.spec_capacity() {
        OfferOutcome::Full
    } else {
        OfferOutcome::Accepted
    })
}

/// A stopped bridge never forwards another event: whatever is offered,
/// the outcome is `Closed` and the buffer is unchanged.
pub proof fn lemma_stopped_is_final(b: EventBridge, r: OfferOutcome)
    requires
        b.spec_stopped(),
        spec_offer_outcome(b, r),
    ensures
        r == OfferOutcome::Closed,
{
}

/// The wait budget left before a deadline. A loop that polls until a
/// predicate or a deadline recomputes this each iteration, so the
/// cumulative wall-clock wait never exceeds the requested deadline even
/// across several underlying poll calls.
pub fn remaining_ms(deadline_ms: u64, now_ms: u64) -> (r: u64)
    ensures
        r == (if now_ms < deadline_ms {
            deadline_ms - now_ms
        } else {
            0
        }),
        now_ms + r <= deadline_ms || r == 0,
{
    if now_ms < deadline_ms {
        deadline_ms - now_ms
    } else {
        0
    }
}

} // verus!
