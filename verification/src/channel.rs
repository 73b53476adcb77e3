use vstd::prelude::*;

use crate::clock::{clock_delta_nanos, clock_raw, new_clock};
use crate::event::Event;

verus! {

/// The transport carrying span lifecycle events from producers to an
/// aggregator.
///
/// Delivery is gated by a live-subscriber counter: while no subscriber is
/// registered, [`Channel::send`] discards the event outright, which is what
/// makes instrumentation nearly free when nobody is listening. The channel
/// also owns the monotonic clock that spans take their timestamps from.
pub struct Channel {
    queue: Vec<Event>,
    subscribers: u32,
    clock: quanta::Clock,
}

impl Channel {
    /// The events waiting to be received, oldest first.
    pub closed spec fn queue_model(&self) -> Seq<Event> {
        self.queue@
    }

    /// The number of live subscribers gating delivery.
    pub closed spec fn live_subscribers(&self) -> nat {
        self.subscribers as nat
    }

    /// Builds an empty channel with no subscribers.
    pub fn new() -> (r: Channel)
        ensures
            r.queue_model() == Seq::<Event>::empty(),
            r.live_subscribers() == 0,
    {
        Channel { queue: Vec::new(), subscribers: 0, clock: new_clock() }
    }

    /// Delivers an event to the queue, unless nobody is subscribed, in which
    /// case the event is discarded and the queue is left exactly as it was.
    pub fn send(&mut self, event: Event)
        ensures
            final(self).live_subscribers() == old(self).live_subscribers(),
            old(self).live_subscribers() == 0 ==> final(self).queue_model()
                == old(self).queue_model(),
            old(self).live_subscribers() > 0 ==> final(self).queue_model()
                == old(self).queue_model().push(event),
    {
        if self.subscribers > 0 {
            self.queue.push(event);
        }
    }

    /// Takes the oldest queued event, or returns `None` at once when the
    /// queue is empty; it never waits.
    pub fn recv(&mut self) -> (r: Option<Event>)
        ensures
            final(self).live_subscribers() == old(self).live_subscribers(),
            old(self).queue_model().len() == 0 ==> r is None && final(self).queue_model()
                == old(self).queue_model(),
            old(self).queue_model().len() > 0 ==> r == Some(old(self).queue_model()[0])
                && final(self).queue_model() == old(self).queue_model().drop_first(),
    {
        if self.queue.len() > 0 {
            let event = self.queue.remove(0);
            assert(final(self).queue_model() =~= old(self).queue_model().drop_first());
            Some(event)
        } else {
            None
        }
    }

    /// The number of events waiting in the queue.
    pub fn queue_len(&self) -> (r: usize)
        ensures
            r == self.queue_model().len(),
    {
        self.queue.len()
    }

    /// Raises the live-subscriber count by one.
    pub fn register_subscriber(&mut self)
        requires
            old(self).live_subscribers() < u32::MAX,
        ensures
            final(self).live_subscribers() == old(self).live_subscribers() + 1,
            final(self).queue_model() == old(self).queue_model(),
    {
        self.subscribers = self.subscribers + 1;
    }

    /// Lowers the live-subscriber count by one. A decrement is only ever
    /// paired with an earlier increment, so the count cannot underflow.
    pub fn unregister_subscriber(&mut self)
        requires
            old(self).live_subscribers() >= 1,
        ensures
            final(self).live_subscribers() == old(self).live_subscribers() - 1,
            final(self).queue_model() == old(self).queue_model(),
    {
        self.subscribers = self.subscribers - 1;
    }

    /// A raw reading of the channel's monotonic clock. The value is in
    /// machine-dependent units; see [`Channel::elapsed_nanos`].
    pub fn now_raw(&self) -> u64 {
        clock_raw(&self.clock)
    }

    /// The duration in nanoseconds between two raw clock readings, zero
    /// whenever `end` does not lie after `start`.
    pub fn elapsed_nanos(&self, start: u64, end: u64) -> (r: u64)
        ensures
            end <= start ==> r == 0,
    {
        clock_delta_nanos(&self.clock, start, end)
    }
}

} // verus!
