use vstd::prelude::*;

use crate::channel::Channel;
use crate::event::Event;

verus! {

/// A scope guard that times a named region of code.
///
/// Opening a span emits [`Event::Enter`] and captures a start timestamp;
/// closing it with [`Span::exit`] emits [`Event::Exit`] carrying the elapsed
/// duration. Callers must close the span on every exit path of the region
/// they instrument; an embedding that wants this to happen automatically
/// wraps the span in a guard whose destructor calls the closing function.
pub struct Span {
    name: &'static str,
    start: u64,
}

impl Span {
    /// The name the span was opened with.
    pub closed spec fn spec_name(&self) -> &'static str {
        self.name
    }

    /// The raw clock reading captured when the span was opened.
    pub closed spec fn spec_start(&self) -> u64 {
        self.start
    }

    /// Opens a span: emits an enter event for `name` (subject to the
    /// channel's subscriber gating) and captures the current time.
    pub fn new(name: &'static str, bus: &mut Channel) -> (s: Span)
        ensures
            s.spec_name() == name,
            final(bus).live_subscribers() == old(bus).live_subscribers(),
            old(bus).live_subscribers() == 0 ==> final(bus).queue_model()
                == old(bus).queue_model(),
            old(bus).live_subscribers() > 0 ==> final(bus).queue_model()
                == old(bus).queue_model().push(Event::Enter(name)),
    {
        bus.send(Event::Enter(name));
        let start = bus.now_raw();
        Span { name, start }
    }

    /// Opens a span with a caller-supplied start timestamp instead of a
    /// clock reading, so that elapsed durations can be simulated exactly.
    pub fn new_at(name: &'static str, start: u64, bus: &mut Channel) -> (s: Span)
        ensures
            s.spec_name() == name,
            s.spec_start() == start,
            final(bus).live_subscribers() == old(bus).live_subscribers(),
            old(bus).live_subscribers() == 0 ==> final(bus).queue_model()
                == old(bus).queue_model(),
            old(bus).live_subscribers() > 0 ==> final(bus).queue_model()
                == old(bus).queue_model().push(Event::Enter(name)),
    {
        bus.send(Event::Enter(name));
        Span { name, start }
    }

    /// Closes the span with an explicit elapsed duration in nanoseconds,
    /// emitting the exit event (subject to subscriber gating).
    pub fn exit_with(self, elapsed: u64, bus: &mut Channel)
        ensures
            final(bus).live_subscribers() == old(bus).live_subscribers(),
            old(bus).live_subscribers() == 0 ==> final(bus).queue_model()
                == old(bus).queue_model(),
            old(bus).live_subscribers() > 0 ==> final(bus).queue_model()
                == old(bus).queue_model().push(
                Event::Exit { span_name: self.spec_name(), elapsed },
            ),
    {
        bus.send(Event::Exit { span_name: self.name, elapsed });
    }

    /// Closes the span: reads the clock, computes the elapsed duration since
    /// the span was opened, and emits the exit event (subject to subscriber
    /// gating). The duration is whatever the clock measured, so only its
    /// presence in the queue is promised, not its value.
    pub fn exit(self, bus: &mut Channel)
        ensures
            final(bus).live_subscribers() == old(bus).live_subscribers(),
            old(bus).live_subscribers() == 0 ==> final(bus).queue_model()
                == old(bus).queue_model(),
            old(bus).live_subscribers() > 0 ==> exists|d: u64|
                final(bus).queue_model() == old(bus).queue_model().push(
                    Event::Exit { span_name: self.spec_name(), elapsed: d },
                ),
    {
        let now = bus.now_raw();
        let elapsed = bus.elapsed_nanos(self.start, now);
        let ghost name = self.spec_name();
        self.exit_with(elapsed, bus);
        proof {
            if old(bus).live_subscribers() > 0 {
                assert(bus.queue_model() == old(bus).queue_model().push(
                    Event::Exit { span_name: name, elapsed },
                ));
            }
        }
    }
}

} // verus!
