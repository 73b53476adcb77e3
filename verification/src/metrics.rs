use vstd::prelude::*;

use crate::aggregator::{apply_events, sum_ns, Aggregator};
use crate::channel::Channel;
use crate::hist::MAX_SIGFIG;

verus! {

/// The lifecycle of a metrics facade's aggregation worker.
///
/// A facade is built `Stopped`, subscribes and begins consuming when
/// started, and is torn down in two steps: a stop request (which gives up
/// the subscription) followed by a join (which performs the worker's final
/// drain pass). Each transition is a distinct call, so no double join or
/// double unsubscribe can happen.
#[derive(Clone, Copy, Debug, PartialEq, Eq, Structural)]
pub enum WorkerState {
    /// Built, not yet consuming events.
    Stopped,
    /// Subscribed and consuming events.
    Running,
    /// Teardown begun: unsubscribed, final drain still owed.
    StopRequested,
    /// Torn down: the worker has finished for good.
    Joined,
}

/// The metrics facade: owns the histogram table and the aggregation
/// worker's lifecycle, and exposes the collected per-span-name statistics.
///
/// A facade drains events by taking them off the channel, so two facades
/// draining one channel compete for events rather than each seeing all of
/// them: only one facade should be active on a channel at a time if it is
/// to observe every event.
pub struct Metrics {
    aggregator: Aggregator,
    worker: WorkerState,
}

impl Metrics {
    /// The collected statistics: for each span name observed so far, the
    /// sequence of clamped durations recorded for it, oldest first.
    pub closed spec fn histograms(&self) -> Map<Seq<char>, Seq<u64>> {
        self.aggregator.model()
    }

    /// The significant-figure precision histograms are created with.
    pub closed spec fn spec_sigfig(&self) -> u8 {
        self.aggregator.spec_sigfig()
    }

    /// Where the facade's worker stands in its lifecycle.
    pub closed spec fn worker_state(&self) -> WorkerState {
        self.worker
    }

    /// The facade's internal invariant.
    pub closed spec fn wf(&self) -> bool {
        self.aggregator.wf()
    }

    /// Builds a facade that is not yet consuming: no subscription is taken
    /// and its histogram table is empty.
    pub fn unstarted(sigfig: u8) -> (m: Metrics)
        requires
            sigfig <= MAX_SIGFIG,
        ensures
            m.wf(),
            m.histograms() == Map::<Seq<char>, Seq<u64>>::empty(),
            m.spec_sigfig() == sigfig,
            m.worker_state() is Stopped,
    {
        Metrics { aggregator: Aggregator::new(sigfig), worker: WorkerState::Stopped }
    }

    /// Starts the worker: registers the facade's subscription with the
    /// channel, so that events are delivered from now on.
    pub fn start(&mut self, bus: &mut Channel)
        requires
            old(self).wf(),
            old(self).worker_state() is Stopped,
            old(bus).live_subscribers() < u32::MAX,
        ensures
            final(self).wf(),
            final(self).worker_state() is Running,
            final(self).histograms() == old(self).histograms(),
            final(self).spec_sigfig() == old(self).spec_sigfig(),
            final(bus).live_subscribers() == old(bus).live_subscribers() + 1,
            final(bus).queue_model() == old(bus).queue_model(),
    {
        bus.register_subscriber();
        self.worker = WorkerState::Running;
    }

    /// Builds a facade with the given histogram precision and starts it:
    /// registers exactly one subscription with the channel and begins with
    /// an empty histogram table.
    pub fn new(sigfig: u8, bus: &mut Channel) -> (m: Metrics)
        requires
            sigfig <= MAX_SIGFIG,
            old(bus).live_subscribers() < u32::MAX,
        ensures
            m.wf(),
            m.histograms() == Map::<Seq<char>, Seq<u64>>::empty(),
            m.spec_sigfig() == sigfig,
            m.worker_state() is Running,
            final(bus).live_subscribers() == old(bus).live_subscribers() + 1,
            final(bus).queue_model() == old(bus).queue_model(),
    {
        let mut m = Metrics::unstarted(sigfig);
        m.start(bus);
        m
    }

    /// Builds and starts a facade like [`Metrics::new`], rejecting exactly
    /// the precisions the histogram backend does not support.
    pub fn try_new(sigfig: u8, bus: &mut Channel) -> (r: Option<Metrics>)
        requires
            old(bus).live_subscribers() < u32::MAX,
        ensures
            r is Some <==> sigfig <= MAX_SIGFIG,
            r matches Some(m) ==> {
                &&& m.wf()
                &&& m.histograms() == Map::<Seq<char>, Seq<u64>>::empty()
                &&& m.spec_sigfig() == sigfig
                &&& m.worker_state() is Running
                &&& final(bus).live_subscribers() == old(bus).live_subscribers() + 1
                &&& final(bus).queue_model() == old(bus).queue_model()
            },
            r is None ==> *final(bus) == *old(bus),
    {
        if sigfig <= MAX_SIGFIG {
            Some(Metrics::new(sigfig, bus))
        } else {
            None
        }
    }

    /// Drains the channel into the histogram table: when it returns, every
    /// event that was queued before the call has been aggregated and the
    /// queue has been observed empty.
    pub fn flush(&mut self, bus: &mut Channel)
        requires
            old(self).wf(),
        ensures
            final(self).wf(),
            final(self).spec_sigfig() == old(self).spec_sigfig(),
            final(self).worker_state() == old(self).worker_state(),
            final(self).histograms() == apply_events(
                old(self).histograms(),
                old(bus).queue_model(),
            ),
            final(bus).queue_model().len() == 0,
            final(bus).live_subscribers() == old(bus).live_subscribers(),
    {
        loop
            invariant
                self.wf(),
                self.spec_sigfig() == old(self).spec_sigfig(),
                self.worker_state() == old(self).worker_state(),
                bus.live_subscribers() == old(bus).live_subscribers(),
                apply_events(self.histograms(), bus.queue_model()) == apply_events(
                    old(self).histograms(),
                    old(bus).queue_model(),
                ),
            ensures
                bus.queue_model().len() == 0,
            decreases bus.queue_model().len(),
        {
            match bus.recv() {
                Some(event) => {
                    self.aggregator.handle_event(event);
                },
                None => {
                    break;
                },
            }
        }
    }

    /// Begins teardown: gives the facade's subscription back, so the
    /// channel stops delivering to it. The worker's final drain pass is
    /// still owed; [`Metrics::join_worker`] performs it.
    pub fn request_stop(&mut self, bus: &mut Channel)
        requires
            old(self).wf(),
            old(self).worker_state() is Running,
            old(bus).live_subscribers() >= 1,
        ensures
            final(self).wf(),
            final(self).worker_state() is StopRequested,
            final(self).histograms() == old(self).histograms(),
            final(self).spec_sigfig() == old(self).spec_sigfig(),
            final(bus).live_subscribers() == old(bus).live_subscribers() - 1,
            final(bus).queue_model() == old(bus).queue_model(),
    {
        bus.unregister_subscriber();
        self.worker = WorkerState::StopRequested;
    }

    /// Finishes teardown: performs the worker's one final drain pass and
    /// joins it. Returns only once the worker is done for good, so nothing
    /// is consumed after this call.
    pub fn join_worker(&mut self, bus: &mut Channel)
        requires
            old(self).wf(),
            old(self).worker_state() is StopRequested,
        ensures
            final(self).wf(),
            final(self).worker_state() is Joined,
            final(self).spec_sigfig() == old(self).spec_sigfig(),
            final(self).histograms() == apply_events(
                old(self).histograms(),
                old(bus).queue_model(),
            ),
            final(bus).queue_model().len() == 0,
            final(bus).live_subscribers() == old(bus).live_subscribers(),
    {
        self.flush(bus);
        self.worker = WorkerState::Joined;
    }

    /// Tears the facade down: unsubscribes, stops the worker, drains what
    /// was already queued, and joins the worker, synchronously. After this
    /// returns the worker is terminated; if this was the last subscriber,
    /// later sends on the channel enqueue nothing.
    pub fn close(&mut self, bus: &mut Channel)
        requires
            old(self).wf(),
            old(self).worker_state() is Running,
            old(bus).live_subscribers() >= 1,
        ensures
            final(self).wf(),
            final(self).worker_state() is Joined,
            final(self).spec_sigfig() == old(self).spec_sigfig(),
            final(self).histograms() == apply_events(
                old(self).histograms(),
                old(bus).queue_model(),
            ),
            final(bus).queue_model().len() == 0,
            final(bus).live_subscribers() == old(bus).live_subscribers() - 1,
    {
        self.request_stop(bus);
        self.join_worker(bus);
    }

    /// Where the facade's worker stands in its lifecycle.
    pub fn worker_status(&self) -> (r: WorkerState)
        ensures
            r == self.worker_state(),
    {
        self.worker
    }

    /// The significant-figure precision histograms are created with.
    pub fn sigfig(&self) -> (r: u8)
        ensures
            r == self.spec_sigfig(),
    {
        self.aggregator.sigfig()
    }

    /// The span names with histograms, in order of first observation.
    pub closed spec fn spec_names(&self) -> Seq<Seq<char>> {
        self.aggregator.spec_names()
    }

    /// How many span names have histograms.
    pub fn histogram_count(&self) -> (r: usize)
        requires
            self.wf(),
        ensures
            r == self.histograms().dom().len(),
            r == self.spec_names().len(),
    {
        self.aggregator.histogram_count()
    }

    /// The span name of the `i`-th histogram, in order of first observation.
    pub fn name_at(&self, i: usize) -> (r: &'static str)
        requires
            self.wf(),
            i < self.histograms().dom().len(),
        ensures
            r@ == self.spec_names()[i as int],
            self.histograms().contains_key(r@),
    {
        self.aggregator.name_at(i)
    }

    /// Law: iterating histograms by index is complete and free of
    /// duplicates: the name list has one entry per histogram, every entry
    /// is a key of the table, and no name repeats.
    pub proof fn lemma_names_cover_histograms(&self)
        requires
            self.wf(),
        ensures
            self.spec_names().len() == self.histograms().dom().len(),
            forall|i: int|
                0 <= i < self.spec_names().len() ==> self.histograms().contains_key(
                    #[trigger] self.spec_names()[i],
                ),
            forall|i: int, j: int|
                0 <= i < j < self.spec_names().len() ==> self.spec_names()[i]
                    != self.spec_names()[j],
    {
        self.aggregator.lemma_names_cover_model();
    }

    /// How many samples were recorded for a name, or `None` where the name
    /// was never observed.
    pub fn sample_count(&self, name: &'static str) -> (r: Option<u64>)
        requires
            self.wf(),
        ensures
            r is Some <==> self.histograms().contains_key(name@),
            r matches Some(c) ==> c as nat == self.histograms()[name@].len(),
    {
        self.aggregator.sample_count(name)
    }

    /// The sum of all recorded durations for a name, in nanoseconds, or
    /// `None` where the name was never observed.
    pub fn total_elapsed_ns(&self, name: &'static str) -> (r: Option<u128>)
        requires
            self.wf(),
        ensures
            r is Some <==> self.histograms().contains_key(name@),
            r matches Some(t) ==> t as int == sum_ns(self.histograms()[name@]),
    {
        self.aggregator.total_elapsed_ns(name)
    }

    /// The arithmetic mean of all recorded durations for a name, in
    /// nanoseconds rounded towards zero, or `None` where the name was never
    /// observed.
    pub fn mean_ns(&self, name: &'static str) -> (r: Option<u64>)
        requires
            self.wf(),
        ensures
            r is Some <==> self.histograms().contains_key(name@),
            r matches Some(v) ==> v as int == sum_ns(self.histograms()[name@]) / (
            self.histograms()[name@].len() as int),
    {
        self.aggregator.mean_ns(name)
    }

    /// How many samples the backing `hdrhistogram` histogram for a name has
    /// itself counted, or `None` where the name was never observed.
    pub fn recorded_sample_count(&self, name: &'static str) -> (r: Option<u64>)
        requires
            self.wf(),
        ensures
            r is Some <==> self.histograms().contains_key(name@),
            r matches Some(c) ==> c as nat == self.histograms()[name@].len(),
    {
        self.aggregator.recorded_sample_count(name)
    }
}

} // verus!
