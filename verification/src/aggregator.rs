use vstd::arithmetic::div_mod::{lemma_div_is_ordered, lemma_div_multiples_vanish};
use vstd::arithmetic::mul::lemma_mul_inequality;
use vstd::multiset::Multiset;
use vstd::prelude::*;
use vstd::seq_lib::group_to_multiset_ensures;

use crate::event::{str_eq, Event};
use crate::hist::{
    hist_samples, new_histogram, record_sample, recorded_len, DurationHistogram,
    HIGHEST_TRACKABLE_NS, LOWEST_TRACKABLE_NS, MAX_SIGFIG,
};

verus! {

/// What a duration sample becomes before it is recorded: values outside the
/// trackable range saturate at the nearer bound, so an extreme duration is
/// clamped rather than lost or fatal.
pub open spec fn clamp_ns(v: u64) -> u64 {
    if v < LOWEST_TRACKABLE_NS {
        LOWEST_TRACKABLE_NS
    } else if v > HIGHEST_TRACKABLE_NS {
        HIGHEST_TRACKABLE_NS
    } else {
        v
    }
}

/// The sum of a sequence of duration samples, in nanoseconds.
pub open spec fn sum_ns(s: Seq<u64>) -> int
    decreases s.len(),
{
    if s.len() == 0 {
        0
    } else {
        sum_ns(s.drop_last()) + s.last()
    }
}

/// Whether every sample of a sequence lies in the trackable range.
pub open spec fn in_range(s: Seq<u64>) -> bool {
    forall|i: int|
        0 <= i < s.len() ==> LOWEST_TRACKABLE_NS <= #[trigger] s[i] <= HIGHEST_TRACKABLE_NS
}

/// The samples a histogram table already holds for a name; the empty
/// sequence where no exit event for that name has been seen.
pub open spec fn prior_samples(m: Map<Seq<char>, Seq<u64>>, name: Seq<char>) -> Seq<u64> {
    if m.contains_key(name) {
        m[name]
    } else {
        Seq::empty()
    }
}

/// What one exit event does to a histogram table: the clamped duration is
/// appended to the samples of its span name, creating the name's entry on
/// first observation. A name whose sample count has reached `u64::MAX` drops
/// further samples instead: silent degradation, never a failure.
pub open spec fn apply_exit(
    m: Map<Seq<char>, Seq<u64>>,
    name: Seq<char>,
    elapsed: u64,
) -> Map<Seq<char>, Seq<u64>> {
    let prior = prior_samples(m, name);
    if prior.len() >= u64::MAX {
        m
    } else {
        m.insert(name, prior.push(clamp_ns(elapsed)))
    }
}

/// What one event does to a histogram table: exit events record their
/// duration; enter events are informational only and leave it unchanged.
pub open spec fn apply_event(m: Map<Seq<char>, Seq<u64>>, event: Event) -> Map<
    Seq<char>,
    Seq<u64>,
> {
    match event {
        Event::Enter(_) => m,
        Event::Exit { span_name, elapsed } => apply_exit(m, span_name@, elapsed),
    }
}

/// What draining a queue of events into a histogram table does, oldest
/// event first.
pub open spec fn apply_events(m: Map<Seq<char>, Seq<u64>>, events: Seq<Event>) -> Map<
    Seq<char>,
    Seq<u64>,
>
    decreases events.len(),
{
    if events.len() == 0 {
        m
    } else {
        apply_events(apply_event(m, events.first()), events.drop_first())
    }
}

/// Appending a sample adds its value to the sum.
pub proof fn lemma_sum_push(s: Seq<u64>, v: u64)
    ensures
        sum_ns(s.push(v)) == sum_ns(s) + v,
{
    assert(s.push(v).drop_last() =~= s);
    assert(s.push(v).last() == v);
}

/// Every in-range sample sequence sums to between its length and its length
/// times the highest trackable duration.
pub proof fn lemma_sum_bounds(s: Seq<u64>)
    requires
        in_range(s),
    ensures
        s.len() <= sum_ns(s) <= s.len() * HIGHEST_TRACKABLE_NS,
    decreases s.len(),
{
    if s.len() == 0 {
    } else {
        assert(in_range(s.drop_last()));
        lemma_sum_bounds(s.drop_last());
        assert(LOWEST_TRACKABLE_NS <= s.last() <= HIGHEST_TRACKABLE_NS);
    }
}

/// One named histogram of the table, together with the running statistics
/// the verified facade reports.
struct HistEntry {
    name: &'static str,
    hist: DurationHistogram,
    count: u64,
    total_ns: u128,
    samples: Ghost<Seq<u64>>,
}

impl HistEntry {
    spec fn wf(self) -> bool {
        &&& self.count as nat == self.samples@.len()
        &&& 1 <= self.samples@.len()
        &&& self.total_ns as int == sum_ns(self.samples@)
        &&& in_range(self.samples@)
        &&& hist_samples(self.hist) == self.samples@.to_multiset()
    }
}

spec fn entries_model(s: Seq<HistEntry>) -> Map<Seq<char>, Seq<u64>>
    decreases s.len(),
{
    if s.len() == 0 {
        Map::empty()
    } else {
        entries_model(s.drop_last()).insert(s.last().name@, s.last().samples@)
    }
}

spec fn distinct_names(s: Seq<HistEntry>) -> bool {
    forall|i: int, j: int| 0 <= i < j < s.len() ==> s[i].name@ != s[j].name@
}

proof fn lemma_model_contains(s: Seq<HistEntry>, i: int)
    requires
        0 <= i < s.len(),
        forall|j: int| i < j < s.len() ==> s[j].name@ != s[i].name@,
    ensures
        entries_model(s).contains_key(s[i].name@),
        entries_model(s)[s[i].name@] == s[i].samples@,
    decreases s.len(),
{
    if i < s.len() - 1 {
        lemma_model_contains(s.drop_last(), i);
    }
}

proof fn lemma_model_absent(s: Seq<HistEntry>, name: Seq<char>)
    requires
        forall|i: int| 0 <= i < s.len() ==> s[i].name@ != name,
    ensures
        !entries_model(s).contains_key(name),
    decreases s.len(),
{
    if s.len() > 0 {
        lemma_model_absent(s.drop_last(), name);
    }
}

proof fn lemma_model_update(s: Seq<HistEntry>, i: int, e: HistEntry)
    requires
        0 <= i < s.len(),
        e.name@ == s[i].name@,
        distinct_names(s),
    ensures
        entries_model(s.update(i, e)) == entries_model(s).insert(e.name@, e.samples@),
    decreases s.len(),
{
    if i == s.len() - 1 {
        assert(s.update(i, e).drop_last() =~= s.drop_last());
        assert(s.update(i, e).last() == e);
        assert(entries_model(s.update(i, e)) =~= entries_model(s).insert(e.name@, e.samples@));
    } else {
        assert(s.update(i, e).drop_last() =~= s.drop_last().update(i, e));
        assert(distinct_names(s.drop_last()));
        lemma_model_update(s.drop_last(), i, e);
        assert(s.update(i, e).last() == s.last());
        assert(s.last().name@ != e.name@);
        assert(entries_model(s.update(i, e)) =~= entries_model(s).insert(e.name@, e.samples@));
    }
}

proof fn lemma_model_push(s: Seq<HistEntry>, e: HistEntry)
    ensures
        entries_model(s.push(e)) == entries_model(s).insert(e.name@, e.samples@),
{
    assert(s.push(e).drop_last() =~= s);
    assert(s.push(e).last() == e);
}

/// The aggregator: the per-span-name histogram table, keyed by span name,
/// mutated only by feeding events to it.
pub struct Aggregator {
    entries: Vec<HistEntry>,
    sigfig: u8,
}

impl Aggregator {
    /// The mathematical content of the table: for each span name seen so
    /// far, the sequence of clamped durations recorded for it, oldest first.
    pub closed spec fn model(&self) -> Map<Seq<char>, Seq<u64>> {
        entries_model(self.entries@)
    }

    /// The significant-figure precision histograms are created with.
    pub closed spec fn spec_sigfig(&self) -> u8 {
        self.sigfig
    }

    /// The table's internal invariant.
    pub closed spec fn wf(&self) -> bool {
        &&& self.sigfig <= MAX_SIGFIG
        &&& distinct_names(self.entries@)
        &&& forall|i: int| 0 <= i < self.entries@.len() ==> (#[trigger] self.entries@[i]).wf()
    }

    /// Builds an empty table that will create histograms with the given
    /// precision.
    pub fn new(sigfig: u8) -> (r: Aggregator)
        requires
            sigfig <= MAX_SIGFIG,
        ensures
            r.wf(),
            r.model() == Map::<Seq<char>, Seq<u64>>::empty(),
            r.spec_sigfig() == sigfig,
    {
        Aggregator { entries: Vec::new(), sigfig }
    }

    fn find_entry(&self, name: &'static str) -> (r: Option<usize>)
        ensures
            match r {
                Some(i) => i < self.entries@.len() && self.entries@[i as int].name@ == name@,
                None => forall|j: int| 0 <= j < self.entries@.len() ==> self.entries@[j].name@
                    != name@,
            },
    {
        let mut i: usize = 0;
        while i < self.entries.len()
            invariant
                i <= self.entries@.len(),
                forall|j: int| 0 <= j < i ==> self.entries@[j].name@ != name@,
            decreases self.entries@.len() - i,
        {
            if str_eq(self.entries[i].name, name) {
                return Some(i);
            }
            i = i + 1;
        }
        None
    }

    /// Records one exit event's duration against its span name, exactly as
    /// [`apply_exit`] describes: the duration is clamped to the trackable
    /// range and appended to the name's samples, lazily creating the
    /// histogram on the name's first observation.
    pub fn record_exit(&mut self, name: &'static str, elapsed: u64)
        requires
            old(self).wf(),
        ensures
            final(self).wf(),
            final(self).spec_sigfig() == old(self).spec_sigfig(),
            final(self).model() == apply_exit(old(self).model(), name@, elapsed),
    {
        let clamped = if elapsed < LOWEST_TRACKABLE_NS {
            LOWEST_TRACKABLE_NS
        } else if elapsed > HIGHEST_TRACKABLE_NS {
            HIGHEST_TRACKABLE_NS
        } else {
            elapsed
        };
        assert(clamped == clamp_ns(elapsed));
        let ghost entries0 = self.entries@;
        match self.find_entry(name) {
            Some(i) => {
                proof {
                    lemma_model_contains(entries0, i as int);
                }
                if self.entries[i].count < u64::MAX {
                    proof {
                        lemma_sum_bounds(entries0[i as int].samples@);
                        lemma_mul_inequality(
                            entries0[i as int].samples@.len() as int,
                            (u64::MAX - 1) as int,
                            HIGHEST_TRACKABLE_NS as int,
                        );
                    }
                    let e = &mut self.entries[i];
                    record_sample(&mut e.hist, clamped);
                    e.count = e.count + 1;
                    e.total_ns = e.total_ns + clamped as u128;
                    let ghost samples0 = e.samples@;
                    e.samples = Ghost(e.samples@.push(clamped));
                    proof {
                        broadcast use group_to_multiset_ensures;

                        lemma_sum_push(samples0, clamped);
                        lemma_model_update(entries0, i as int, *final(e));
                        assert(final(self).model() =~= apply_exit(
                            old(self).model(),
                            name@,
                            elapsed,
                        ));
                    }
                } else {
                    proof {
                        assert(prior_samples(old(self).model(), name@).len() >= u64::MAX);
                    }
                }
            },
            None => {
                proof {
                    lemma_model_absent(entries0, name@);
                }
                let mut hist = new_histogram(self.sigfig).unwrap();
                record_sample(&mut hist, clamped);
                let entry = HistEntry {
                    name,
                    hist,
                    count: 1,
                    total_ns: clamped as u128,
                    samples: Ghost(Seq::empty().push(clamped)),
                };
                proof {
                    broadcast use group_to_multiset_ensures;

                    lemma_sum_push(Seq::empty(), clamped);
                    vstd::multiset::lemma_multiset_empty_len(Seq::<u64>::empty().to_multiset());
                    assert(Seq::<u64>::empty().to_multiset() =~= Multiset::<u64>::empty());
                    assert(entry.wf());
                }
                self.entries.push(entry);
                proof {
                    lemma_model_push(entries0, entry);
                    assert(final(self).model() =~= apply_exit(old(self).model(), name@, elapsed));
                }
            },
        }
    }

    /// Feeds one event to the table, exactly as [`apply_event`] describes.
    pub fn handle_event(&mut self, event: Event)
        requires
            old(self).wf(),
        ensures
            final(self).wf(),
            final(self).spec_sigfig() == old(self).spec_sigfig(),
            final(self).model() == apply_event(old(self).model(), event),
    {
        match event {
            Event::Enter(_) => {},
            Event::Exit { span_name, elapsed } => self.record_exit(span_name, elapsed),
        }
    }

    /// How many samples were recorded for a name, or `None` where the name
    /// was never observed.
    pub fn sample_count(&self, name: &'static str) -> (r: Option<u64>)
        requires
            self.wf(),
        ensures
            r is Some <==> self.model().contains_key(name@),
            r matches Some(c) ==> c as nat == self.model()[name@].len(),
    {
        match self.find_entry(name) {
            Some(i) => {
                proof {
                    lemma_model_contains(self.entries@, i as int);
                }
                Some(self.entries[i].count)
            },
            None => {
                proof {
                    lemma_model_absent(self.entries@, name@);
                }
                None
            },
        }
    }

    /// The sum of all recorded durations for a name, in nanoseconds, or
    /// `None` where the name was never observed.
    pub fn total_elapsed_ns(&self, name: &'static str) -> (r: Option<u128>)
        requires
            self.wf(),
        ensures
            r is Some <==> self.model().contains_key(name@),
            r matches Some(t) ==> t as int == sum_ns(self.model()[name@]),
    {
        match self.find_entry(name) {
            Some(i) => {
                proof {
                    lemma_model_contains(self.entries@, i as int);
                }
                Some(self.entries[i].total_ns)
            },
            None => {
                proof {
                    lemma_model_absent(self.entries@, name@);
                }
                None
            },
        }
    }

    /// The arithmetic mean of all recorded durations for a name, in
    /// nanoseconds and rounded towards zero, or `None` where the name was
    /// never observed.
    pub fn mean_ns(&self, name: &'static str) -> (r: Option<u64>)
        requires
            self.wf(),
        ensures
            r is Some <==> self.model().contains_key(name@),
            r matches Some(v) ==> v as int == sum_ns(self.model()[name@]) / (
            self.model()[name@].len() as int),
    {
        match self.find_entry(name) {
            Some(i) => {
                proof {
                    lemma_model_contains(self.entries@, i as int);
                }
                let e_count = self.entries[i].count;
                let e_total = self.entries[i].total_ns;
                let mean = e_total / (e_count as u128);
                proof {
                    let ghost s = self.entries@[i as int].samples@;
                    lemma_sum_bounds(s);
                    lemma_mul_inequality(
                        s.len() as int,
                        s.len() as int,
                        HIGHEST_TRACKABLE_NS as int,
                    );
                    lemma_div_is_ordered(
                        sum_ns(s),
                        s.len() as int * HIGHEST_TRACKABLE_NS as int,
                        s.len() as int,
                    );
                    lemma_div_multiples_vanish(HIGHEST_TRACKABLE_NS as int, s.len() as int);
                }
                Some(mean as u64)
            },
            None => {
                proof {
                    lemma_model_absent(self.entries@, name@);
                }
                None
            },
        }
    }

    /// How many samples the backing `hdrhistogram` histogram for a name has
    /// itself counted, read from the histogram rather than the table's own
    /// counter; `None` where the name was never observed.
    pub fn recorded_sample_count(&self, name: &'static str) -> (r: Option<u64>)
        requires
            self.wf(),
        ensures
            r is Some <==> self.model().contains_key(name@),
            r matches Some(c) ==> c as nat == self.model()[name@].len(),
    {
        match self.find_entry(name) {
            Some(i) => {
                proof {
                    broadcast use group_to_multiset_ensures;

                    lemma_model_contains(self.entries@, i as int);
                    assert(hist_samples(self.entries@[i as int].hist).len()
                        == self.entries@[i as int].samples@.len());
                }
                Some(recorded_len(&self.entries[i].hist))
            },
            None => {
                proof {
                    lemma_model_absent(self.entries@, name@);
                }
                None
            },
        }
    }

    /// The significant-figure precision histograms are created with.
    pub fn sigfig(&self) -> (r: u8)
        ensures
            r == self.spec_sigfig(),
    {
        self.sigfig
    }

    /// The span names of the table's histograms, in order of first
    /// observation.
    pub closed spec fn spec_names(&self) -> Seq<Seq<char>> {
        Seq::new(self.entries@.len(), |i: int| self.entries@[i].name@)
    }

    /// How many span names have histograms.
    pub fn histogram_count(&self) -> (r: usize)
        requires
            self.wf(),
        ensures
            r == self.model().dom().len(),
            r == self.spec_names().len(),
    {
        proof {
            lemma_model_dom(self.entries@);
        }
        self.entries.len()
    }

    /// The span name of the table's `i`-th histogram, in order of first
    /// observation.
    pub fn name_at(&self, i: usize) -> (r: &'static str)
        requires
            self.wf(),
            i < self.model().dom().len(),
        ensures
            r@ == self.spec_names()[i as int],
            self.model().contains_key(r@),
    {
        proof {
            lemma_model_dom(self.entries@);
            lemma_model_contains(self.entries@, i as int);
        }
        self.entries[i].name
    }

    /// Law: the name list visits every histogram of the table exactly once:
    /// it has one entry per key of the table, each entry is a key, and no
    /// name repeats, so iterating histograms by index is complete and free
    /// of duplicates.
    pub proof fn lemma_names_cover_model(&self)
        requires
            self.wf(),
        ensures
            self.spec_names().len() == self.model().dom().len(),
            forall|i: int|
                0 <= i < self.spec_names().len() ==> self.model().contains_key(
                    #[trigger] self.spec_names()[i],
                ),
            forall|i: int, j: int|
                0 <= i < j < self.spec_names().len() ==> self.spec_names()[i]
                    != self.spec_names()[j],
    {
        lemma_model_dom(self.entries@);
        assert forall|i: int|
            0 <= i < self.spec_names().len() implies self.model().contains_key(
            #[trigger] self.spec_names()[i],
        ) by {
            lemma_model_contains(self.entries@, i);
        }
    }
}

proof fn lemma_model_dom(s: Seq<HistEntry>)
    requires
        distinct_names(s),
    ensures
        entries_model(s).dom().finite(),
        entries_model(s).dom().len() == s.len(),
    decreases s.len(),
{
    if s.len() > 0 {
        assert(distinct_names(s.drop_last()));
        lemma_model_dom(s.drop_last());
        lemma_model_absent(s.drop_last(), s.last().name@);
    }
}

} // verus!
