use vstd::prelude::*;

use crate::aggregator::{
    apply_event, apply_events, apply_exit, clamp_ns, in_range, prior_samples, sum_ns,
};
use crate::event::Event;

verus! {

/// Whether `events` is a sequence of enter/exit pairs for the span `name`,
/// the exit of the `j`-th pair carrying the duration `ds[j]`: the shape a
/// producer emits when it opens and closes a span `ds.len()` times in a row.
pub open spec fn enter_exit_pairs(events: Seq<Event>, name: Seq<char>, ds: Seq<u64>) -> bool {
    &&& events.len() == 2 * ds.len()
    &&& forall|k: int| 0 <= k < events.len() ==> (#[trigger] events[k]).spec_name() == name
    &&& forall|k: int|
        0 <= k < events.len() && k % 2 == 0 ==> (#[trigger] events[k]) is Enter
    &&& forall|k: int|
        0 <= k < events.len() && k % 2 == 1 ==> ((#[trigger] events[k]) matches Event::Exit {
            span_name,
            elapsed,
        } && elapsed == ds[k / 2])
}

proof fn lemma_pairs_extend(
    m: Map<Seq<char>, Seq<u64>>,
    events: Seq<Event>,
    name: Seq<char>,
    ds: Seq<u64>,
)
    requires
        enter_exit_pairs(events, name, ds),
        in_range(ds),
        prior_samples(m, name).len() + ds.len() <= u64::MAX,
    ensures
        ds.len() == 0 ==> apply_events(m, events) == m,
        ds.len() > 0 ==> apply_events(m, events) == m.insert(
            name,
            prior_samples(m, name) + ds,
        ),
    decreases ds.len(),
{
    if ds.len() == 0 {
        assert(events.len() == 0);
    } else {
        let prior = prior_samples(m, name);
        assert(events[0] is Enter);
        assert(events[1] matches Event::Exit { span_name, elapsed } && elapsed == ds[0]);
        assert(clamp_ns(ds[0]) == ds[0]);

        let m1 = apply_event(m, events[0]);
        assert(m1 == m);
        let m2 = apply_event(m1, events[1]);
        assert(m2 == m.insert(name, prior.push(ds[0])));

        let events2 = events.drop_first().drop_first();
        let ds2 = ds.drop_first();
        assert(enter_exit_pairs(events2, name, ds2)) by {
            assert(forall|k: int| 0 <= k < events2.len() ==> events2[k] == events[k + 2]);
            assert(forall|k: int| 0 <= k < ds2.len() ==> ds2[k] == ds[k + 1]);
            assert forall|k: int| 0 <= k < events2.len() && k % 2 == 1 implies ((
            #[trigger] events2[k]) matches Event::Exit { span_name, elapsed } && elapsed
                == ds2[k / 2]) by {
                assert(events2[k] == events[k + 2]);
                assert((k + 2) % 2 == 1);
                assert((k + 2) / 2 == k / 2 + 1);
            }
        }
        assert(in_range(ds2));
        assert(prior_samples(m2, name) == prior.push(ds[0]));
        lemma_pairs_extend(m2, events2, name, ds2);

        let rest = events.drop_first();
        assert(events.first() == events[0]);
        assert(apply_events(m, events) == apply_events(m1, rest));
        assert(rest.len() > 0);
        assert(rest.first() == events[1]);
        assert(rest.drop_first() == events2);
        assert(apply_events(m1, rest) == apply_events(m2, events2));
        if ds2.len() == 0 {
            assert(prior.push(ds[0]) =~= prior + ds);
        } else {
            assert(prior.push(ds[0]) + ds2 =~= prior + ds);
            assert(m2.insert(name, prior_samples(m2, name) + ds2) =~= m.insert(
                name,
                prior + ds,
            ));
        }
    }
}

/// Law: draining a run of enter/exit pairs for one span name, whose exits
/// carry the in-range durations `ds`, into a table that holds no histogram
/// for that name yet, yields a table whose samples for the name are exactly
/// `ds`: the sample count equals the number of pairs and the total equals
/// the sum of the durations, so the reported mean is their arithmetic mean.
pub proof fn lemma_enter_exit_pairs_aggregate(
    m: Map<Seq<char>, Seq<u64>>,
    events: Seq<Event>,
    name: Seq<char>,
    ds: Seq<u64>,
)
    requires
        !m.contains_key(name),
        enter_exit_pairs(events, name, ds),
        in_range(ds),
        1 <= ds.len() <= u64::MAX,
    ensures
        apply_events(m, events) == m.insert(name, ds),
        apply_events(m, events)[name].len() == ds.len(),
        sum_ns(apply_events(m, events)[name]) == sum_ns(ds),
{
    lemma_pairs_extend(m, events, name, ds);
    assert(prior_samples(m, name) + ds =~= ds);
}

/// Law (single full-fidelity consumer): an event drained by one facade is
/// taken off the queue, so a facade that drains after another observes an
/// empty queue and its table gains nothing. Two live facades on one channel
/// therefore compete for events rather than each seeing all of them.
pub proof fn lemma_drain_after_drain(m: Map<Seq<char>, Seq<u64>>)
    ensures
        apply_events(m, Seq::<Event>::empty()) == m,
{
}

/// Law: an enter event never changes the table; only exit events record.
pub proof fn lemma_enter_is_informational(m: Map<Seq<char>, Seq<u64>>, name: &'static str)
    ensures
        apply_event(m, Event::Enter(name)) == m,
{
}

/// Law: recording an exit for an unseen name creates its histogram with one
/// sample, the exit's clamped duration.
pub proof fn lemma_first_exit_creates(
    m: Map<Seq<char>, Seq<u64>>,
    name: Seq<char>,
    elapsed: u64,
)
    requires
        !m.contains_key(name),
    ensures
        apply_exit(m, name, elapsed) == m.insert(name, seq![clamp_ns(elapsed)]),
{
    assert(prior_samples(m, name).push(clamp_ns(elapsed)) =~= seq![clamp_ns(elapsed)]);
}

} // verus!
