use vstd::multiset::Multiset;
use vstd::prelude::*;

verus! {

/// The lowest duration, in nanoseconds, that a histogram discerns from zero.
pub const LOWEST_TRACKABLE_NS: u64 = 1;

/// The highest duration, in nanoseconds, that a histogram tracks.
pub const HIGHEST_TRACKABLE_NS: u64 = 1_000_000_000;

/// The largest number of significant decimal digits a histogram supports.
pub const MAX_SIGFIG: u8 = 5;

/// A bounded, precision-configurable distribution of duration samples,
/// backed by `hdrhistogram::Histogram<u64>`.
///
/// The backing type is generic over a counter trait of its own crate, which
/// keeps it from being declared to the verifier directly; it is therefore held
/// opaquely in a private field, and every operation on it goes through the
/// trusted functions below, whose contracts speak of [`hist_samples`].
#[verifier::external_body]
pub struct DurationHistogram {
    inner: hdrhistogram::Histogram<u64>,
}

/// The multiset of duration samples recorded into a histogram: each value
/// handed to [`record_sample`] appears in it once per recording.
pub uninterp spec fn hist_samples(h: DurationHistogram) -> Multiset<u64>;

/// Relies on `hdrhistogram::Histogram::new_with_bounds`, called with the fixed
/// range `[LOWEST_TRACKABLE_NS, HIGHEST_TRACKABLE_NS]`: with that range the
/// only rejected argument is a significant-figure count above `MAX_SIGFIG`,
/// and a freshly built histogram has recorded nothing.
#[verifier::external_body]
pub fn new_histogram(sigfig: u8) -> (r: Option<DurationHistogram>)
    ensures
        r is Some <==> sigfig <= MAX_SIGFIG,
        r matches Some(h) ==> hist_samples(h) == Multiset::<u64>::empty(),
{
    match hdrhistogram::Histogram::new_with_bounds(
        LOWEST_TRACKABLE_NS,
        HIGHEST_TRACKABLE_NS,
        sigfig,
    ) {
        Ok(inner) => Some(DurationHistogram { inner }),
        Err(_) => None,
    }
}

/// Relies on `hdrhistogram::Histogram::saturating_record`: it cannot fail, and
/// it adds exactly one sample for the given value to the histogram.
#[verifier::external_body]
pub fn record_sample(h: &mut DurationHistogram, value: u64)
    ensures
        hist_samples(*final(h)) == hist_samples(*old(h)).insert(value),
{
    h.inner.saturating_record(value);
}

/// Relies on `hdrhistogram::Histogram::len`: it returns the total number of
/// recorded samples, which grows by one per recording and saturates at
/// `u64::MAX`.
#[verifier::external_body]
pub fn recorded_len(h: &DurationHistogram) -> (r: u64)
    ensures
        hist_samples(*h).len() <= u64::MAX ==> r == hist_samples(*h).len(),
        hist_samples(*h).len() > u64::MAX ==> r == u64::MAX,
{
    h.inner.len()
}

} // verus!
