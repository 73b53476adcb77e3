use vstd::prelude::*;

verus! {

#[verifier::external_type_specification]
#[verifier::external_body]
pub struct ExClock(quanta::Clock);

/// Relies on `quanta::Clock::new`: builds a monotonic time source. Nothing is
/// promised of the value; callers treat timestamps as arbitrary.
#[verifier::external_body]
pub fn new_clock() -> quanta::Clock {
    quanta::Clock::new()
}

/// Relies on `quanta::Clock::raw`: reads the fastest available time source.
/// The reading is machine- and moment-dependent, so nothing is promised of it.
#[verifier::external_body]
pub fn clock_raw(clock: &quanta::Clock) -> u64 {
    clock.raw()
}

/// Relies on `quanta::Clock::delta_as_nanos`: scales the difference of two raw
/// readings to nanoseconds. Its source returns 0 outright whenever
/// `end <= start`; the scaled difference is otherwise machine-dependent.
#[verifier::external_body]
pub fn clock_delta_nanos(clock: &quanta::Clock, start: u64, end: u64) -> (r: u64)
    ensures
        end <= start ==> r == 0,
{
    clock.delta_as_nanos(start, end)
}

} // verus!
