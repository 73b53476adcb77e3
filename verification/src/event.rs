use vstd::prelude::*;

verus! {

/// An instrumentation event carried from producer code to the aggregator.
///
/// Span names are `&'static str` by design: they are interned for the life
/// of the process, so emitting an event never allocates.
#[derive(Clone, Copy, Debug, PartialEq, Eq)]
pub enum Event {
    /// A span with the given name has been entered.
    Enter(&'static str),
    /// A span has been left; `elapsed` is the measured duration in
    /// nanoseconds between entry and exit.
    Exit { span_name: &'static str, elapsed: u64 },
}

impl Event {
    /// The name of the span this event belongs to, as a sequence of
    /// characters.
    pub open spec fn spec_name(self) -> Seq<char> {
        match self {
            Event::Enter(name) => name@,
            Event::Exit { span_name, .. } => span_name@,
        }
    }

    /// The span name carried by this event.
    pub fn name(&self) -> (r: &'static str)
        ensures
            r@ == self.spec_name(),
    {
        match self {
            Event::Enter(name) => name,
            Event::Exit { span_name, .. } => span_name,
        }
    }
}

/// Relies on `str`'s `PartialEq`: two string slices compare equal exactly
/// when they hold the same characters.
#[verifier::external_body]
pub fn str_eq(a: &str, b: &str) -> (r: bool)
    ensures
        r == (a@ == b@),
{
    a == b
}

} // verus!
