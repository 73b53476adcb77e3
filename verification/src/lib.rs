//! A low-overhead instrumentation core for collecting span-duration metrics.
//!
//! Producer code opens a [`Span`] around a region of interest; entering and
//! leaving the region emits events onto a [`Channel`]. A [`Metrics`] handle
//! subscribes to the channel, aggregates exit events into per-span-name
//! latency histograms, and exposes the result for inspection.

pub mod aggregator;
pub mod channel;
pub mod clock;
pub mod event;
pub mod hist;
pub mod laws;
pub mod metrics;
pub mod span;

pub use aggregator::Aggregator;
pub use channel::Channel;
pub use event::Event;
pub use metrics::{Metrics, WorkerState};
pub use span::Span;
