use std::time::{Duration, Instant};

use game_metrics::{Channel, Metrics, Span};

fn busy_sleep(d: Duration) {
    let start = Instant::now();
    while start.elapsed() < d {}
}

fn simulated_pair(name: &'static str, elapsed: u64, bus: &mut Channel) {
    let span = Span::new_at(name, 0, bus);
    span.exit_with(elapsed, bus);
}

#[test]
fn pairs_aggregate_to_count_and_arithmetic_mean() {
    let durations: [u64; 5] = [10, 20, 30, 40, 100];
    let mut bus = Channel::new();
    let mut m = Metrics::new(3, &mut bus);
    for d in durations {
        simulated_pair("timed", d, &mut bus);
    }
    m.flush(&mut bus);
    assert_eq!(m.sample_count("timed"), Some(5));
    assert_eq!(m.recorded_sample_count("timed"), Some(5));
    assert_eq!(m.total_elapsed_ns("timed"), Some(200));
    assert_eq!(m.mean_ns("timed"), Some(40));
    m.close(&mut bus);
}

#[test]
fn flush_observes_all_events_sent_before_it() {
    let mut bus = Channel::new();
    let mut m = Metrics::new(2, &mut bus);
    for i in 0..50u64 {
        simulated_pair("steady", i + 1, &mut bus);
    }
    m.flush(&mut bus);
    assert_eq!(bus.queue_len(), 0);
    assert_eq!(m.sample_count("steady"), Some(50));
    assert_eq!(m.total_elapsed_ns("steady"), Some((1..=50u128).sum()));
    m.close(&mut bus);
}

#[test]
fn out_of_range_durations_are_clamped() {
    let mut bus = Channel::new();
    let mut m = Metrics::new(1, &mut bus);
    simulated_pair("edges", 0, &mut bus);
    simulated_pair("edges", 2_000_000_000, &mut bus);
    m.flush(&mut bus);
    assert_eq!(m.sample_count("edges"), Some(2));
    assert_eq!(m.total_elapsed_ns("edges"), Some(1 + 1_000_000_000));
    assert_eq!(m.mean_ns("edges"), Some((1 + 1_000_000_000) / 2));
    m.close(&mut bus);
}

#[test]
fn lazily_created_histograms_keep_names_apart() {
    let mut bus = Channel::new();
    let mut m = Metrics::new(1, &mut bus);
    simulated_pair("first", 10, &mut bus);
    simulated_pair("second", 30, &mut bus);
    simulated_pair("first", 20, &mut bus);
    m.flush(&mut bus);
    assert_eq!(m.histogram_count(), 2);
    let mut names = vec![m.name_at(0), m.name_at(1)];
    names.sort();
    assert_eq!(names, vec!["first", "second"]);
    assert_eq!(m.sample_count("first"), Some(2));
    assert_eq!(m.mean_ns("first"), Some(15));
    assert_eq!(m.sample_count("second"), Some(1));
    assert_eq!(m.mean_ns("second"), Some(30));
    assert_eq!(m.sample_count("absent"), None);
    assert_eq!(m.mean_ns("absent"), None);
    m.close(&mut bus);
}

#[test]
fn short_function_timed_ten_times() {
    let mut bus = Channel::new();
    let mut m = Metrics::new(1, &mut bus);
    for _ in 0..10 {
        let span = Span::new("short", &mut bus);
        busy_sleep(Duration::from_millis(50));
        span.exit(&mut bus);
    }
    m.flush(&mut bus);
    assert_eq!(m.sample_count("short"), Some(10));
    let mean = m.mean_ns("short").expect("histogram exists");
    assert!(
        (40_000_000..=80_000_000).contains(&mean),
        "mean of ~50 ms sleeps out of range: {} ns",
        mean
    );
    m.close(&mut bus);
}

#[test]
fn two_producers_two_span_names() {
    // Two producers each invoke both spans twice, interleaved; four
    // invocations per name in all, with simulated durations.
    let mut bus = Channel::new();
    let mut m = Metrics::new(1, &mut bus);
    for _ in 0..2 {
        // first producer
        simulated_pair("long_scoped", 500_000_000, &mut bus);
        simulated_pair("short_scoped", 50_000_000, &mut bus);
        // second producer
        simulated_pair("short_scoped", 50_000_000, &mut bus);
        simulated_pair("long_scoped", 500_000_000, &mut bus);
    }
    m.flush(&mut bus);
    assert_eq!(m.histogram_count(), 2);
    assert_eq!(m.sample_count("long_scoped"), Some(4));
    assert_eq!(m.sample_count("short_scoped"), Some(4));
    let long_mean = m.mean_ns("long_scoped").unwrap();
    let short_mean = m.mean_ns("short_scoped").unwrap();
    assert_eq!(long_mean, 500_000_000);
    assert_eq!(short_mean, 50_000_000);
    assert!(long_mean > short_mean);
    m.close(&mut bus);
}

#[test]
fn sample_count_distinguishes_similar_names() {
    let mut bus = Channel::new();
    let mut m = Metrics::new(1, &mut bus);
    simulated_pair("name", 10, &mut bus);
    simulated_pair("name", 10, &mut bus);
    m.flush(&mut bus);
    assert_eq!(m.sample_count("name"), Some(2));
    assert_eq!(m.sample_count("nam"), None);
    assert_eq!(m.sample_count("names"), None);
    m.close(&mut bus);
}
