use game_metrics::{Channel, Event, Metrics, Span, WorkerState};

#[test]
fn send_without_subscribers_enqueues_nothing() {
    let mut bus = Channel::new();
    assert_eq!(bus.queue_len(), 0);
    for _ in 0..100 {
        bus.send(Event::Enter("noise"));
        bus.send(Event::Exit { span_name: "noise", elapsed: 123 });
    }
    assert_eq!(bus.queue_len(), 0);
}

#[test]
fn spans_without_subscribers_enqueue_nothing() {
    let mut bus = Channel::new();
    for _ in 0..10 {
        let span = Span::new("quiet", &mut bus);
        span.exit(&mut bus);
    }
    assert_eq!(bus.queue_len(), 0);
}

#[test]
fn send_with_subscriber_enqueues() {
    let mut bus = Channel::new();
    bus.register_subscriber();
    bus.send(Event::Enter("loud"));
    bus.send(Event::Exit { span_name: "loud", elapsed: 9 });
    assert_eq!(bus.queue_len(), 2);
    bus.unregister_subscriber();
}

#[test]
fn recv_is_fifo_and_nonblocking() {
    let mut bus = Channel::new();
    bus.register_subscriber();
    bus.send(Event::Enter("a"));
    bus.send(Event::Exit { span_name: "a", elapsed: 1 });
    assert_eq!(bus.recv(), Some(Event::Enter("a")));
    assert_eq!(bus.recv(), Some(Event::Exit { span_name: "a", elapsed: 1 }));
    assert_eq!(bus.recv(), None);
    assert_eq!(bus.queue_len(), 0);
}

#[test]
fn event_name_reports_span_name() {
    assert_eq!(Event::Enter("alpha").name(), "alpha");
    assert_eq!(Event::Exit { span_name: "beta", elapsed: 5 }.name(), "beta");
}

#[test]
fn elapsed_is_zero_when_end_not_after_start() {
    let bus = Channel::new();
    assert_eq!(bus.elapsed_nanos(100, 50), 0);
    assert_eq!(bus.elapsed_nanos(100, 100), 0);
}

#[test]
fn try_new_rejects_out_of_range_sigfig() {
    let mut bus = Channel::new();
    assert!(Metrics::try_new(6, &mut bus).is_none());
    assert!(Metrics::try_new(255, &mut bus).is_none());
    assert_eq!(bus.queue_len(), 0);
    for sigfig in 0..=5u8 {
        let mut m = Metrics::try_new(sigfig, &mut bus).expect("supported precision");
        assert_eq!(m.sigfig(), sigfig);
        m.close(&mut bus);
    }
}

#[test]
fn worker_lifecycle_transitions() {
    let mut bus = Channel::new();
    let mut m = Metrics::unstarted(2);
    assert_eq!(m.worker_status(), WorkerState::Stopped);
    m.start(&mut bus);
    assert_eq!(m.worker_status(), WorkerState::Running);
    m.request_stop(&mut bus);
    assert_eq!(m.worker_status(), WorkerState::StopRequested);
    m.join_worker(&mut bus);
    assert_eq!(m.worker_status(), WorkerState::Joined);
}

#[test]
fn teardown_then_send_is_a_safe_no_op() {
    let mut bus = Channel::new();
    let mut m = Metrics::new(1, &mut bus);
    let span = Span::new("spanned", &mut bus);
    span.exit_with(1_000, &mut bus);
    m.close(&mut bus);
    assert_eq!(m.worker_status(), WorkerState::Joined);
    assert_eq!(bus.queue_len(), 0);
    // The lingering reference keeps sending: nothing is enqueued any more.
    bus.send(Event::Exit { span_name: "spanned", elapsed: 77 });
    let late = Span::new("spanned", &mut bus);
    late.exit(&mut bus);
    assert_eq!(bus.queue_len(), 0);
    // The events drained during teardown were still aggregated.
    assert_eq!(m.sample_count("spanned"), Some(1));
}

#[test]
fn two_facades_compete_for_events() {
    // The channel is a competing-consumer queue: with two live facades an
    // event drained by one is never seen by the other, so only a single
    // facade should be active at a time for full-fidelity aggregation.
    let mut bus = Channel::new();
    let mut first = Metrics::new(1, &mut bus);
    let mut second = Metrics::new(1, &mut bus);

    let span = Span::new_at("contested", 0, &mut bus);
    span.exit_with(500, &mut bus);

    first.flush(&mut bus);
    second.flush(&mut bus);

    assert_eq!(first.sample_count("contested"), Some(1));
    assert_eq!(second.sample_count("contested"), None);
    assert_eq!(second.histogram_count(), 0);

    first.close(&mut bus);
    second.close(&mut bus);
}

#[test]
fn enter_events_are_informational_only() {
    let mut bus = Channel::new();
    let mut m = Metrics::new(1, &mut bus);
    bus.send(Event::Enter("only_entered"));
    bus.send(Event::Enter("only_entered"));
    m.flush(&mut bus);
    assert_eq!(m.histogram_count(), 0);
    assert_eq!(m.sample_count("only_entered"), None);
    m.close(&mut bus);
}

#[test]
fn flush_of_empty_queue_changes_nothing() {
    let mut bus = Channel::new();
    let mut m = Metrics::new(3, &mut bus);
    m.flush(&mut bus);
    assert_eq!(m.histogram_count(), 0);
    m.close(&mut bus);
}
