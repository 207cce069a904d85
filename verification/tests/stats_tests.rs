use crossbeam::channel::unbounded;
use pipeprog::stats::{chunk_rate, Report, Stats, NANOS_PER_SECOND};

#[test]
fn rate_is_bytes_per_second() {
    assert_eq!(chunk_rate(100, 500_000_000), Some(200));
    assert_eq!(chunk_rate(400, NANOS_PER_SECOND), Some(400));
    assert_eq!(chunk_rate(16384, 1_000), Some(16_384_000_000));
}

#[test]
fn rate_rounds_to_nearest_halves_up() {
    assert_eq!(chunk_rate(1, 3_000_000_000), Some(0));
    assert_eq!(chunk_rate(1, 2_000_000_000), Some(1));
    assert_eq!(chunk_rate(2, 3_000_000_000), Some(1));
    assert_eq!(chunk_rate(0, 1), Some(0));
}

#[test]
fn rate_without_elapsed_time_is_unknown() {
    assert_eq!(chunk_rate(100, 0), None);
    assert_eq!(chunk_rate(0, 0), None);
}

#[test]
fn rate_at_the_limits() {
    assert_eq!(chunk_rate(usize::MAX, u128::MAX), Some(0));
    assert_eq!(
        chunk_rate(usize::MAX, 1),
        Some(usize::MAX as u128 * 1_000_000_000)
    );
}

#[test]
fn first_count_is_reported() {
    let mut stats = Stats::new(false);
    let tick = stats.observe(100, 500_000_000, 3);
    let report = tick.report.expect("a fresh stage reports at once");
    assert_eq!(report.total_bytes, 100);
    assert_eq!(report.elapsed_secs, 3);
    assert_eq!(report.rate, Some(200));
    assert!(!tick.last);
    assert!(!tick.newline);
    assert_eq!(stats.total_bytes(), 100);
}

#[test]
fn reports_are_throttled_to_one_per_period() {
    let mut stats = Stats::new(false);
    assert!(stats.observe(10, 1, 0).report.is_some());
    assert!(stats.observe(10, 400_000_000, 0).report.is_none());
    assert!(stats.observe(10, 600_000_000, 1).report.is_none());
    let tick = stats.observe(10, 1, 1);
    let report = tick.report.expect("the period has passed");
    assert_eq!(report.total_bytes, 40);
    assert_eq!(report.rate, Some(10_000_000_000));
}

#[test]
fn sentinel_ends_the_run_with_a_newline() {
    let mut stats = Stats::new(false);
    stats.observe(5, 10, 0);
    let tick = stats.observe(0, 10, 0);
    assert!(tick.last);
    assert!(tick.newline);
    assert!(tick.report.is_none());
    assert_eq!(stats.total_bytes(), 5);
}

#[test]
fn silent_stage_writes_nothing() {
    let mut stats = Stats::new(true);
    assert!(stats.is_silent());
    for i in 0..50_u64 {
        let tick = stats.observe(1000, 700_000_000, i);
        assert!(tick.report.is_none());
        assert!(!tick.newline);
        assert!(!tick.last);
    }
    let tick = stats.observe(0, 700_000_000, 50);
    assert!(tick.report.is_none());
    assert!(!tick.newline);
    assert!(tick.last);
    assert_eq!(stats.total_bytes(), 50_000);
}

#[test]
fn total_stays_at_the_top() {
    let mut stats = Stats::new(true);
    stats.observe(usize::MAX - 1, 1, 0);
    stats.observe(5, 1, 0);
    assert_eq!(stats.total_bytes(), usize::MAX);
    stats.observe(5, 1, 0);
    assert_eq!(stats.total_bytes(), usize::MAX);
}

#[test]
fn record_counts_whatever_the_clock_says() {
    let mut stats = Stats::new(false);
    let first = stats.record(16384);
    assert!(!first.last);
    let last = stats.record(0);
    assert!(last.last);
    assert!(last.newline);
    assert_eq!(stats.total_bytes(), 16384);
}

#[test]
fn report_line_shows_total_time_and_rate() {
    let report = Report {
        total_bytes: 2048,
        elapsed_secs: 3723,
        rate: Some(512),
    };
    let line = report.line();
    assert!(line.starts_with("\u{1b}[1G"));
    assert!(line.contains("2048 "));
    assert!(line.contains("1:02:03"));
    assert!(line.contains(" [512b/s]"));
}

#[test]
fn receive_takes_counts_in_order_until_the_sentinel() {
    let (tx, rx) = unbounded();
    tx.send(16384_usize).unwrap();
    tx.send(8192).unwrap();
    tx.send(0).unwrap();
    let mut stats = Stats::new(true);
    assert!(!stats.receive(&rx).last);
    assert_eq!(stats.total_bytes(), 16384);
    assert!(!stats.receive(&rx).last);
    assert_eq!(stats.total_bytes(), 24576);
    assert!(stats.receive(&rx).last);
    assert_eq!(stats.total_bytes(), 24576);
}

#[test]
fn receive_ends_when_the_senders_are_gone() {
    let (tx, rx) = unbounded::<usize>();
    tx.send(7).unwrap();
    drop(tx);
    let mut stats = Stats::new(false);
    let first = stats.receive(&rx);
    assert!(!first.last);
    let second = stats.receive(&rx);
    assert!(second.last);
    assert!(second.newline);
    assert_eq!(stats.total_bytes(), 7);
}

#[test]
fn message_count_maps_a_closed_channel_to_the_sentinel() {
    assert_eq!(Stats::message_count(Some(12)), 12);
    assert_eq!(Stats::message_count(Some(0)), 0);
    assert_eq!(Stats::message_count(None), 0);
}
