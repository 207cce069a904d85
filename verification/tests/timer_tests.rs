use pipeprog::timer::{Timer, DEFAULT_PERIOD_NANOS};

#[test]
fn check_if_ready_initialised_as_true() {
    let timer = Timer::new();
    assert!(timer.get_ready());
}

#[test]
fn check_if_unready_sets_ready_to_false() {
    let mut timer = Timer::new();
    timer.unready();
    assert_eq!(timer.get_ready(), false);
}

#[test]
fn default_period_is_one_second() {
    assert_eq!(DEFAULT_PERIOD_NANOS, 1_000_000_000);
}

#[test]
fn first_update_with_time_passed_makes_ready() {
    let mut timer = Timer::new();
    timer.unready();
    timer.advance(1);
    assert!(timer.get_ready());
    assert_eq!(timer.get_delta(), 1);
}

#[test]
fn update_in_the_same_instant_leaves_readiness() {
    let mut timer = Timer::new();
    timer.unready();
    timer.advance(0);
    assert!(!timer.get_ready());
    assert_eq!(timer.get_delta(), 0);
}

#[test]
fn deltas_within_the_period_do_not_make_ready() {
    let mut timer = Timer::new();
    timer.advance(5);
    timer.unready();
    for _ in 0..4 {
        timer.advance(250_000_000);
        assert!(!timer.get_ready());
    }
    timer.advance(1);
    assert!(timer.get_ready());
}

#[test]
fn ready_stays_until_consumed() {
    let mut timer = Timer::new();
    timer.advance(5);
    timer.advance(10);
    timer.advance(20);
    assert!(timer.get_ready());
    timer.unready();
    assert!(!timer.get_ready());
}

#[test]
fn one_long_delta_gives_one_readiness() {
    let mut timer = Timer::new();
    timer.advance(5);
    timer.unready();
    timer.advance(10 * DEFAULT_PERIOD_NANOS);
    assert!(timer.get_ready());
    timer.unready();
    timer.advance(DEFAULT_PERIOD_NANOS);
    assert!(!timer.get_ready());
}

#[test]
fn update_reads_the_clock() {
    let mut timer = Timer::new();
    timer.unready();
    timer.update();
    assert_eq!(timer.get_ready(), timer.get_delta() > 0);
}
