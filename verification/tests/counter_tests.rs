use shared_counter::counter::SharedCounter;
use shared_counter::data_source::{
    read_copy_report, read_data_source, write_data_source, ReadReport, STATUS_BAD_INTERNAL_ERROR,
    STATUS_GOOD,
};
use shared_counter::shutdown::ShutdownFlag;
use shared_counter::ticker::{run_ticks, ticker_step, TickerAction};

#[test]
fn fresh_counter_reads_zero() {
    let c = SharedCounter::new();
    assert_eq!(c.read(), 0);
}

#[test]
fn n_ticks_count_exactly() {
    let mut c = SharedCounter::new();
    for expected in 1..=20 {
        c.increment();
        assert_eq!(c.read(), expected);
    }
}

#[test]
fn reads_are_non_decreasing_over_ticks() {
    let mut c = SharedCounter::with_value(5);
    let mut last = c.read();
    for _ in 0..10 {
        c.increment();
        let now = c.read();
        assert!(now >= last);
        last = now;
    }
}

#[test]
fn increment_wraps_at_max() {
    let mut c = SharedCounter::with_value(i32::MAX);
    c.increment();
    assert_eq!(c.read(), i32::MIN);
    c.increment();
    assert_eq!(c.read(), i32::MIN + 1);
}

#[test]
fn read_does_not_mutate() {
    let c = SharedCounter::with_value(41);
    assert_eq!(c.read(), 41);
    assert_eq!(c.read(), 41);
    assert_eq!(read_data_source(&c), 41);
    assert_eq!(c.read(), 41);
}

#[test]
fn copy_success_reports_good_without_diagnostic() {
    let r: ReadReport = read_copy_report(STATUS_GOOD);
    assert_eq!(r.status, STATUS_GOOD);
    assert!(!r.diagnostic);
}

#[test]
fn copy_failure_reports_its_own_code_with_diagnostic() {
    let failure: u32 = 0x8003_0000;
    let r = read_copy_report(failure);
    assert_eq!(r.status, failure);
    assert!(r.diagnostic);
}

#[test]
fn write_is_always_rejected_and_counter_unchanged() {
    let mut c = SharedCounter::with_value(7);
    let s = write_data_source(&mut c, 99);
    assert_eq!(s, STATUS_BAD_INTERNAL_ERROR);
    assert_eq!(c.read(), 7);
    let s2 = write_data_source(&mut c, -1);
    assert_eq!(s2, STATUS_BAD_INTERNAL_ERROR);
    assert_eq!(c.read(), 7);
}

#[test]
fn shutdown_flag_starts_running_and_clears() {
    let mut f = ShutdownFlag::new();
    assert!(f.check());
    f.request_shutdown();
    assert!(!f.check());
}

#[test]
fn second_shutdown_request_is_a_no_op() {
    let mut f = ShutdownFlag::new();
    f.request_shutdown();
    assert!(!f.check());
    f.request_shutdown();
    assert!(!f.check());
}

#[test]
fn ticker_step_ticks_while_running() {
    let mut c = SharedCounter::new();
    let a = ticker_step(true, &mut c);
    assert!(a == TickerAction::Tick);
    assert_eq!(c.read(), 1);
}

#[test]
fn ticker_step_stops_without_touching_counter() {
    let mut c = SharedCounter::with_value(9);
    let a = ticker_step(false, &mut c);
    assert!(a == TickerAction::Stop);
    assert_eq!(c.read(), 9);
}

#[test]
fn run_stops_at_first_cleared_observation() {
    let mut c = SharedCounter::new();
    run_ticks(&mut c, &vec![true, false, true, true]);
    assert_eq!(c.read(), 1);
}

#[test]
fn run_over_no_observations_changes_nothing() {
    let mut c = SharedCounter::with_value(3);
    run_ticks(&mut c, &vec![]);
    assert_eq!(c.read(), 3);
}

#[test]
fn at_most_one_increment_after_flag_clears() {
    let mut c = SharedCounter::new();
    run_ticks(&mut c, &vec![true, true, false, false, false]);
    assert_eq!(c.read(), 2);
}

#[test]
fn end_to_end_three_and_a_half_intervals() {
    let mut c = SharedCounter::new();
    run_ticks(&mut c, &vec![true, true, true, false]);
    assert_eq!(read_data_source(&c), 3);
    run_ticks(&mut c, &vec![false, false, false, false]);
    assert_eq!(read_data_source(&c), 3);
    assert_eq!(read_data_source(&c), 3);
}
