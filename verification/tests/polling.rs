use ferrous::dsl::{
    consistently, consistently_with_timeout, equal, eventually, eventually_with_timeout,
    AsyncAssertion,
};
use std::time::{Duration, Instant};

/// An operation that yields `before` until `after_ms` milliseconds have
/// passed, then yields `after` forever.
fn delayed_value(before: u64, after: u64, after_ms: u64) -> impl Fn() -> u64 {
    let start = Instant::now();
    move || {
        if start.elapsed() < Duration::from_millis(after_ms) {
            before
        } else {
            after
        }
    }
}

#[test]
fn test_eventual_succeeds_once_value_arrives() {
    let begin = Instant::now();
    let r = eventually_with_timeout(5000, delayed_value(0, 100, 300)).should(equal(&100u64));
    assert!(r.is_ok());
    assert!(begin.elapsed() < Duration::from_millis(4000));
}

#[test]
fn test_eventual_timeout_reports_last_observed_value() {
    let r = eventually_with_timeout(200, move || 7u8).should(equal(&9u8));
    assert_eq!(r.unwrap_err(), String::from("expected 9 to equal 7"));
}

#[test]
fn test_consistent_violation_fails_fast() {
    let begin = Instant::now();
    let r = consistently_with_timeout(5000, delayed_value(1, 0, 300)).should(equal(&1u64));
    assert_eq!(r.unwrap_err(), String::from("expected 1 to equal 0"));
    assert!(begin.elapsed() < Duration::from_millis(4000));
}

#[test]
fn test_consistent_survival_takes_the_whole_window() {
    let begin = Instant::now();
    let r = consistently_with_timeout(300, move || 1u8).should(equal(&1u8));
    assert!(r.is_ok());
    assert!(begin.elapsed() >= Duration::from_millis(300));
}

#[test]
fn test_eventual_negated_succeeds_once_value_changes() {
    let begin = Instant::now();
    let r = eventually_with_timeout(5000, delayed_value(0, 100, 300)).should_not(equal(&0u64));
    assert!(r.is_ok());
    assert!(begin.elapsed() < Duration::from_millis(4000));
}

#[test]
fn test_eventual_negated_timeout_reports_negated_message() {
    let r = eventually_with_timeout(200, move || 5u8).should_not(equal(&5u8));
    assert_eq!(r.unwrap_err(), String::from("expected 5 not to equal 5"));
}

#[test]
fn test_consistent_negated_violation_fails_fast() {
    let begin = Instant::now();
    let r = consistently_with_timeout(5000, delayed_value(0, 1, 300)).should_not(equal(&1u64));
    assert_eq!(r.unwrap_err(), String::from("expected 1 not to equal 1"));
    assert!(begin.elapsed() < Duration::from_millis(4000));
}

#[test]
fn test_consistent_negated_survival_takes_the_whole_window() {
    let begin = Instant::now();
    let r = consistently_with_timeout(300, move || 0u8).should_not(equal(&1u8));
    assert!(r.is_ok());
    assert!(begin.elapsed() >= Duration::from_millis(300));
}

#[test]
fn test_delayed_value_scenario() {
    let r = eventually(delayed_value(0, 100, 500)).should(equal(&100u64));
    assert!(r.is_ok());
    let r2 = consistently(delayed_value(0, 100, 500)).should(equal(&100u64));
    assert_eq!(r2.unwrap_err(), String::from("expected 100 to equal 0"));
}
