use ferrous::dsl::{equal, expect, Assertion, Async, AsyncAssertion, AsyncType};

#[derive(Debug, Clone, Eq, PartialEq)]
enum TestEnum {
    Pass,
    Fail,
}

#[derive(Debug, PartialEq)]
struct Test(usize);

#[test]
fn assertions_test_expect_to() {
    let actual = 1;
    let r = expect(&actual).to(equal(&1));
    assert!(r.is_ok());
}

#[test]
fn assertions_test_expect_not_to() {
    let actual = 2;
    let r = expect(&actual).not_to(equal(&1));
    assert!(r.is_ok());
}

#[test]
fn assertions_test_expect_to_custom() {
    let actual = TestEnum::Pass;
    let r = expect(&actual).to(equal(&TestEnum::Pass));
    assert!(r.is_ok());
}

#[test]
fn assertions_test_expect_to_custom_fails() {
    let actual = TestEnum::Fail;
    let r = expect(&actual).to(equal(&TestEnum::Pass));
    assert_eq!(r.unwrap_err(), String::from("expected Pass to equal Fail"));
}

#[test]
fn test_consistently() {
    let timeout_ms = 1000;
    let assertion = Async::new(AsyncType::Consistent, timeout_ms, move || Test(100));
    let r = assertion.should(equal(&Test(100)));
    assert!(r.is_ok());
}

#[test]
fn test_consistently_negated() {
    let timeout_ms = 1000;
    let assertion = Async::new(AsyncType::Consistent, timeout_ms, move || Test(100));
    let r = assertion.should_not(equal(&Test(0)));
    assert!(r.is_ok());
}

#[test]
fn test_eventually_timeout_reports_failure_message() {
    let timeout_ms = 200;
    let assertion = Async::new(AsyncType::Eventual, timeout_ms, move || Test(0));
    let r = assertion.should(equal(&Test(100)));
    assert_eq!(r.unwrap_err(), String::from("expected Test(100) to equal Test(0)"));
}

#[test]
fn test_eventually_negated_timeout_reports_negated_message() {
    let timeout_ms = 200;
    let assertion = Async::new(AsyncType::Eventual, timeout_ms, move || Test(0));
    let r = assertion.should_not(equal(&Test(0)));
    assert_eq!(r.unwrap_err(), String::from("expected Test(0) not to equal Test(0)"));
}

#[test]
fn test_consistently_fail_reports_failure_message() {
    let timeout_ms = 5000;
    let start = std::time::Instant::now();
    let assertion = Async::new(AsyncType::Consistent, timeout_ms, move || {
        if start.elapsed() < std::time::Duration::from_millis(300) {
            Test(100)
        } else {
            Test(0)
        }
    });
    let begin = std::time::Instant::now();
    let r = assertion.should(equal(&Test(100)));
    assert_eq!(r.unwrap_err(), String::from("expected Test(100) to equal Test(0)"));
    assert!(begin.elapsed() < std::time::Duration::from_millis(4000));
}

#[test]
fn test_consistently_negated_fail_reports_negated_message() {
    let timeout_ms = 5000;
    let start = std::time::Instant::now();
    let assertion = Async::new(AsyncType::Consistent, timeout_ms, move || {
        if start.elapsed() < std::time::Duration::from_millis(300) {
            Test(100)
        } else {
            Test(0)
        }
    });
    let begin = std::time::Instant::now();
    let r = assertion.should_not(equal(&Test(0)));
    assert_eq!(r.unwrap_err(), String::from("expected Test(0) not to equal Test(0)"));
    assert!(begin.elapsed() < std::time::Duration::from_millis(4000));
}
