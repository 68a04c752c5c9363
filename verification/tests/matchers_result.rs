use ferrous::dsl::{Matcher, ResultMatcher};

#[test]
fn test_err_matches() {
    let test = ResultMatcher::ErrMatch;
    assert!(test.matches(&Err(1u8) as &Result<u8, u8>));
}

#[test]
fn test_err_matches_fails() {
    let test = ResultMatcher::ErrMatch;
    assert!(!test.matches(&Ok(9u8) as &Result<u8, u8>));
}

#[test]
fn test_err_failure_msg() {
    let test = ResultMatcher::ErrMatch;
    let msg = test.failure_message(&Ok(1u8) as &Result<u8, u8>);
    assert_eq!(msg, String::from("expected Err variant, found Ok(1)"));
}

#[test]
fn test_err_negated_failure_msg() {
    let test = ResultMatcher::ErrMatch;
    let msg = test.negated_failure_message(&Err(1u8) as &Result<u8, u8>);
    assert_eq!(msg, String::from("expected Ok variant, found Err(1)"));
}

#[test]
fn test_ok_matches() {
    let test = ResultMatcher::OkMatch;
    assert!(test.matches(&Ok(1u8) as &Result<u8, u8>));
}

#[test]
fn test_ok_matches_fail() {
    let test = ResultMatcher::OkMatch;
    assert!(!test.matches(&Err(1u8) as &Result<u8, u8>));
}

#[test]
fn test_ok_failure_msg() {
    let test = ResultMatcher::OkMatch;
    let msg = test.failure_message(&Err(1u8) as &Result<u8, u8>);
    assert_eq!(msg, String::from("expected Ok variant, found Err(1)"));
}

#[test]
fn test_ok_negated_failure_msg() {
    let test = ResultMatcher::OkMatch;
    let msg = test.negated_failure_message(&Ok(1u8) as &Result<u8, u8>);
    assert_eq!(msg, String::from("expected Err variant, found Ok(1)"));
}
