use ferrous::dsl::{Matcher, OptionMatcher};

#[test]
fn test_some_matches() {
    let test = OptionMatcher::SomeMatch;
    assert!(test.matches(&Some(1)));
}

#[test]
fn test_some_matches_fails() {
    let test = OptionMatcher::SomeMatch;
    assert!(!test.matches(&None as &Option<u8>));
}

#[test]
fn test_some_failure_msg() {
    let test = OptionMatcher::SomeMatch;
    let msg = test.failure_message(&None as &Option<Vec<usize>>);
    assert_eq!(msg, String::from("expected Some variant, found None"));
}

#[test]
fn test_some_negated_failure_msg() {
    let test = OptionMatcher::SomeMatch;
    let msg = test.negated_failure_message(&Some(1));
    assert_eq!(msg, String::from("expected None variant, found Some(1)"));
}

#[test]
fn test_none_matches() {
    let test = OptionMatcher::NoneMatch;
    assert!(test.matches(&None as &Option<OptionMatcher>));
}

#[test]
fn test_none_matches_fail() {
    let test = OptionMatcher::NoneMatch;
    assert!(!test.matches(&Some(1u8)));
}

#[test]
fn test_none_failure_msg() {
    let test = OptionMatcher::NoneMatch;
    let msg = test.failure_message(&Some(1u8));
    assert_eq!(msg, String::from("expected None variant, found Some(1)"));
}

#[test]
fn test_none_negated_failure_msg() {
    let test = OptionMatcher::NoneMatch;
    let msg = test.negated_failure_message(&None as &Option<u8>);
    assert_eq!(msg, String::from("expected Some variant, found None"));
}
