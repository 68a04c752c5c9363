use ferrous::dsl::{Equals, Matcher};

#[test]
fn equals_test_equal_matches() {
    let test = 1;
    let equals = Equals::new(&test);
    assert!(equals.matches(&1));
}

#[test]
fn equals_test_equal_failure_msg() {
    let test = 1;
    let equals = Equals::new(&test);
    let msg = equals.failure_message(&2);
    assert_eq!(msg, String::from("expected 1 to equal 2"));
}

#[test]
fn equals_test_equal_negated_failure_msg() {
    let test = 1;
    let equals = Equals::new(&test);
    let msg = equals.negated_failure_message(&1);
    assert_eq!(msg, String::from("expected 1 not to equal 1"));
}
