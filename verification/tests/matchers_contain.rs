use ferrous::dsl::{Contain, Matcher};

#[test]
fn contain_test_equal_matches() {
    let test = 1u8;
    let actual = vec![1, 2, 3];
    let contain = Contain::new(&test);
    assert!(contain.matches(&actual));
}

#[test]
fn contain_test_equal_failure_msg() {
    let test = 4u8;
    let actual = vec![1, 2, 3];
    let contain = Contain::new(&test);
    let msg = contain.failure_message(&actual);
    assert_eq!(msg, String::from("expected to find 4 in iterator"));
}

#[test]
fn contain_test_equal_negated_failure_msg() {
    let test = 2u8;
    let actual = vec![1, 2, 3];
    let contain = Contain::new(&test);
    let msg = contain.negated_failure_message(&actual);
    assert_eq!(msg, String::from("expected not to find 2 in iterator"));
}

#[test]
fn contain_no_match_reports_false() {
    let test = 9u8;
    let actual = vec![1, 2, 3];
    let contain = Contain::new(&test);
    assert!(!contain.matches(&actual));
}

#[test]
fn contain_empty_vector_never_matches() {
    let test = 1u8;
    let actual: Vec<u8> = vec![];
    let contain = Contain::new(&test);
    assert!(!contain.matches(&actual));
}
