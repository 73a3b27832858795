use expectation::check::{
    almost_equal_check, contains_check, contains_in_order_check, ordering_check,
};
use expectation::complex_expr::OrderingToken;

#[test]
fn ordering_check_decides_each_relation() {
    assert!(ordering_check(&OrderingToken::Lt, 1, 2));
    assert!(!ordering_check(&OrderingToken::Lt, 2, 2));

    assert!(ordering_check(&OrderingToken::Eq, 2, 2));
    assert!(!ordering_check(&OrderingToken::Eq, 1, 2));

    assert!(ordering_check(&OrderingToken::Gt, 3, 2));
    assert!(!ordering_check(&OrderingToken::Gt, 2, 2));

    assert!(ordering_check(&OrderingToken::Leq, 2, 2));
    assert!(!ordering_check(&OrderingToken::Leq, 3, 2));

    assert!(ordering_check(&OrderingToken::Geq, 2, 2));
    assert!(!ordering_check(&OrderingToken::Geq, 1, 2));
}

#[test]
fn almost_equal_check_is_strict_at_the_tolerance() {
    assert!(almost_equal_check(10, 10, 1));
    assert!(!almost_equal_check(11, 10, 1));
    assert!(!almost_equal_check(9, 10, 1));
    assert!(almost_equal_check(9, 10, 2));
    assert!(!almost_equal_check(i64::MAX, i64::MIN, i64::MAX));
    assert!(almost_equal_check(i64::MAX, i64::MAX - 1, 2));
    assert!(!almost_equal_check(5, 5, 0));
}

#[test]
fn contains_check_finds_an_equal_element() {
    assert!(!contains_check(&vec![1, 2, 3], 5));
    assert!(contains_check(&vec![1, 5, 3], 5));
    assert!(!contains_check(&vec![], 5));
}

#[test]
fn contains_in_order_check_scans_contiguous_windows() {
    assert!(contains_in_order_check(&vec![1, 2, 3, 4], &vec![2, 3]));
    assert!(!contains_in_order_check(&vec![1, 3, 2, 4], &vec![2, 3]));
    assert!(contains_in_order_check(&vec![1, 2, 3], &vec![1, 2, 3]));
    assert!(!contains_in_order_check(&vec![1, 2, 3], &vec![3, 1]));
}

#[test]
fn contains_in_order_check_fails_cleanly_on_longer_subsequence() {
    assert!(!contains_in_order_check(&vec![1, 2], &vec![1, 2, 3]));
    assert!(!contains_in_order_check(&vec![], &vec![1]));
}

#[test]
fn contains_in_order_check_accepts_the_empty_subsequence() {
    assert!(contains_in_order_check(&vec![1, 2], &vec![]));
    assert!(contains_in_order_check(&vec![], &vec![]));
}
