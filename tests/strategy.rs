use finito::{ExponentialBackoff, FibonacciBackoff, FixedInterval};

#[test]
fn fixed_interval_repeats_its_interval() {
    let mut s = FixedInterval::from_millis(100);
    for _ in 0..5 {
        assert_eq!(s.next_delay(), 100);
    }
}

#[test]
fn exponential_backoff_first_terms() {
    let mut s = ExponentialBackoff::new(10, 3);
    let terms: Vec<u64> = (0..5).map(|_| s.next_delay()).collect();
    assert_eq!(terms, vec![10, 30, 90, 270, 810]);
}

#[test]
fn exponential_backoff_factor_two() {
    let mut s = ExponentialBackoff::new(1, 2);
    let terms: Vec<u64> = (0..5).map(|_| s.next_delay()).collect();
    assert_eq!(terms, vec![1, 2, 4, 8, 16]);
}

#[test]
fn exponential_backoff_factor_one_is_fixed() {
    let mut s = ExponentialBackoff::new(7, 1);
    let terms: Vec<u64> = (0..4).map(|_| s.next_delay()).collect();
    assert_eq!(terms, vec![7, 7, 7, 7]);
}

#[test]
fn exponential_backoff_factor_zero() {
    let mut s = ExponentialBackoff::new(7, 0);
    let terms: Vec<u64> = (0..3).map(|_| s.next_delay()).collect();
    assert_eq!(terms, vec![7, 0, 0]);
}

#[test]
fn exponential_backoff_saturates() {
    let mut s = ExponentialBackoff::new(u64::MAX / 2, 3);
    assert_eq!(s.next_delay(), u64::MAX / 2);
    for _ in 0..5 {
        assert_eq!(s.next_delay(), u64::MAX);
    }
}

#[test]
fn exponential_backoff_saturates_later() {
    let mut s = ExponentialBackoff::new(1 << 60, 2);
    assert_eq!(s.next_delay(), 1 << 60);
    assert_eq!(s.next_delay(), 1 << 61);
    assert_eq!(s.next_delay(), 1 << 62);
    assert_eq!(s.next_delay(), 1 << 63);
    assert_eq!(s.next_delay(), u64::MAX);
    assert_eq!(s.next_delay(), u64::MAX);
}

#[test]
fn fibonacci_backoff_first_terms() {
    let mut s = FibonacciBackoff::from_millis(10);
    let terms: Vec<u64> = (0..5).map(|_| s.next_delay()).collect();
    assert_eq!(terms, vec![10, 10, 20, 30, 50]);
}

#[test]
fn fibonacci_backoff_unit_base() {
    let mut s = FibonacciBackoff::from_millis(1);
    let terms: Vec<u64> = (0..8).map(|_| s.next_delay()).collect();
    assert_eq!(terms, vec![1, 1, 2, 3, 5, 8, 13, 21]);
}

#[test]
fn fibonacci_backoff_saturates() {
    let mut s = FibonacciBackoff::from_millis(u64::MAX / 2);
    assert_eq!(s.next_delay(), u64::MAX / 2);
    assert_eq!(s.next_delay(), u64::MAX / 2);
    assert_eq!(s.next_delay(), u64::MAX - 1);
    for _ in 0..5 {
        assert_eq!(s.next_delay(), u64::MAX);
    }
}
