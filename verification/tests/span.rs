use suite_runner::span::{Span, NANOS_PER_SEC};

#[test]
fn new_takes_a_subsecond_count_of_nanos() {
    let s = Span::new(2, 500_000_000).unwrap();
    assert_eq!(s.secs(), 2);
    assert_eq!(s.subsec_nanos(), 500_000_000);
    assert_eq!(s.as_nanos(), 2_500_000_000);
    assert!(Span::new(0, NANOS_PER_SEC - 1).is_some());
}

#[test]
fn new_refuses_a_second_or_more_of_nanos() {
    assert_eq!(Span::new(0, NANOS_PER_SEC), None);
    assert_eq!(Span::new(7, u32::MAX), None);
}

#[test]
fn from_secs_has_no_nanos() {
    let s = Span::from_secs(3);
    assert_eq!(s, Span::new(3, 0).unwrap());
    assert_eq!(s.as_nanos(), 3_000_000_000);
    assert_eq!(s.subsec_nanos(), 0);
}

#[test]
fn only_the_empty_span_is_zero() {
    assert!(Span::from_secs(0).is_zero());
    assert!(!Span::from_secs(1).is_zero());
    assert!(!Span::new(0, 1).unwrap().is_zero());
}

#[test]
fn checked_mul_of_whole_seconds() {
    let s = Span::from_secs(5);
    assert_eq!(s.checked_mul(3), Some(Span::from_secs(15)));
    assert_eq!(s.checked_mul(1), Some(s));
    assert_eq!(s.checked_mul(0), Some(Span::from_secs(0)));
}

#[test]
fn checked_mul_carries_nanos_into_seconds() {
    let s = Span::new(1, 500_000_000).unwrap();
    assert_eq!(s.checked_mul(2), Some(Span::from_secs(3)));
    assert_eq!(s.checked_mul(3), Some(Span::new(4, 500_000_000).unwrap()));
    let t = Span::new(0, 999_999_999).unwrap();
    assert_eq!(t.checked_mul(u64::MAX).unwrap().as_nanos(), 999_999_999u128 * u64::MAX as u128);
}

#[test]
fn checked_mul_stops_at_the_longest_span() {
    let longest = Span::new(u64::MAX, NANOS_PER_SEC - 1).unwrap();
    assert_eq!(longest.checked_mul(1), Some(longest));
    assert_eq!(longest.checked_mul(2), None);
    assert_eq!(Span::from_secs(u64::MAX).checked_mul(1), Some(Span::from_secs(u64::MAX)));
    assert_eq!(Span::from_secs(u64::MAX / 2 + 1).checked_mul(2), None);
    assert_eq!(Span::from_secs(1).checked_mul(u64::MAX), Some(Span::from_secs(u64::MAX)));
    assert_eq!(Span::new(1, 1).unwrap().checked_mul(u64::MAX), None);
}
