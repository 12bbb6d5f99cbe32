use codex_support::duration::Duration;

#[test]
fn durations_convert_between_units() {
    assert_eq!(Duration::from_secs(2), Duration::from_millis(2000));
    assert_eq!(Duration::new(1, 500_000_000), Duration::from_millis(1500));
    assert_eq!(Duration::new(1, 2_500_000_000), Duration::from_millis(3500));
    let d = Duration::new(7, 123_456_789);
    assert_eq!(7, d.as_secs());
    assert_eq!(123_456_789, d.subsec_nanos());
    assert_eq!(7123, d.as_millis());
    assert_eq!(0, Duration::zero().as_millis());
    let top = Duration::new(u64::MAX, 999_999_999);
    assert_eq!(u64::MAX, top.as_secs());
    assert_eq!(999_999_999, top.subsec_nanos());
}

#[test]
fn min_picks_the_shorter_duration() {
    let a = Duration::from_millis(5);
    let b = Duration::new(0, 4_999_999);
    assert_eq!(b, a.min(b));
    assert_eq!(b, b.min(a));
    assert_eq!(a, a.min(a));
    assert!(b < a);
}
