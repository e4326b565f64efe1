use o11y::duration::Duration;

#[test]
fn from_secs_has_no_nanoseconds() {
    let d = Duration::from_secs(30);
    assert_eq!(d.as_secs(), 30);
    assert_eq!(d.subsec_nanos(), 0);
    assert!(!d.is_zero());
    assert!(Duration::from_secs(0).is_zero());
}

#[test]
fn new_refuses_a_full_second_of_nanoseconds() {
    let d = Duration::new(1, 999_999_999).unwrap();
    assert_eq!(d.as_secs(), 1);
    assert_eq!(d.subsec_nanos(), 999_999_999);
    assert!(Duration::new(1, 1_000_000_000).is_none());
    assert!(Duration::new(0, 0).unwrap().is_zero());
    assert!(!Duration::new(0, 1).unwrap().is_zero());
    assert_eq!(Duration::new(7, 0).unwrap(), Duration::from_secs(7));
}
