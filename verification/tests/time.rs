use forum_backend::time::Timestamp;

#[test]
fn instants_are_written_as_rfc_3339() {
    assert_eq!(Timestamp::new(0, 0).unwrap().to_rfc3339(), "1970-01-01T00:00:00+00:00");
    assert_eq!(Timestamp::new(1431648000, 0).unwrap().to_rfc3339(), "2015-05-15T00:00:00+00:00");
    assert_eq!(
        Timestamp::new(1712750400, 500_000_000).unwrap().to_rfc3339(),
        "2024-04-10T12:00:00.500+00:00"
    );
    assert_eq!(Timestamp::new(-1, 0).unwrap().to_rfc3339(), "1969-12-31T23:59:59+00:00");
}

#[test]
fn instants_keep_their_parts() {
    let at = Timestamp::new(1712750400, 123).unwrap();
    assert_eq!(at.seconds(), 1712750400);
    assert_eq!(at.nanos(), 123);
}

#[test]
fn instants_off_the_calendar_are_refused() {
    assert_eq!(Timestamp::new(i64::MAX, 0), None);
    assert_eq!(Timestamp::new(i64::MIN, 0), None);
    assert_eq!(Timestamp::new(0, 2_000_000_000), None);
    assert_eq!(Timestamp::new(0, 1_500_000_000), None);
}
