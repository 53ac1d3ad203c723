use rust_vm::clock::Timestamp;

#[test]
fn an_instant_is_written_as_rfc3339_in_utc() {
    let instant = Timestamp::from_unix(1_700_000_000, 0).unwrap();
    assert_eq!(instant.to_rfc3339(), "2023-11-14T22:13:20+00:00");
    assert_eq!(Timestamp::from_unix(0, 0).unwrap().to_rfc3339(), "1970-01-01T00:00:00+00:00");
}

#[test]
fn fractions_of_a_second_are_written_when_there_are_any() {
    let millis = Timestamp::from_unix(1_700_000_000, 500_000_000).unwrap();
    assert_eq!(millis.to_rfc3339(), "2023-11-14T22:13:20.500+00:00");
    let nanos = Timestamp::from_unix(1_700_000_000, 1).unwrap();
    assert_eq!(nanos.to_rfc3339(), "2023-11-14T22:13:20.000000001+00:00");
}

#[test]
fn the_calendar_date_is_day_month_year() {
    let instant = Timestamp::from_unix(1_700_000_000, 0).unwrap();
    assert_eq!(instant.to_calendar_date(), "14/11/2023");
    assert_eq!(Timestamp::from_unix(0, 0).unwrap().to_calendar_date(), "01/01/1970");
}

#[test]
fn an_instant_that_has_no_date_is_refused() {
    assert!(Timestamp::from_unix(i64::MAX, 0).is_none());
    assert!(Timestamp::from_unix(i64::MIN, 0).is_none());
    assert!(Timestamp::from_unix(0, 2_000_000_000).is_none());
}

#[test]
fn an_instant_keeps_its_seconds_and_nanoseconds() {
    let instant = Timestamp::from_unix(-5, 17).unwrap();
    assert_eq!(instant.unix_seconds(), -5);
    assert_eq!(instant.subsec_nanos(), 17);
}

#[test]
fn instants_are_ordered_by_seconds_then_nanoseconds() {
    let early = Timestamp::from_unix(10, 900).unwrap();
    let late = Timestamp::from_unix(11, 0).unwrap();
    let later = Timestamp::from_unix(11, 1).unwrap();
    assert!(late.is_at_or_after(&early));
    assert!(!early.is_at_or_after(&late));
    assert!(later.is_at_or_after(&late));
    assert!(!late.is_at_or_after(&later));
    assert!(late.is_at_or_after(&late));
    assert_eq!(early.latest(late).unix_seconds(), 11);
    assert_eq!(late.latest(early).unix_seconds(), 11);
    assert_eq!(late.latest(later).subsec_nanos(), 1);
}

#[test]
fn the_clock_reads_an_instant_of_this_century() {
    let first = Timestamp::now();
    let second = Timestamp::now();
    assert!(first.unix_seconds() > 1_600_000_000);
    assert!(first.subsec_nanos() < 2_000_000_000);
    assert!(second.unix_seconds() >= first.unix_seconds() - 1);
    assert!(first.to_rfc3339().starts_with("20"));
    assert!(first.to_rfc3339().ends_with("+00:00"));
}
