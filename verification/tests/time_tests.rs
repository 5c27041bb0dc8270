use ml_feed::time::{
    format_timestamp, to_rfc3339, to_rfc3339_did_systemtime, to_system_time, SystemTime, Timestamp,
    MAX_CALENDAR_SECS, MIN_CALENDAR_SECS,
};

#[test]
fn to_system_time_carries_whole_seconds() {
    assert_eq!(to_system_time(0, 0), Timestamp { secs: 0, nanos: 0 });
    assert_eq!(to_system_time(999_999_999, 5), Timestamp { secs: 5, nanos: 999_999_999 });
    assert_eq!(to_system_time(1_000_000_000, 5), Timestamp { secs: 6, nanos: 0 });
    assert_eq!(to_system_time(u32::MAX, 10), Timestamp { secs: 14, nanos: 294_967_295 });
}

#[test]
fn to_system_time_agrees_with_std() {
    let expected = std::time::UNIX_EPOCH + std::time::Duration::new(1_700_000_000, 3_500_000_001);
    let since = expected.duration_since(std::time::UNIX_EPOCH).unwrap();
    let ours = to_system_time(3_500_000_001, 1_700_000_000);
    assert_eq!(ours.secs, since.as_secs() as i64);
    assert_eq!(ours.nanos, since.subsec_nanos());
}

#[test]
fn to_rfc3339_writes_the_epoch() {
    assert_eq!(to_rfc3339(Timestamp { secs: 0, nanos: 0 }), "1970-01-01T00:00:00+00:00");
}

#[test]
fn to_rfc3339_writes_fractions_as_needed() {
    assert_eq!(
        to_rfc3339(Timestamp { secs: 1_431_648_000, nanos: 0 }),
        "2015-05-15T00:00:00+00:00"
    );
    assert_eq!(
        to_rfc3339(Timestamp { secs: 1_431_648_000, nanos: 500_000_000 }),
        "2015-05-15T00:00:00.500+00:00"
    );
    assert_eq!(
        to_rfc3339(Timestamp { secs: 1_431_648_000, nanos: 1 }),
        "2015-05-15T00:00:00.000000001+00:00"
    );
    assert_eq!(to_rfc3339(Timestamp { secs: -1, nanos: 0 }), "1969-12-31T23:59:59+00:00");
}

#[test]
fn to_rfc3339_reaches_both_ends_of_the_calendar() {
    assert_eq!(
        to_rfc3339(Timestamp { secs: MAX_CALENDAR_SECS, nanos: 999_999_999 }),
        "+262142-12-31T23:59:59.999999999+00:00"
    );
    assert_eq!(
        to_rfc3339(Timestamp { secs: MIN_CALENDAR_SECS, nanos: 0 }),
        "-262143-01-01T00:00:00+00:00"
    );
}

#[test]
fn to_rfc3339_did_systemtime_carries_nanoseconds() {
    let time = SystemTime { nanos_since_epoch: 1_500_000_000, secs_since_epoch: 1_431_648_000 };
    assert_eq!(to_rfc3339_did_systemtime(&time), "2015-05-15T00:00:01.500+00:00");
}

#[test]
fn format_timestamp_writes_whole_seconds_with_six_zeros() {
    assert_eq!(
        format_timestamp(Timestamp { secs: 1_431_648_000, nanos: 999_999_999 }),
        "2015-05-15 00:00:00.000000+00:00"
    );
    assert_eq!(
        format_timestamp(Timestamp { secs: 0, nanos: 0 }),
        "1970-01-01 00:00:00.000000+00:00"
    );
}

#[test]
fn format_timestamp_falls_back_to_the_epoch() {
    let epoch = "1970-01-01 00:00:00.000000+00:00";
    assert_eq!(format_timestamp(Timestamp { secs: -5, nanos: 0 }), epoch);
    assert_eq!(format_timestamp(Timestamp { secs: MAX_CALENDAR_SECS + 1, nanos: 0 }), epoch);
    assert_eq!(format_timestamp(Timestamp { secs: i64::MAX, nanos: 0 }), epoch);
    assert_ne!(format_timestamp(Timestamp { secs: MAX_CALENDAR_SECS, nanos: 0 }), epoch);
}
