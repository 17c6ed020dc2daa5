use iphoto_catalog::error::{DecodeError, FieldName};
use iphoto_catalog::time::{timestamp_from_interval, TimeInterval, FORMAT_EPOCH_OFFSET_SECONDS};

const FIELD: FieldName = FieldName::DateAsTimerIntervalGmt;

#[test]
fn format_epoch_maps_to_2001() {
    let iv = TimeInterval { whole: 0, frac_nanos: 0 };
    let ts = timestamp_from_interval(iv, FIELD).unwrap();
    assert_eq!(ts.unix_seconds, 978307200);
    assert_eq!(ts.nanoseconds, 0);
}

#[test]
fn positive_interval_with_fraction() {
    // 86400.5 seconds after the format epoch: floor 86400, fraction 0.5.
    let iv = TimeInterval { whole: 86400, frac_nanos: 500_000_000 };
    let ts = timestamp_from_interval(iv, FIELD).unwrap();
    assert_eq!(ts.unix_seconds, 978307200 + 86400);
    assert_eq!(ts.nanoseconds, 500_000_000);
}

#[test]
fn pre_epoch_interval_keeps_nanoseconds_non_negative() {
    // -0.25 seconds: floor rounds toward negative infinity, so the floor is
    // -1 and the fractional part is +0.75.
    let iv = TimeInterval { whole: -1, frac_nanos: 750_000_000 };
    let ts = timestamp_from_interval(iv, FIELD).unwrap();
    assert_eq!(ts.unix_seconds, 978307199);
    assert_eq!(ts.nanoseconds, 750_000_000);
}

#[test]
fn deep_pre_epoch_interval() {
    let iv = TimeInterval { whole: -978307200, frac_nanos: 0 };
    let ts = timestamp_from_interval(iv, FIELD).unwrap();
    assert_eq!(ts.unix_seconds, 0);
    assert_eq!(ts.nanoseconds, 0);
}

#[test]
fn second_count_overflow_is_reported() {
    let iv = TimeInterval { whole: i64::MAX - FORMAT_EPOCH_OFFSET_SECONDS + 1, frac_nanos: 0 };
    assert_eq!(timestamp_from_interval(iv, FIELD), Err(DecodeError::Overflow(FIELD)));
}

#[test]
fn largest_representable_interval_converts() {
    let iv = TimeInterval { whole: i64::MAX - FORMAT_EPOCH_OFFSET_SECONDS, frac_nanos: 999_999_999 };
    let ts = timestamp_from_interval(iv, FIELD).unwrap();
    assert_eq!(ts.unix_seconds, i64::MAX);
    assert_eq!(ts.nanoseconds, 999_999_999);
}

#[test]
fn fraction_of_a_whole_second_is_rejected() {
    let iv = TimeInterval { whole: 0, frac_nanos: 1_000_000_000 };
    assert_eq!(timestamp_from_interval(iv, FIELD), Err(DecodeError::Overflow(FIELD)));
}

#[test]
fn converted_timestamp_matches_filetime() {
    let iv = TimeInterval { whole: 0, frac_nanos: 0 };
    let ts = timestamp_from_interval(iv, FIELD).unwrap();
    let ft = filetime::FileTime::from_unix_time(ts.unix_seconds, ts.nanoseconds);
    assert_eq!(ft.unix_seconds(), 978307200);
    assert_eq!(ft.nanoseconds(), 0);
}
