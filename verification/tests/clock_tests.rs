use document_generation_service::clock::{Timestamp, MAX_SECS, MIN_SECS};

#[test]
fn epoch_in_every_form() {
    let t = Timestamp::from_parts(0, 0).unwrap();
    assert_eq!(t.file_stamp(), "19700101_000000");
    assert_eq!(t.iso_date(), "1970-01-01");
    assert_eq!(t.long_date(), "January 01, 1970");
    assert_eq!(t.to_rfc3339(), "1970-01-01T00:00:00+00:00");
    assert_eq!(t.secs(), 0);
    assert_eq!(t.nanos(), 0);
}

#[test]
fn a_known_instant_in_every_form() {
    // 2015-05-15 00:00:00 UTC
    let t = Timestamp::from_parts(1431648000, 0).unwrap();
    assert_eq!(t.file_stamp(), "20150515_000000");
    assert_eq!(t.iso_date(), "2015-05-15");
    assert_eq!(t.long_date(), "May 15, 2015");
    assert_eq!(t.to_rfc3339(), "2015-05-15T00:00:00+00:00");
    let later = Timestamp::from_parts(1431648000 + 86399, 500_000_000).unwrap();
    assert_eq!(later.file_stamp(), "20150515_235959");
    assert_eq!(later.to_rfc3339(), "2015-05-15T23:59:59.500+00:00");
}

#[test]
fn instants_before_the_epoch() {
    let t = Timestamp::from_parts(-1, 0).unwrap();
    assert_eq!(t.file_stamp(), "19691231_235959");
    assert_eq!(t.iso_date(), "1969-12-31");
}

#[test]
fn unrepresentable_instants_are_refused() {
    assert!(Timestamp::from_parts(i64::MAX, 0).is_none());
    assert!(Timestamp::from_parts(i64::MIN, 0).is_none());
    assert!(Timestamp::from_parts(0, 2_000_000_000).is_none());
    assert!(Timestamp::from_parts(0, 1_000_000_000).is_none());
    assert!(Timestamp::from_parts(59, 1_000_000_000).is_some());
}

#[test]
fn later_than_orders_by_seconds_then_nanoseconds() {
    let a = Timestamp::from_parts(10, 5).unwrap();
    let b = Timestamp::from_parts(10, 6).unwrap();
    let c = Timestamp::from_parts(11, 0).unwrap();
    assert!(b.later_than(&a));
    assert!(c.later_than(&b));
    assert!(!a.later_than(&b));
    assert!(!a.later_than(&a));
}

#[test]
fn now_is_after_this_library_was_written() {
    let now = Timestamp::now();
    let then = Timestamp::from_parts(1_700_000_000, 0).unwrap();
    assert!(now.later_than(&then));
    assert_eq!(now.file_stamp().len(), 15);
}

#[test]
fn representable_instants_are_those_the_calendar_accepts() {
    let seconds = [
        MIN_SECS - 1,
        MIN_SECS,
        MIN_SECS + 59,
        -86_401,
        -86_400,
        -61,
        -60,
        -2,
        -1,
        0,
        1,
        58,
        59,
        60,
        119,
        86_399,
        1_431_648_000,
        MAX_SECS - 60,
        MAX_SECS - 1,
        MAX_SECS,
        MAX_SECS + 1,
        i64::MIN,
        i64::MAX,
    ];
    let nanos = [0, 1, 999_999_999, 1_000_000_000, 1_999_999_999, 2_000_000_000, u32::MAX];
    for secs in seconds {
        for nano in nanos {
            let theirs = chrono::DateTime::from_timestamp(secs, nano);
            let ours = Timestamp::from_parts(secs, nano);
            assert_eq!(ours.is_some(), theirs.is_some(), "{} s {} ns", secs, nano);
            if let (Some(ours), Some(theirs)) = (ours, theirs) {
                assert_eq!(ours.to_rfc3339(), theirs.to_rfc3339());
                assert_eq!(ours.file_stamp(), theirs.format("%Y%m%d_%H%M%S").to_string());
                assert_eq!(ours.iso_date(), theirs.format("%Y-%m-%d").to_string());
                assert_eq!(ours.long_date(), theirs.format("%B %d, %Y").to_string());
            }
        }
    }
}

#[test]
fn the_bounds_are_the_first_and_last_second_of_the_calendar() {
    assert_eq!(MIN_SECS, -8_334_601_228_800);
    assert_eq!(MAX_SECS, 8_210_266_876_799);
    assert_eq!(Timestamp::from_parts(MIN_SECS, 0).unwrap().iso_date(), "-262143-01-01");
    assert_eq!(Timestamp::from_parts(MAX_SECS, 0).unwrap().iso_date(), "+262142-12-31");
    assert_eq!(Timestamp::from_parts(MAX_SECS, 0).unwrap().file_stamp(), "+2621421231_235959");
}
