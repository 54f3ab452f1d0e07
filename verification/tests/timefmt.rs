use webdav_adapter::time::{
    systemtime_to_httpdate, systemtime_to_localtime, systemtime_to_rfc3339, OffsetError, UtcOffset,
};

#[test]
fn offset_new_accepts_ranges_and_rejects_outside() {
    assert!(UtcOffset::new(1, 30, 0).is_ok());
    assert!(UtcOffset::new(-25, -59, -59).is_ok());
    assert!(UtcOffset::new(25, 59, 59).is_ok());
    assert_eq!(UtcOffset::new(26, 0, 0), Err(OffsetError::OutOfRange));
    assert_eq!(UtcOffset::new(0, 60, 0), Err(OffsetError::OutOfRange));
    assert_eq!(UtcOffset::new(0, 0, -60), Err(OffsetError::OutOfRange));
}

#[test]
fn offset_components_normalized_to_matching_signs() {
    let o = UtcOffset::new(-1, 30, 30).unwrap();
    assert_eq!((o.hours, o.minutes, o.seconds), (-1, -30, -30));
    let o = UtcOffset::new(0, -30, 30).unwrap();
    assert_eq!((o.hours, o.minutes, o.seconds), (0, -30, -30));
    let o = UtcOffset::new(2, 15, 10).unwrap();
    assert_eq!((o.hours, o.minutes, o.seconds), (2, 15, 10));
}

#[test]
fn offset_normalization_matches_the_date_crate() {
    for (h, m, s) in [(-1i8, 30i8, 30i8), (1, -30, 5), (0, -30, 30), (0, 0, -5), (3, 4, 5)] {
        let ours = UtcOffset::new(h, m, s).unwrap();
        let theirs = time::UtcOffset::from_hms(h, m, s).unwrap().as_hms();
        assert_eq!((ours.hours, ours.minutes, ours.seconds), theirs);
    }
}

#[test]
fn offset_total_seconds() {
    let o = UtcOffset::new(1, 30, 0).unwrap();
    assert_eq!(o.total_seconds(), 5400);
    let o = UtcOffset::new(-2, 0, -30).unwrap();
    assert_eq!(o.total_seconds(), -7230);
}

#[test]
fn rfc3339_rendering() {
    assert_eq!(systemtime_to_rfc3339(851013597), "1996-12-19T16:39:57Z");
    assert_eq!(systemtime_to_rfc3339(0), "1970-01-01T00:00:00Z");
}

#[test]
fn localtime_rendering_applies_offset() {
    let plus_one = UtcOffset::new(1, 0, 0).unwrap();
    assert_eq!(systemtime_to_localtime(851013597, Some(plus_one)), "1996-12-19 17:39");
    assert_eq!(systemtime_to_localtime(851013597, None), "1996-12-19 16:39");
}

#[test]
fn httpdate_rendering() {
    assert_eq!(systemtime_to_httpdate(784111777), "Sun, 06 Nov 1994 08:49:37 GMT");
}
