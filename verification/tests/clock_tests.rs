use artist_sync::clock::Instant;

#[test]
fn instants_are_ordered_by_seconds_then_nanoseconds() {
    let a = Instant { secs: 10, nanos: 5 };
    assert!(a.is_at_or_before(&Instant { secs: 10, nanos: 5 }));
    assert!(a.is_at_or_before(&Instant { secs: 10, nanos: 6 }));
    assert!(a.is_at_or_before(&Instant { secs: 11, nanos: 0 }));
    assert!(!a.is_at_or_before(&Instant { secs: 10, nanos: 4 }));
    assert!(!a.is_at_or_before(&Instant { secs: 9, nanos: 999_999_999 }));
    assert!(Instant { secs: -1, nanos: 0 }.is_at_or_before(&Instant { secs: 0, nanos: 0 }));
}

#[test]
fn plus_seconds_adds_whole_seconds() {
    let a = Instant { secs: 100, nanos: 7 };
    assert_eq!(a.plus_seconds(3600), Some(Instant { secs: 3700, nanos: 7 }));
    assert_eq!(a.plus_seconds(0), Some(a));
    assert_eq!(Instant { secs: -5, nanos: 0 }.plus_seconds(5), Some(Instant { secs: 0, nanos: 0 }));
}

#[test]
fn plus_seconds_stops_at_the_last_second() {
    let a = Instant { secs: i64::MAX - 1, nanos: 0 };
    assert_eq!(a.plus_seconds(1), Some(Instant { secs: i64::MAX, nanos: 0 }));
    assert_eq!(a.plus_seconds(2), None);
    assert_eq!(Instant { secs: 0, nanos: 0 }.plus_seconds(u64::MAX), None);
    assert_eq!(
        Instant { secs: i64::MIN, nanos: 0 }.plus_seconds(u64::MAX),
        Some(Instant { secs: i64::MAX, nanos: 0 })
    );
}

#[test]
fn to_text_writes_rfc_3339() {
    assert_eq!(
        Instant { secs: 1431648000, nanos: 0 }.to_text(),
        Some("2015-05-15T00:00:00+00:00".to_string())
    );
    assert_eq!(
        Instant { secs: 0, nanos: 500_000_000 }.to_text(),
        Some("1970-01-01T00:00:00.500+00:00".to_string())
    );
    assert_eq!(Instant { secs: i64::MAX, nanos: 0 }.to_text(), None);
}

#[test]
fn parse_reads_rfc_3339() {
    assert_eq!(Instant::parse("2015-05-15T00:00:00Z"), Some(Instant { secs: 1431648000, nanos: 0 }));
    assert_eq!(Instant::parse("2015-05-15T02:00:00+02:00"), Some(Instant { secs: 1431648000, nanos: 0 }));
    assert_eq!(
        Instant::parse("1970-01-01T00:00:01.000000001+00:00"),
        Some(Instant { secs: 1, nanos: 1 })
    );
    assert_eq!(Instant::parse("yesterday"), None);
    assert_eq!(Instant::parse(""), None);
}

#[test]
fn text_is_read_back() {
    for t in [
        Instant { secs: 0, nanos: 0 },
        Instant { secs: 1_700_000_000, nanos: 123_456_789 },
        Instant { secs: -86_400, nanos: 1 },
    ] {
        let text = t.to_text().unwrap();
        assert_eq!(Instant::parse(&text), Some(t));
    }
}
