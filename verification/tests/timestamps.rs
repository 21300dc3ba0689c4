use chrono::format::ParseErrorKind;
use chrono::{DateTime, Utc};
use memd::time::{ParseFailure, Timestamp, TimestampError};

#[test]
fn parse_reads_rfc3339_as_chrono_does() {
    let text = "2024-03-01T12:30:45.123456789+00:00";
    let t = Timestamp::parse(text).unwrap();
    let c: DateTime<Utc> = text.parse().unwrap();
    assert_eq!(t.timestamp(), c.timestamp());
    assert_eq!(t.timestamp_subsec_nanos(), c.timestamp_subsec_nanos());
    assert_eq!(t.to_rfc3339(), c.to_rfc3339());
}

#[test]
fn parse_moves_offsets_to_utc() {
    let t = Timestamp::parse("2024-03-01T14:30:45+02:00").unwrap();
    assert_eq!(t.to_rfc3339(), "2024-03-01T12:30:45+00:00");
    assert_eq!(t.timestamp(), 1_709_296_245);
    assert_eq!(t.timestamp_subsec_nanos(), 0);
}

#[test]
fn parse_refuses_other_text() {
    for text in ["", "yesterday", "2024-13-01T00:00:00Z", "2024-03-01"] {
        let r = Timestamp::parse(text);
        assert!(matches!(r, Err(TimestampError::Unparsable(_))), "{text:?}");
    }
}

#[test]
fn from_parts_formats_as_chrono_does() {
    let t = Timestamp::from_parts(1_431_648_000, 500).unwrap();
    let c = DateTime::from_timestamp(1_431_648_000, 500).unwrap();
    assert_eq!(t.to_rfc3339(), c.to_rfc3339());
    assert_eq!(t.to_rfc3339(), "2015-05-15T00:00:00.000000500+00:00");
    assert_eq!(t.timestamp(), 1_431_648_000);
    assert_eq!(t.timestamp_subsec_nanos(), 500);
}

#[test]
fn from_parts_refuses_what_chrono_cannot_represent() {
    assert!(Timestamp::from_parts(i64::MAX, 0).is_none());
    assert!(Timestamp::from_parts(0, 2_000_000_000).is_none());
    assert!(Timestamp::from_parts(0, 1_500_000_000).is_none());
    assert!(Timestamp::from_parts(59, 1_500_000_000).is_some());
}

#[test]
fn clone_keeps_the_instant() {
    let t = Timestamp::from_parts(12, 34).unwrap();
    let u = t.clone();
    assert_eq!(u.timestamp(), 12);
    assert_eq!(u.timestamp_subsec_nanos(), 34);
    assert_eq!(u.to_rfc3339(), t.to_rfc3339());
}

#[test]
fn timestamp_error_messages() {
    assert_eq!(TimestampError::OutOfRange.message(), "timestamp out of range");
    for text in ["", "yesterday", "2024-13-01T00:00:00Z", "2024-03-01T00:00:00Zx", "2024-02-30T00:00:00Z"] {
        let ours = match Timestamp::parse(text) {
            Err(e) => e.message(),
            Ok(_) => panic!("parsed {text:?}"),
        };
        let theirs = text.parse::<DateTime<Utc>>().unwrap_err().to_string();
        assert_eq!(ours, theirs, "{text:?}");
    }
}

#[test]
fn parse_reports_chrono_error_kinds() {
    let cases = [
        ("", ParseFailure::TooShort, ParseErrorKind::TooShort),
        ("yesterday", ParseFailure::Invalid, ParseErrorKind::Invalid),
        ("2024-03-01T00:00:00Zx", ParseFailure::TooLong, ParseErrorKind::TooLong),
    ];
    for (text, ours, theirs) in cases {
        assert_eq!(text.parse::<DateTime<Utc>>().unwrap_err().kind(), theirs);
        assert!(matches!(Timestamp::parse(text), Err(TimestampError::Unparsable(f)) if f == ours), "{text:?}");
    }
}

#[test]
fn parse_failure_messages_match_chrono() {
    assert_eq!(ParseFailure::OutOfRange.message(), "input is out of range");
    assert_eq!(ParseFailure::Impossible.message(), "no possible date and time matching input");
    assert_eq!(ParseFailure::NotEnough.message(), "input is not enough for unique date and time");
    assert_eq!(ParseFailure::Invalid.message(), "input contains invalid characters");
    assert_eq!(ParseFailure::TooShort.message(), "premature end of input");
    assert_eq!(ParseFailure::TooLong.message(), "trailing input");
    assert_eq!(ParseFailure::BadFormat.message(), "bad or unsupported format string");
}

#[test]
fn rfc3339_text_reads_back_as_the_same_instant() {
    let extremes = [DateTime::<Utc>::MIN_UTC, DateTime::<Utc>::MAX_UTC];
    let mut instants: Vec<(i64, u32)> = extremes
        .iter()
        .map(|d| (d.timestamp(), d.timestamp_subsec_nanos()))
        .collect();
    instants.extend([
        (0, 0),
        (-1, 999_999_999),
        (59, 1_500_000_000),
        (1_700_000_039, 1_000_000_000),
        (-62_167_219_200, 0),
        (-62_167_219_201, 1),
        (253_402_300_799, 999_999_999),
        (253_402_300_800, 5_000),
        (1_431_648_000, 120_000_000),
    ]);
    for (secs, nanos) in instants {
        let t = Timestamp::from_parts(secs, nanos).unwrap();
        let back = Timestamp::parse(&t.to_rfc3339()).unwrap();
        assert_eq!((back.timestamp(), back.timestamp_subsec_nanos()), (secs, nanos), "{}", t.to_rfc3339());
    }
}
