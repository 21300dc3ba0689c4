//! Instants in UTC, held as seconds and nanoseconds since the Unix epoch
//! together with their RFC 3339 text as chrono writes it.

use chrono::format::ParseErrorKind;
use vstd::prelude::*;

verus! {

/// Why chrono refuses a date and time text: the kinds of chrono's
/// `ParseErrorKind`, with `Unclassified` for its hidden placeholder kind.
#[derive(Debug, Clone, Copy, PartialEq, Eq, Structural)]
pub enum ParseFailure {
    OutOfRange,
    Impossible,
    NotEnough,
    Invalid,
    TooShort,
    TooLong,
    BadFormat,
    Unclassified,
}

/// What chrono's `FromStr` for `DateTime<Utc>` makes of `text`: the instant's
/// whole seconds since the epoch and its sub-second nanoseconds, or the kind
/// of error with which chrono refuses the text.
pub uninterp spec fn rfc3339_parse(text: Seq<char>) -> Result<(i64, u32), ParseFailure>;

/// The text that chrono's `DateTime::to_rfc3339` writes for the instant
/// `secs` seconds and `nanos` nanoseconds after the epoch, or `None` where
/// `DateTime::from_timestamp` finds no such instant.
pub uninterp spec fn rfc3339_text(secs: i64, nanos: u32) -> Option<Seq<char>>;

/// Calls `str::parse::<chrono::DateTime<chrono::Utc>>` (chrono's `FromStr`),
/// takes the parsed instant apart with `timestamp` and
/// `timestamp_subsec_nanos`, and tells the error's `kind()` apart. Claims only
/// that the outcome is the one `rfc3339_parse` names for this text.
#[verifier::external_body]
fn parse_instant(text: &str) -> (res: Result<(i64, u32), ParseFailure>)
    ensures
        res == rfc3339_parse(text@),
{
    match text.parse::<chrono::DateTime<chrono::Utc>>() {
        Ok(t) => Ok((t.timestamp(), t.timestamp_subsec_nanos())),
        Err(e) => Err(match e.kind() {
            ParseErrorKind::OutOfRange => ParseFailure::OutOfRange,
            ParseErrorKind::Impossible => ParseFailure::Impossible,
            ParseErrorKind::NotEnough => ParseFailure::NotEnough,
            ParseErrorKind::Invalid => ParseFailure::Invalid,
            ParseErrorKind::TooShort => ParseFailure::TooShort,
            ParseErrorKind::TooLong => ParseFailure::TooLong,
            ParseErrorKind::BadFormat => ParseFailure::BadFormat,
            ParseErrorKind::__Nonexhaustive => ParseFailure::Unclassified,
        }),
    }
}

/// Calls chrono's `DateTime::to_rfc3339` on the instant that
/// `DateTime::from_timestamp(secs, nanos)` builds, and returns `None` where
/// `from_timestamp` does. Claims that the outcome is the one `rfc3339_text`
/// names for these arguments, and that chrono's `FromStr` reads the text back
/// as the same instant: `write_rfc3339` writes the date (with an explicit sign
/// for years outside 0..=9999, which the relaxed parser accepts), the time
/// with a leap second as second 60, the fraction and the `+00:00` offset.
#[verifier::external_body]
fn format_instant(secs: i64, nanos: u32) -> (res: Option<String>)
    ensures
        match res {
            Some(s) => rfc3339_text(secs, nanos) == Some(s@) && rfc3339_parse(s@) == Ok::<
                (i64, u32),
                ParseFailure,
            >((secs, nanos)),
            None => rfc3339_text(secs, nanos) is None,
        },
{
    match chrono::DateTime::from_timestamp(secs, nanos) {
        Some(t) => Some(t.to_rfc3339()),
        None => None,
    }
}

/// The RFC 3339 text of an instant that chrono can represent.
pub open spec fn rfc3339_of(t: (i64, u32)) -> Seq<char> {
    match rfc3339_text(t.0, t.1) {
        Some(s) => s,
        None => Seq::empty(),
    }
}

/// chrono can represent the instant `t`, and reads its RFC 3339 text back as
/// `t`; every `Timestamp` is such an instant.
pub open spec fn reads_back(t: (i64, u32)) -> bool {
    &&& rfc3339_text(t.0, t.1) is Some
    &&& rfc3339_parse(rfc3339_of(t)) == Ok::<(i64, u32), ParseFailure>(t)
}

/// Why a text is not a timestamp.
#[derive(Debug, Clone, Copy, PartialEq, Eq, Structural)]
pub enum TimestampError {
    /// chrono does not read the text as an RFC 3339 date and time.
    Unparsable(ParseFailure),
    /// The text names an instant that chrono cannot build back from its parts.
    OutOfRange,
}

/// The words chrono's `Display` for `ParseError` uses for each kind; chrono
/// never builds the placeholder kind, and has no words for it.
pub open spec fn parse_failure_message(f: ParseFailure) -> Seq<char> {
    match f {
        ParseFailure::OutOfRange => "input is out of range"@,
        ParseFailure::Impossible => "no possible date and time matching input"@,
        ParseFailure::NotEnough => "input is not enough for unique date and time"@,
        ParseFailure::Invalid => "input contains invalid characters"@,
        ParseFailure::TooShort => "premature end of input"@,
        ParseFailure::TooLong => "trailing input"@,
        ParseFailure::BadFormat => "bad or unsupported format string"@,
        ParseFailure::Unclassified => "unclassified parse error"@,
    }
}

/// The message of each timestamp error.
pub open spec fn timestamp_message(e: TimestampError) -> Seq<char> {
    match e {
        TimestampError::Unparsable(f) => parse_failure_message(f),
        TimestampError::OutOfRange => "timestamp out of range"@,
    }
}

impl ParseFailure {
    /// The words chrono uses for this kind of parse error.
    pub fn message(&self) -> (m: String)
        ensures
            m@ == parse_failure_message(*self),
    {
        match self {
            ParseFailure::OutOfRange => "input is out of range".to_owned(),
            ParseFailure::Impossible => "no possible date and time matching input".to_owned(),
            ParseFailure::NotEnough => "input is not enough for unique date and time".to_owned(),
            ParseFailure::Invalid => "input contains invalid characters".to_owned(),
            ParseFailure::TooShort => "premature end of input".to_owned(),
            ParseFailure::TooLong => "trailing input".to_owned(),
            ParseFailure::BadFormat => "bad or unsupported format string".to_owned(),
            ParseFailure::Unclassified => "unclassified parse error".to_owned(),
        }
    }
}

impl TimestampError {
    /// The human-readable message of this error: chrono's own words for text
    /// it cannot read.
    pub fn message(&self) -> (m: String)
        ensures
            m@ == timestamp_message(*self),
    {
        match self {
            TimestampError::Unparsable(f) => f.message(),
            TimestampError::OutOfRange => "timestamp out of range".to_owned(),
        }
    }
}

/// An instant in UTC that chrono can represent.
#[derive(Debug)]
pub struct Timestamp {
    secs: i64,
    nanos: u32,
    text: String,
}

impl View for Timestamp {
    type V = (i64, u32);

    closed spec fn view(&self) -> (i64, u32) {
        (self.secs, self.nanos)
    }
}

impl Timestamp {
    #[verifier::type_invariant]
    spec fn wf(self) -> bool {
        &&& rfc3339_text(self.secs, self.nanos) == Some(self.text@)
        &&& rfc3339_parse(self.text@) == Ok::<(i64, u32), ParseFailure>((self.secs, self.nanos))
    }

    /// The instant `secs` seconds and `nanos` nanoseconds after the Unix
    /// epoch, where chrono can represent it.
    pub fn from_parts(secs: i64, nanos: u32) -> (r: Option<Timestamp>)
        ensures
            r is Some <==> rfc3339_text(secs, nanos) is Some,
            r matches Some(t) ==> t@ == (secs, nanos) && reads_back(t@),
    {
        match format_instant(secs, nanos) {
            Some(text) => Some(Timestamp { secs, nanos, text }),
            None => None,
        }
    }

    /// Reads an RFC 3339 date and time, as chrono accepts it.
    pub fn parse(text: &str) -> (r: Result<Timestamp, TimestampError>)
        ensures
            match rfc3339_parse(text@) {
                Err(f) => r == Err::<Timestamp, TimestampError>(TimestampError::Unparsable(f)),
                Ok(p) => match rfc3339_text(p.0, p.1) {
                    Some(_) => r matches Ok(t) && t@ == p && reads_back(p),
                    None => r == Err::<Timestamp, TimestampError>(TimestampError::OutOfRange),
                },
            },
    {
        match parse_instant(text) {
            Err(e) => Err(TimestampError::Unparsable(e)),
            Ok((secs, nanos)) => match Timestamp::from_parts(secs, nanos) {
                Some(t) => Ok(t),
                None => Err(TimestampError::OutOfRange),
            },
        }
    }

    /// Whole seconds since the Unix epoch.
    pub fn timestamp(&self) -> (s: i64)
        ensures
            s == self@.0,
    {
        self.secs
    }

    /// Nanoseconds past the whole second.
    pub fn timestamp_subsec_nanos(&self) -> (n: u32)
        ensures
            n == self@.1,
    {
        self.nanos
    }

    /// The instant as RFC 3339 text, as chrono's `to_rfc3339` writes it.
    pub fn to_rfc3339(&self) -> (s: String)
        ensures
            s@ == rfc3339_of(self@),
            rfc3339_text(self@.0, self@.1) == Some(s@),
            reads_back(self@),
    {
        proof {
            use_type_invariant(self);
        }
        self.text.clone()
    }
}

impl Clone for Timestamp {
    fn clone(&self) -> (r: Self)
        ensures
            r@ == self@,
    {
        proof {
            use_type_invariant(self);
        }
        Timestamp { secs: self.secs, nanos: self.nanos, text: self.text.clone() }
    }
}

} // verus!
