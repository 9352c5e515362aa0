//! Instants in UTC, as whole seconds since the Unix epoch and a sub-second
//! nanosecond part, with the ordering that chrono gives `DateTime<Utc>`, and
//! the calendar parsing that the service delegates to chrono.
use chrono::DurationRound;
use vstd::prelude::*;

verus! {

/// Earliest second chrono can represent (January 1st of year -262143).
pub const MIN_TIMESTAMP: i64 = -8334601315200i64;

/// Latest second chrono can represent (December 31st of year 262142).
pub const MAX_TIMESTAMP: i64 = 8210266876799i64;

/// One day in seconds.
pub const SECONDS_PER_DAY: i64 = 86400i64;

/// An instant: seconds since 1970-01-01T00:00:00Z and the nanoseconds past
/// that second (a leap second is carried as `nanos >= 1_000_000_000`, as
/// chrono does).
#[derive(Clone, Copy, Debug, PartialEq, Eq, Structural)]
pub struct Timestamp {
    pub secs: i64,
    pub nanos: u32,
}

/// Whether `t` is an instant the clock can read: not before the epoch,
/// within chrono's range, with a sub-second part under one second.
pub open spec fn clock_instant(t: Timestamp) -> bool {
    0 <= t.secs <= MAX_TIMESTAMP && t.nanos < 1_000_000_000
}

/// `a` comes strictly before `b` (lexicographic on seconds, then
/// nanoseconds, which is chrono's ordering of UTC date-times).
pub open spec fn before(a: Timestamp, b: Timestamp) -> bool {
    a.secs < b.secs || (a.secs == b.secs && a.nanos < b.nanos)
}

/// The instant in nanoseconds since the epoch.
pub open spec fn stamp_nanos(t: Timestamp) -> int {
    t.secs * 1_000_000_000 + t.nanos
}

/// Whether the instant in nanoseconds fits an `i64` (chrono refuses to
/// round instants outside of it).
pub open spec fn nanos_fit(t: Timestamp) -> bool {
    i64::MIN <= stamp_nanos(t) <= i64::MAX
}

/// `t` rounded down to a multiple of `span` seconds since the epoch.
pub open spec fn truncated(t: Timestamp, span: int) -> Timestamp {
    Timestamp { secs: (t.secs as int - (t.secs as int) % span) as i64, nanos: 0 }
}

impl Timestamp {
    /// Builds an instant from its two parts.
    pub fn new(secs: i64, nanos: u32) -> (r: Timestamp)
        ensures
            r.secs == secs,
            r.nanos == nanos,
    {
        Timestamp { secs, nanos }
    }
}

/// Whether `a` comes strictly before `b`.
pub fn is_before(a: Timestamp, b: Timestamp) -> (r: bool)
    ensures
        r == before(a, b),
{
    a.secs < b.secs || (a.secs == b.secs && a.nanos < b.nanos)
}

/// Whether `a` comes before `b` or is the same instant.
pub fn is_at_or_before(a: Timestamp, b: Timestamp) -> (r: bool)
    ensures
        r == !before(b, a),
{
    !is_before(b, a)
}

/// The present instant.
///
/// Trusted: chrono's `Utc::now()`. Its source reads the system clock as a
/// duration since the Unix epoch (refusing a clock set before it), so the
/// seconds are not negative and the sub-second part is under one second;
/// nothing else is stated of the reading.
#[verifier::external_body]
pub(crate) fn now() -> (r: Timestamp)
    ensures
        0 <= r.secs <= MAX_TIMESTAMP,
        r.nanos < 1_000_000_000,
{
    let t = chrono::Utc::now();
    Timestamp { secs: t.timestamp(), nanos: t.timestamp_subsec_nanos() }
}

/// A name for what chrono's `NaiveDate::parse_from_str(s, "%Y-%m-%d")`
/// gives, the date taken at midnight UTC, or the text of chrono's parse
/// error when the date does not read.
pub uninterp spec fn calendar_date(s: Seq<char>) -> Result<Timestamp, Seq<char>>;

/// A name for the instant that chrono's `DateTime::parse_from_rfc3339`
/// reads from `s`, converted to UTC.
pub uninterp spec fn rfc3339_instant(s: Seq<char>) -> Option<Timestamp>;

/// The midnight (UTC) of the `yyyy-mm-dd` date `s`, when it reads.
pub open spec fn calendar_date_start(s: Seq<char>) -> Option<Timestamp> {
    match calendar_date(s) {
        Ok(t) => Some(t),
        Err(_) => None,
    }
}

/// Reads a `yyyy-mm-dd` date and gives its midnight in UTC, or the text of
/// the parse error.
///
/// Trusted: calls chrono's `NaiveDate::parse_from_str` with the format
/// `%Y-%m-%d` and takes the start of that day in UTC; on failure it gives
/// the error's `to_string()`. The contract only says that the outcome is
/// the named value `calendar_date` of the text, so nothing about chrono's
/// date grammar or its messages is assumed here.
#[verifier::external_body]
pub(crate) fn parse_calendar_date(s: &str) -> (r: Result<Timestamp, String>)
    ensures
        r matches Ok(t) ==> (calendar_date(s@) matches Ok(u) && u == t),
        r matches Err(e) ==> (calendar_date(s@) matches Err(m) && m == e@),
{
    match chrono::NaiveDate::parse_from_str(s, "%Y-%m-%d") {
        Ok(date) => {
            let midnight = chrono::NaiveDateTime::new(date, chrono::NaiveTime::MIN);
            Ok(Timestamp { secs: midnight.and_utc().timestamp(), nanos: 0 })
        },
        Err(e) => Err(e.to_string()),
    }
}

/// A name for the RFC 3339 text chrono's `to_rfc3339` writes for an
/// instant in UTC.
pub uninterp spec fn rfc3339_text(t: Timestamp) -> Seq<char>;

/// Writes an instant as RFC 3339 text.
///
/// Trusted: chrono's `DateTime::<Utc>::to_rfc3339`; the text is named
/// `rfc3339_text`. The instant must lie within chrono's range, where
/// `DateTime::from_timestamp` accepts it. What chrono's `write_rfc3339`
/// shows is stated too: the text is never empty, and for a year of four
/// digits (from 0000 to 9999) it holds the date, the time, every
/// non-zero nanosecond and the `+00:00` offset, so `parse_from_rfc3339`
/// reads back the same instant.
#[verifier::external_body]
pub(crate) fn format_rfc3339(t: Timestamp) -> (r: String)
    requires
        MIN_TIMESTAMP <= t.secs <= MAX_TIMESTAMP,
        t.nanos < 1_000_000_000,
    ensures
        r@ == rfc3339_text(t),
        r@.len() > 0,
        FIRST_FOUR_DIGIT_SECOND <= t.secs <= LAST_FOUR_DIGIT_SECOND ==> rfc3339_instant(r@) == Some(t),
{
    match chrono::DateTime::from_timestamp(t.secs, t.nanos) {
        Some(dt) => dt.to_rfc3339(),
        None => String::new(),
    }
}

/// The first second of the year 0000.
pub const FIRST_FOUR_DIGIT_SECOND: i64 = -62_167_219_200i64;

/// The last second of the year 9999.
pub const LAST_FOUR_DIGIT_SECOND: i64 = 253_402_300_799i64;

/// Bound on the seconds of any instant an RFC 3339 text can denote: its
/// year has exactly four digits and its offset stays within a day.
pub const RFC3339_SECONDS_BOUND: i64 = 253_500_000_000i64;

/// Reads an RFC 3339 date-time and gives the instant it denotes.
///
/// Trusted: calls chrono's `DateTime::parse_from_rfc3339`; the contract
/// names the result (`rfc3339_instant`) and states one fact that chrono's
/// grammar shows (a four-digit year and an offset under 24 hours), that the
/// instant lies within `RFC3339_SECONDS_BOUND` seconds of the epoch; and
/// the empty text does not read.
#[verifier::external_body]
pub(crate) fn parse_rfc3339(s: &str) -> (r: Option<Timestamp>)
    ensures
        r == rfc3339_instant(s@),
        r matches Some(t) ==> -RFC3339_SECONDS_BOUND <= t.secs <= RFC3339_SECONDS_BOUND,
        s@.len() == 0 ==> r is None,
{
    match chrono::DateTime::parse_from_rfc3339(s) {
        Ok(dt) => Some(Timestamp { secs: dt.timestamp(), nanos: dt.timestamp_subsec_nanos() }),
        Err(_) => None,
    }
}

/// Rounds an instant down to a whole multiple of `span_secs` seconds.
///
/// Trusted: chrono's `DurationRound::duration_trunc`. Its source computes
/// the instant in nanoseconds (failing when that does not fit an `i64`) and
/// subtracts the floored remainder modulo the span; for a span of whole
/// seconds and a sub-second part under one second that is the seconds
/// rounded down to a multiple of the span, with no sub-second part.
#[verifier::external_body]
pub(crate) fn truncate_to(t: Timestamp, span_secs: i64) -> (r: Option<Timestamp>)
    requires
        t.nanos < 1_000_000_000,
        0 < span_secs <= i64::MAX / 1_000_000_000,
    ensures
        r == (if nanos_fit(t) { Some(truncated(t, span_secs as int)) } else { None }),
{
    let dt = match chrono::DateTime::from_timestamp(t.secs, t.nanos) {
        Some(dt) => dt,
        None => return None,
    };
    match dt.duration_trunc(chrono::TimeDelta::seconds(span_secs)) {
        Ok(r) => Some(Timestamp { secs: r.timestamp(), nanos: r.timestamp_subsec_nanos() }),
        Err(_) => None,
    }
}

} // verus!
