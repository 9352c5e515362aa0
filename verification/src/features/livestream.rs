//! Face-count livestream of a device: the messages devices publish, the
//! supported aggregation windows, and the fixed timeline of buckets that a
//! query answers with.
use vstd::prelude::*;
use vstd::string::*;

use crate::database::StoreError;
use crate::text::{parse_i32, parse_i32_spec, split_char, split_spec};
use crate::time::{clock_instant, nanos_fit, now, parse_rfc3339, rfc3339_instant, truncate_to, truncated, Timestamp};

verus! {

/// Queue that devices publish their face counts to.
pub const DEVICE_LIVESTREAM_QUEUE_NAME: &'static str = "device_livestream";

/// The query string of a livestream query.
#[derive(Debug, Clone, Copy)]
pub struct LivestreamQueryParams {
    pub action: LivestreamQueryAction,
    pub interval: LivestreamInterval,
    pub range: LivestreamRange,
}

/// How the counts of a bucket are combined.
#[derive(Debug, Clone, Copy, PartialEq, Eq, Structural)]
pub enum LivestreamQueryAction {
    Average,
    Max,
}

/// Width of one bucket.
#[derive(Debug, Clone, Copy, PartialEq, Eq, Structural)]
pub enum LivestreamInterval {
    Minute,
    Hour,
    Day,
}

/// How far back a query looks.
#[derive(Debug, Clone, Copy, PartialEq, Eq, Structural)]
pub enum LivestreamRange {
    Hour,
    Day,
    Week,
}

impl LivestreamInterval {
    /// The interval as the database reads it.
    pub open spec fn text(self) -> Seq<char> {
        match self {
            LivestreamInterval::Minute => "1 minute"@,
            LivestreamInterval::Hour => "1 hour"@,
            LivestreamInterval::Day => "1 day"@,
        }
    }

    /// The interval as the database reads it.
    pub fn to_string(&self) -> (r: String)
        ensures
            r@ == self.text(),
    {
        match self {
            LivestreamInterval::Minute => String::from_str("1 minute"),
            LivestreamInterval::Hour => String::from_str("1 hour"),
            LivestreamInterval::Day => String::from_str("1 day"),
        }
    }
}

impl LivestreamRange {
    /// The range as the database reads it.
    pub open spec fn text(self) -> Seq<char> {
        match self {
            LivestreamRange::Hour => "1 hour"@,
            LivestreamRange::Day => "1 day"@,
            LivestreamRange::Week => "7 days"@,
        }
    }

    /// The range as the database reads it.
    pub fn to_string(&self) -> (r: String)
        ensures
            r@ == self.text(),
    {
        match self {
            LivestreamRange::Hour => String::from_str("1 hour"),
            LivestreamRange::Day => String::from_str("1 day"),
            LivestreamRange::Week => String::from_str("7 days"),
        }
    }
}

/// Error codes of the livestream API.
#[derive(Debug, Clone, Copy, PartialEq, Eq, Structural)]
pub enum LivestreamErrorCode {
    UnsupportedQuery,
    DatabaseError,
}

impl LivestreamErrorCode {
    /// The code as the API writes it.
    pub open spec fn text(self) -> Seq<char> {
        match self {
            LivestreamErrorCode::UnsupportedQuery => "UNSUPPORTED_QUERY"@,
            LivestreamErrorCode::DatabaseError => "DATABASE_ERROR"@,
        }
    }

    /// The code as the API writes it.
    pub fn to_string(&self) -> (r: String)
        ensures
            r@ == self.text(),
    {
        match self {
            LivestreamErrorCode::UnsupportedQuery => String::from_str("UNSUPPORTED_QUERY"),
            LivestreamErrorCode::DatabaseError => String::from_str("DATABASE_ERROR"),
        }
    }
}

/// Failure to store a livestream message.
#[derive(Debug)]
pub enum InsertLivestreamError {
    DatabaseError(StoreError),
}

/// Failure to answer a livestream query.
#[derive(Debug)]
pub enum QueryLivestreamError {
    DatabaseError(StoreError),
    UnsupportedQuery,
}

impl InsertLivestreamError {
    /// The message of the error.
    pub fn to_string(&self) -> (r: String)
        ensures
            r@ == "An error occurred with the request to the database"@,
    {
        String::from_str("An error occurred with the request to the database")
    }
}

impl QueryLivestreamError {
    /// The message of the error.
    pub fn to_string(&self) -> (r: String)
        ensures
            self is DatabaseError ==> r@ == "An error occurred with the request to the database"@,
            self is UnsupportedQuery ==> r@ == "Query is not supported"@,
    {
        match self {
            QueryLivestreamError::DatabaseError(_) => String::from_str(
                "An error occurred with the request to the database",
            ),
            QueryLivestreamError::UnsupportedQuery => String::from_str("Query is not supported"),
        }
    }
}

/// The bucket count and width (in seconds) of a supported query: a minute
/// over an hour, an hour over a day, or a day over a week.
pub open spec fn plan_of(interval: LivestreamInterval, range: LivestreamRange) -> Option<(nat, int)> {
    match (interval, range) {
        (LivestreamInterval::Minute, LivestreamRange::Hour) => Some((60, 60)),
        (LivestreamInterval::Hour, LivestreamRange::Day) => Some((24, 3600)),
        (LivestreamInterval::Day, LivestreamRange::Week) => Some((7, 86400)),
        _ => None,
    }
}

/// The bucket count and width of a query, or why it is not supported.
pub fn query_plan(interval: LivestreamInterval, range: LivestreamRange) -> (r: Result<(usize, i64), QueryLivestreamError>)
    ensures
        match plan_of(interval, range) {
            Some((plots, step)) => r matches Ok((p, s)) && p == plots && s == step,
            None => r is Err && r->Err_0 is UnsupportedQuery,
        },
{
    match (interval, range) {
        (LivestreamInterval::Minute, LivestreamRange::Hour) => Ok((60, 60)),
        (LivestreamInterval::Hour, LivestreamRange::Day) => Ok((24, 3600)),
        (LivestreamInterval::Day, LivestreamRange::Week) => Ok((7, 86400)),
        _ => Err(QueryLivestreamError::UnsupportedQuery),
    }
}

/// The start of bucket `i` counted back from the newest: the present
/// rounded down to the bucket width, minus `i` widths.
pub open spec fn bucket_start(now: Timestamp, step: int, i: int) -> Timestamp {
    Timestamp { secs: (truncated(now, step).secs - i * step) as i64, nanos: 0 }
}

/// The buckets a query answers with, newest first.
pub fn timeline(now: Timestamp, interval: LivestreamInterval, range: LivestreamRange) -> (r: Result<Vec<Timestamp>, QueryLivestreamError>)
    requires
        now.nanos < 1_000_000_000,
        nanos_fit(now),
    ensures
        match plan_of(interval, range) {
            Some((plots, step)) => r matches Ok(ts) && ts@.len() == plots && forall|i: int|
                0 <= i < plots ==> #[trigger] ts@[i] == bucket_start(now, step, i),
            None => r is Err && r->Err_0 is UnsupportedQuery,
        },
{
    let (plots, step) = match query_plan(interval, range) {
        Ok(p) => p,
        Err(e) => return Err(e),
    };
    let latest = match truncate_to(now, step) {
        Some(t) => t,
        None => return Ok(Vec::new()),
    };
    proof {
        assert(-9_223_372_037 <= now.secs <= 9_223_372_037);
        assert(-9_223_372_037 - 86400 <= latest.secs <= 9_223_372_037);
    }
    let mut stamps: Vec<Timestamp> = Vec::new();
    let mut current = latest;
    let mut i: usize = 0;
    while i < plots
        invariant
            plots <= 60,
            step == 60 || step == 3600 || step == 86400,
            plots as int * step <= 604800,
            i <= plots,
            latest == truncated(now, step as int),
            -9_223_372_037 - 86400 <= latest.secs <= 9_223_372_037,
            stamps@.len() == i,
            forall|k: int| 0 <= k < i ==> #[trigger] stamps@[k] == bucket_start(now, step as int, k),
            i > 0 ==> current == bucket_start(now, step as int, i - 1),
            i == 0 ==> current == latest,
        decreases plots - i,
    {
        if i > 0 {
            proof {
                assert(i * step <= 604800) by (nonlinear_arith)
                    requires
                        i < plots,
                        plots * step <= 604800,
                        step > 0,
                ;
                assert((latest.secs - (i - 1) * step) - step == latest.secs - i * step) by (nonlinear_arith);
            }
            current = Timestamp { secs: current.secs - step, nanos: 0 };
        }
        stamps.push(current);
        i = i + 1;
    }
    Ok(stamps)
}

/// The buckets of a supported query are one width apart, the newest starts
/// at a multiple of the width no later than the present, and the present
/// falls within the newest bucket.
pub proof fn law_buckets_one_width_apart(now: Timestamp, interval: LivestreamInterval, range: LivestreamRange, plots: nat, step: int, i: int)
    requires
        nanos_fit(now),
        now.nanos < 1_000_000_000,
        plan_of(interval, range) == Some((plots, step)),
        0 <= i < plots,
    ensures
        ({
            &&& bucket_start(now, step, i).secs - bucket_start(now, step, i + 1).secs == step
            &&& bucket_start(now, step, 0).secs <= now.secs < bucket_start(now, step, 0).secs + step
            &&& (bucket_start(now, step, 0).secs as int) % step == 0
            &&& bucket_start(now, step, i).nanos == 0
        }),
{
    assert(-9_223_372_037 <= now.secs <= 9_223_372_037);
    assert(i * step <= 604800) by (nonlinear_arith)
        requires
            0 <= i < plots,
            plots * step <= 604800,
            step > 0,
    ;
    assert((i + 1) * step == i * step + step) by (nonlinear_arith);
    let t = now.secs as int;
    let floor = t - t % step;
    assert(0 <= t % step < step);
    assert((t - t % step) % step == 0) by (nonlinear_arith)
        requires
            step > 0,
    {
        vstd::arithmetic::div_mod::lemma_fundamental_div_mod(t, step);
        vstd::arithmetic::div_mod::lemma_mod_multiples_basic(t / step, step);
        assert(t - t % step == step * (t / step));
        vstd::arithmetic::mul::lemma_mul_is_commutative(step, t / step);
    }
    assert(truncated(now, step).secs == floor);
}

/// Whether `ts` are the buckets of a supported query counted back from `t`.
pub open spec fn timeline_at(ts: Seq<Timestamp>, t: Timestamp, interval: LivestreamInterval, range: LivestreamRange) -> bool {
    match plan_of(interval, range) {
        Some((plots, step)) => ts.len() == plots && forall|i: int| 0 <= i < plots ==> #[trigger] ts[i] == bucket_start(t, step, i),
        None => false,
    }
}

/// The buckets of a query counted back from the present instant; `None`
/// exactly when the query is supported and the clock reads beyond the
/// instants chrono can round (nanoseconds past the epoch outside an `i64`,
/// past the year 2262), where the buckets cannot be computed.
pub fn current_timeline(interval: LivestreamInterval, range: LivestreamRange) -> (r: Option<Result<Vec<Timestamp>, QueryLivestreamError>>)
    ensures
        r matches Some(Ok(ts)) ==> exists|t: Timestamp| clock_instant(t) && nanos_fit(t) && #[trigger] timeline_at(ts@, t, interval, range),
        r matches Some(Err(e)) ==> e is UnsupportedQuery && plan_of(interval, range) is None,
        plan_of(interval, range) is None ==> (r matches Some(Err(e)) && e is UnsupportedQuery),
        r is None ==> plan_of(interval, range) is Some,
{
    let t = now();
    if t.secs > 9_223_372_036 || (t.secs == 9_223_372_036 && t.nanos > 854_775_807) {
        if query_plan(interval, range).is_err() {
            return Some(Err(QueryLivestreamError::UnsupportedQuery));
        }
        return None;
    }
    let r = timeline(t, interval, range);
    proof {
        if r is Ok {
            assert(clock_instant(t) && nanos_fit(t) && timeline_at(r->Ok_0@, t, interval, range));
        }
    }
    Some(r)
}

/// For each bucket, the first database row of that bucket (its value is
/// shown), or none (the bucket shows zero).
pub fn match_buckets(buckets: &Vec<Timestamp>, rows: &Vec<Timestamp>) -> (r: Vec<Option<usize>>)
    ensures
        r@.len() == buckets@.len(),
        forall|i: int|
            0 <= i < buckets@.len() ==> match #[trigger] r@[i] {
                Some(k) => k < rows@.len() && rows@[k as int] == buckets@[i] && forall|j: int|
                    0 <= j < k ==> rows@[j] != buckets@[i],
                None => forall|j: int| 0 <= j < rows@.len() ==> rows@[j] != buckets@[i],
            },
{
    let mut out: Vec<Option<usize>> = Vec::new();
    let n = buckets.len();
    let mut i: usize = 0;
    while i < n
        invariant
            n == buckets@.len(),
            i <= n,
            out@.len() == i,
            forall|q: int|
                0 <= q < i ==> match #[trigger] out@[q] {
                    Some(k) => k < rows@.len() && rows@[k as int] == buckets@[q] && forall|j: int|
                        0 <= j < k ==> rows@[j] != buckets@[q],
                    None => forall|j: int| 0 <= j < rows@.len() ==> rows@[j] != buckets@[q],
                },
        decreases n - i,
    {
        let b = buckets[i];
        let m = rows.len();
        let mut k: usize = 0;
        let mut found: Option<usize> = None;
        while k < m
            invariant_except_break
                found is None,
            invariant
                m == rows@.len(),
                k <= m,
                i < n,
                n == buckets@.len(),
                b == buckets@[i as int],
                forall|j: int| 0 <= j < k ==> rows@[j] != b,
            ensures
                match found {
                    Some(f) => f < m && rows@[f as int] == b && forall|j: int| 0 <= j < f ==> rows@[j] != b,
                    None => forall|j: int| 0 <= j < m ==> rows@[j] != b,
                },
            decreases m - k,
        {
            if rows[k] == b {
                found = Some(k);
                break;
            }
            k = k + 1;
        }
        out.push(found);
        i = i + 1;
    }
    out
}

/// A face count published by a device: the time as the device wrote it,
/// the instant it denotes, the device and the count.
#[derive(Debug)]
pub struct LivestreamMessagePayload {
    pub timestamp: String,
    pub instant: Timestamp,
    pub device_id: i32,
    pub num_of_faces: i32,
}

/// Whether `p` is what the message text `m` says: three fields separated by
/// single spaces, an RFC 3339 time, a device id and a face count.
pub open spec fn message_says(m: Seq<char>, p: LivestreamMessagePayload) -> bool {
    let parts = split_spec(m, ' ');
    &&& parts.len() == 3
    &&& p.timestamp@ == parts[0]
    &&& rfc3339_instant(parts[0]) == Some(p.instant)
    &&& parse_i32_spec(parts[1]) == Some(p.device_id as int)
    &&& parse_i32_spec(parts[2]) == Some(p.num_of_faces as int)
}

/// Whether the message text `m` reads as a face count.
pub open spec fn message_reads(m: Seq<char>) -> bool {
    let parts = split_spec(m, ' ');
    &&& parts.len() == 3
    &&& rfc3339_instant(parts[0]) is Some
    &&& parse_i32_spec(parts[1]) is Some
    &&& parse_i32_spec(parts[2]) is Some
}

/// Reads a device's face-count message; `None` when it is malformed.
pub fn parse_livestream_message(message: &str) -> (r: Option<LivestreamMessagePayload>)
    ensures
        r is Some <==> message_reads(message@),
        r matches Some(p) ==> message_says(message@, p),
{
    let parts = split_char(message, ' ');
    if parts.len() != 3 {
        return None;
    }
    proof {
        assert(parts@[0]@ == split_spec(message@, ' ')[0]);
        assert(parts@[1]@ == split_spec(message@, ' ')[1]);
        assert(parts@[2]@ == split_spec(message@, ' ')[2]);
    }
    let instant = match parse_rfc3339(parts[0].as_str()) {
        Some(t) => t,
        None => return None,
    };
    let device_id = match parse_i32(parts[1].as_str()) {
        Some(v) => v,
        None => return None,
    };
    let num_of_faces = match parse_i32(parts[2].as_str()) {
        Some(v) => v,
        None => return None,
    };
    Some(LivestreamMessagePayload { timestamp: parts[0].clone(), instant, device_id, num_of_faces })
}

} // verus!
