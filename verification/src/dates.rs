//! Dates in formulas: how a text is read as a point in time.
use vstd::prelude::*;
use crate::text::{chars_of, string_of, trim_seq, trimmed_range};

verus! {

/// What `chrono::DateTime::parse_from_rfc3339` reads from a text, as
/// milliseconds since the Unix epoch; `None` where it refuses the text.
pub uninterp spec fn rfc3339_millis(s: Seq<char>) -> Option<i64>;

/// What `chrono::NaiveDateTime::parse_from_str` reads from a text with the
/// format `%Y-%m-%d %H:%M:%S`, taken as UTC, in milliseconds since the Unix
/// epoch; `None` where it refuses the text.
pub uninterp spec fn datetime_millis(s: Seq<char>) -> Option<i64>;

/// What `chrono::NaiveDate::parse_from_str` reads from a text with the
/// format `%Y-%m-%d`, at midnight UTC, in milliseconds since the Unix epoch;
/// `None` where it refuses the text.
pub uninterp spec fn date_millis(s: Seq<char>) -> Option<i64>;

/// Calls `chrono::DateTime::parse_from_rfc3339` and `timestamp_millis`.
/// Trusted: the result is the value named `rfc3339_millis`.
#[verifier::external_body]
fn parse_rfc3339(s: &str) -> (r: Option<i64>)
    ensures
        r == rfc3339_millis(s@),
{
    chrono::DateTime::parse_from_rfc3339(s).ok().map(|d| d.timestamp_millis())
}

/// Calls `chrono::NaiveDateTime::parse_from_str` with `%Y-%m-%d %H:%M:%S`,
/// then `and_utc` and `timestamp_millis`. Trusted: the result is the value
/// named `datetime_millis`.
#[verifier::external_body]
fn parse_datetime(s: &str) -> (r: Option<i64>)
    ensures
        r == datetime_millis(s@),
{
    chrono::NaiveDateTime::parse_from_str(s, "%Y-%m-%d %H:%M:%S").ok().map(|d| d.and_utc().timestamp_millis())
}

/// Calls `chrono::NaiveDate::parse_from_str` with `%Y-%m-%d`, then
/// `and_hms_opt(0, 0, 0)` (which midnight always passes), `and_utc` and
/// `timestamp_millis`. Trusted: the result is the value named
/// `date_millis`.
#[verifier::external_body]
fn parse_date(s: &str) -> (r: Option<i64>)
    ensures
        r == date_millis(s@),
{
    chrono::NaiveDate::parse_from_str(s, "%Y-%m-%d").ok().and_then(|d| d.and_hms_opt(0, 0, 0)).map(
        |d| d.and_utc().timestamp_millis(),
    )
}

/// The time a text stands for: the text, trimmed, read as an RFC 3339
/// date and time, else as `YYYY-MM-DD HH:MM:SS` in UTC, else as a
/// `YYYY-MM-DD` date at midnight UTC.
pub open spec fn date_of(s: Seq<char>) -> Option<i64> {
    let t = trim_seq(s);
    match rfc3339_millis(t) {
        Some(ms) => Some(ms),
        None => match datetime_millis(t) {
            Some(ms) => Some(ms),
            None => date_millis(t),
        },
    }
}

/// Reads a text as a point in time, in milliseconds since the Unix epoch;
/// see `date_of`.
pub fn parse_date_str(s: &str) -> (r: Option<i64>)
    ensures
        r == date_of(s@),
{
    let cs = chars_of(s);
    let t = trimmed_range(cs.as_slice(), 0, cs.len());
    proof {
        assert(cs@.subrange(0, cs@.len() as int) =~= s@);
    }
    let ts = string_of(t.as_slice());
    match parse_rfc3339(ts.as_str()) {
        Some(ms) => Some(ms),
        None => match parse_datetime(ts.as_str()) {
            Some(ms) => Some(ms),
            None => parse_date(ts.as_str()),
        },
    }
}

} // verus!
