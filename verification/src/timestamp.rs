use vstd::prelude::*;

use crate::types::Timestamp;
#[allow(unused_imports)]
use chrono::{Datelike, Timelike};

verus! {

// The bracketed timestamp accepts several dialects, tried in a fixed
// order.  What a dialect accepts, and which instant a match denotes, is
// chrono's business: each parse is named and taken on trust, and the chain
// over the names is this library's own, verified code.

/// What `chrono::DateTime::parse_from_str` yields for the text `s` under
/// the format `fmt`: `None` where it errors, else the date, clock time,
/// fraction and UTC offset of the parsed instant.
pub uninterp spec fn fmt_timestamp_of(s: Seq<char>, fmt: Seq<char>) -> Option<Timestamp>;

/// What `chrono::DateTime::parse_from_rfc2822` yields for the text `s`.
pub uninterp spec fn rfc2822_timestamp_of(s: Seq<char>) -> Option<Timestamp>;

/// What `chrono::DateTime::parse_from_rfc3339` yields for the text `s`.
pub uninterp spec fn rfc3339_timestamp_of(s: Seq<char>) -> Option<Timestamp>;

/// Relies on chrono::DateTime::parse_from_str: the result is a function of
/// the text and the format alone.
#[verifier::external_body]
fn parse_timestamp_fmt(s: &str, fmt: &str) -> (r: Option<Timestamp>)
    ensures
        r == fmt_timestamp_of(s@, fmt@),
{
    match chrono::DateTime::parse_from_str(s, fmt) {
        Ok(d) => Some(Timestamp {
            year: d.year(),
            month: d.month(),
            day: d.day(),
            hour: d.hour(),
            minute: d.minute(),
            second: d.second(),
            nanosecond: d.nanosecond(),
            offset_seconds: d.offset().local_minus_utc(),
        }),
        Err(_) => None,
    }
}

/// Relies on chrono::DateTime::parse_from_rfc2822: the result is a
/// function of the text alone.
#[verifier::external_body]
fn parse_timestamp_rfc2822(s: &str) -> (r: Option<Timestamp>)
    ensures
        r == rfc2822_timestamp_of(s@),
{
    match chrono::DateTime::parse_from_rfc2822(s) {
        Ok(d) => Some(Timestamp {
            year: d.year(),
            month: d.month(),
            day: d.day(),
            hour: d.hour(),
            minute: d.minute(),
            second: d.second(),
            nanosecond: d.nanosecond(),
            offset_seconds: d.offset().local_minus_utc(),
        }),
        Err(_) => None,
    }
}

/// Relies on chrono::DateTime::parse_from_rfc3339: the result is a
/// function of the text alone.
#[verifier::external_body]
fn parse_timestamp_rfc3339(s: &str) -> (r: Option<Timestamp>)
    ensures
        r == rfc3339_timestamp_of(s@),
{
    match chrono::DateTime::parse_from_rfc3339(s) {
        Ok(d) => Some(Timestamp {
            year: d.year(),
            month: d.month(),
            day: d.day(),
            hour: d.hour(),
            minute: d.minute(),
            second: d.second(),
            nanosecond: d.nanosecond(),
            offset_seconds: d.offset().local_minus_utc(),
        }),
        Err(_) => None,
    }
}

/// The dialect chain for the text between the timestamp's brackets: the
/// Apache form, then `%Y-%m-%d %H:%M:%S%z`, then ISO-8601 with an optional
/// fraction, then RFC 2822, then RFC 3339.  The first dialect that accepts
/// the text decides.
pub open spec fn spec_timestamp_of(d: Seq<char>) -> Option<Timestamp> {
    if fmt_timestamp_of(d, "%d/%h/%Y:%H:%M:%S %z"@) is Some {
        fmt_timestamp_of(d, "%d/%h/%Y:%H:%M:%S %z"@)
    } else if fmt_timestamp_of(d, "%Y-%m-%d %H:%M:%S%z"@) is Some {
        fmt_timestamp_of(d, "%Y-%m-%d %H:%M:%S%z"@)
    } else if fmt_timestamp_of(d, "%Y-%m-%dT%H:%M:%S%.f%z"@) is Some {
        fmt_timestamp_of(d, "%Y-%m-%dT%H:%M:%S%.f%z"@)
    } else if rfc2822_timestamp_of(d) is Some {
        rfc2822_timestamp_of(d)
    } else {
        rfc3339_timestamp_of(d)
    }
}

pub fn timestamp_of(d: &str) -> (r: Option<Timestamp>)
    ensures
        r == spec_timestamp_of(d@),
{
    if let Some(t) = parse_timestamp_fmt(d, "%d/%h/%Y:%H:%M:%S %z") {
        return Some(t);
    }
    if let Some(t) = parse_timestamp_fmt(d, "%Y-%m-%d %H:%M:%S%z") {
        return Some(t);
    }
    if let Some(t) = parse_timestamp_fmt(d, "%Y-%m-%dT%H:%M:%S%.f%z") {
        return Some(t);
    }
    if let Some(t) = parse_timestamp_rfc2822(d) {
        return Some(t);
    }
    parse_timestamp_rfc3339(d)
}

} // verus!
