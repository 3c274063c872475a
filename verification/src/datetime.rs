//! Calendar timestamps as plain fields: the 7-byte date-time field of a
//! GRIB2 identification section, the 5-byte coded time span, and the
//! calendar addition that turns a reference time plus a forecast offset
//! into a valid time.

use crate::bytes::{be_u16, be_u32, u16_be, u32_be, u8_be};
use chrono::{Datelike, Timelike};
use vstd::prelude::*;

verus! {

/// A calendar timestamp (UTC, no time zone), field by field.
#[derive(Clone, Copy, Debug, PartialEq, Eq, Structural)]
pub struct GribDateTime {
    pub year: u16,
    pub month: u8,
    pub day: u8,
    pub hour: u8,
    pub minute: u8,
    pub second: u8,
}

/// The timestamp encoded at `at`: year on two bytes, then month, day,
/// hour, minute and second on one byte each.
pub open spec fn datetime_of(s: Seq<u8>, at: int) -> GribDateTime {
    GribDateTime {
        year: be_u16(s, at) as u16,
        month: s[at + 2],
        day: s[at + 3],
        hour: s[at + 4],
        minute: s[at + 5],
        second: s[at + 6],
    }
}

/// Reads the 7-byte timestamp at `at`.
pub fn datetime_be(buf: &[u8], at: usize) -> (r: GribDateTime)
    requires
        at + 7 <= buf@.len(),
    ensures
        r == datetime_of(buf@, at as int),
{
    let n = buf.len();
    assert(at + 7 <= n);
    GribDateTime {
        year: u16_be(buf, at),
        month: u8_be(buf, at + 2),
        day: u8_be(buf, at + 3),
        hour: u8_be(buf, at + 4),
        minute: u8_be(buf, at + 5),
        second: u8_be(buf, at + 6),
    }
}

/// Seconds denoted by a coded time span: a unit code and a magnitude.
/// The supported units are minutes, hours, days, 3/6/12 hours and
/// seconds; any other unit code has no defined span.
pub open spec fn time_span_seconds(unit: int, value: int) -> Option<int> {
    if unit == 0 {
        Some(value * 60)
    } else if unit == 1 {
        Some(value * 3600)
    } else if unit == 2 {
        Some(value * 86400)
    } else if unit == 10 {
        Some(value * 10800)
    } else if unit == 11 {
        Some(value * 21600)
    } else if unit == 12 {
        Some(value * 43200)
    } else if unit == 13 {
        Some(value * 1)
    } else {
        Option::None
    }
}

/// The span encoded at `at`: a 1-byte unit code and a 4-byte magnitude.
pub open spec fn time_span_of(s: Seq<u8>, at: int) -> Option<int> {
    time_span_seconds(s[at] as int, be_u32(s, at + 1))
}

/// Reads the 5-byte coded time span at `at` and converts it to seconds.
/// An unrecognized unit code yields nothing.
pub fn time_span_be(buf: &[u8], at: usize) -> (r: Option<u64>)
    requires
        at + 5 <= buf@.len(),
    ensures
        r matches Some(x) ==> time_span_of(buf@, at as int) == Some(x as int),
        r is Some <==> time_span_of(buf@, at as int) is Some,
{
    let n = buf.len();
    assert(at + 5 <= n);
    let unit = u8_be(buf, at);
    let value = u32_be(buf, at + 1) as u64;
    match unit {
        0 => Some(value * 60),
        1 => Some(value * 3600),
        2 => Some(value * 86400),
        10 => Some(value * 10800),
        11 => Some(value * 21600),
        12 => Some(value * 43200),
        13 => Some(value),
        _ => None,
    }
}

/// Whether `y` is a Gregorian leap year.
pub open spec fn leap_year(y: int) -> bool {
    (y % 4 == 0 && y % 100 != 0) || y % 400 == 0
}

/// Days in month `m` of year `y` in the Gregorian calendar.
pub open spec fn days_in_month(y: int, m: int) -> int {
    if m == 2 {
        if leap_year(y) {
            29
        } else {
            28
        }
    } else if m == 4 || m == 6 || m == 9 || m == 11 {
        30
    } else {
        31
    }
}

/// Whether the fields name a real Gregorian calendar instant.
pub open spec fn valid_datetime(t: GribDateTime) -> bool {
    &&& 1 <= t.month <= 12
    &&& 1 <= t.day <= days_in_month(t.year as int, t.month as int)
    &&& t.hour < 24
    &&& t.minute < 60
    &&& t.second < 60
}

/// The timestamp `span` seconds after the instant the six fields name.
pub uninterp spec fn datetime_plus_seconds(
    year: int,
    month: int,
    day: int,
    hour: int,
    minute: int,
    second: int,
    span: int,
) -> GribDateTime;

/// The timestamp `span` seconds after `t`.
pub open spec fn shifted(t: GribDateTime, span: int) -> GribDateTime {
    datetime_plus_seconds(
        t.year as int,
        t.month as int,
        t.day as int,
        t.hour as int,
        t.minute as int,
        t.second as int,
        span,
    )
}

/// Relies on chrono's UTC calendar arithmetic: `Utc.with_ymd_and_hms`
/// builds the instant (always a single one, UTC knows no DST), and
/// `checked_add_signed` adds the span; both depend on the arguments alone.
/// A valid timestamp with a four-digit year moved by at most 2^32 seconds
/// (about 136 years) stays well inside chrono's and these fields' ranges,
/// so the shift is then always returned.
#[verifier::external_body]
pub fn advance_datetime(t: &GribDateTime, span_seconds: u64) -> (r: Option<GribDateTime>)
    ensures
        r matches Some(x) ==> x == datetime_plus_seconds(
            t.year as int,
            t.month as int,
            t.day as int,
            t.hour as int,
            t.minute as int,
            t.second as int,
            span_seconds as int,
        ),
        valid_datetime(*t) && t.year <= 9999 && span_seconds <= u32::MAX ==> r is Some,
{
    let base = chrono::TimeZone::with_ymd_and_hms(
        &chrono::Utc, t.year as i32, t.month as u32, t.day as u32,
        t.hour as u32, t.minute as u32, t.second as u32,
    ).single()?;
    let delta = chrono::TimeDelta::try_seconds(i64::try_from(span_seconds).ok()?)?;
    let s = base.checked_add_signed(delta)?;
    Some(GribDateTime {
        year: u16::try_from(s.year()).ok()?,
        month: s.month() as u8, day: s.day() as u8, hour: s.hour() as u8,
        minute: s.minute() as u8, second: s.second() as u8,
    })
}

} // verus!
