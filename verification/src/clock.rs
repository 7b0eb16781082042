//! Calendar conversions and date formatting, through chrono.
use chrono::{Datelike, TimeZone};
use vstd::prelude::*;

verus! {

/// The Unix timestamp (seconds) that `chrono::DateTime::parse_from_rfc3339`
/// reads from `s`, or `None` when chrono rejects it.
pub uninterp spec fn rfc3339_timestamp(s: Seq<char>) -> Option<i64>;

/// Parses an RFC 3339 date-time (`DateTime::parse_from_rfc3339(s).ok().map(|d| d.timestamp())`).
#[verifier::external_body]
pub(crate) fn rfc3339_seconds(s: &str) -> (r: Option<i64>)
    ensures
        r == rfc3339_timestamp(s@),
{
    chrono::DateTime::parse_from_rfc3339(s).ok().map(|d| d.timestamp())
}

/// What chrono prints for the UTC date-time `ts` (seconds) in the format
/// `fmt`, or `None` when `ts` is outside chrono's range.
pub uninterp spec fn utc_formatted(ts: i64, fmt: Seq<char>) -> Option<Seq<char>>;

/// The two formats the library prints dates in.
pub open spec fn known_format(fmt: Seq<char>) -> bool {
    fmt == "%Y-%m-%dT%H:%M:%SZ"@ || fmt == "%Y-%m-%d"@
}

/// `DateTime::from_timestamp(ts, 0)` formatted with `fmt`. Printing a format
/// that chrono cannot render panics, so only the library's two formats are
/// admitted.
#[verifier::external_body]
pub(crate) fn format_utc(ts: i64, fmt: &str) -> (r: Option<String>)
    requires
        known_format(fmt@),
    ensures
        match r {
            Some(v) => utc_formatted(ts, fmt@) == Some(v@),
            None => utc_formatted(ts, fmt@) is None,
        },
{
    chrono::DateTime::from_timestamp(ts, 0).map(|dt| dt.format(fmt).to_string())
}

/// The first and last years chrono's dates reach (`NaiveDate::MIN` and
/// `NaiveDate::MAX`).
pub const MIN_YEAR: i32 = -262143;
pub const MAX_YEAR: i32 = 262142;

/// The number of days from 1970-01-01 to the given date of the proleptic
/// Gregorian calendar (astronomical years: year 0 is 1 BCE).
pub open spec fn days_from_civil(y: int, m: int, d: int) -> int {
    let yy = if m <= 2 { y - 1 } else { y };
    let era = yy / 400;
    let yoe = yy - era * 400;
    let mp = if m > 2 { m - 3 } else { m + 9 };
    let doy = (153 * mp + 2) / 5 + d - 1;
    let doe = yoe * 365 + yoe / 4 - yoe / 100 + doy;
    era * 146097 + doe - 719468
}

/// The year and month of the day `z` days after 1970-01-01, in the proleptic
/// Gregorian calendar.
pub open spec fn civil_from_days(z: int) -> (int, int) {
    let zz = z + 719468;
    let era = zz / 146097;
    let doe = zz - era * 146097;
    let yoe = (doe - doe / 1460 + doe / 36524 - doe / 146096) / 365;
    let doy = doe - (365 * yoe + yoe / 4 - yoe / 100);
    let mp = (5 * doy + 2) / 153;
    let m = if mp < 10 { mp + 3 } else { mp - 9 };
    let y = yoe + era * 400;
    (if m <= 2 { y + 1 } else { y }, m)
}

/// The UTC calendar year and month of the timestamp `ts`, as chrono reads
/// them: those of its day in the proleptic Gregorian calendar, or `None` when
/// that day's year is outside chrono's range.
pub open spec fn utc_year_month(ts: i64) -> Option<(i32, u32)> {
    let (y, m) = civil_from_days(ts as int / 86400);
    if MIN_YEAR <= y <= MAX_YEAR {
        Some((y as i32, m as u32))
    } else {
        None
    }
}

/// `DateTime::from_timestamp(ts, 0)` with its `year()` and `month()`.
/// chrono's `from_timestamp` takes the day `ts` falls on (Euclidean division
/// by 86400) and gives `None` exactly when its year is outside
/// `MIN_YEAR..=MAX_YEAR`; its months run from 1 to 12.
#[verifier::external_body]
pub(crate) fn year_month_of(ts: i64) -> (r: Option<(i32, u32)>)
    ensures
        r == utc_year_month(ts),
        r matches Some((_, m)) ==> 1 <= m <= 12,
{
    chrono::DateTime::from_timestamp(ts, 0).map(|dt| (dt.year(), dt.month()))
}

/// The timestamp of midnight UTC on the first day of `month` in `year`, as
/// `Utc.with_ymd_and_hms(year, month, 1, 0, 0, 0).single()` gives it: `None`
/// for a month outside 1 to 12 or a year outside chrono's range.
pub open spec fn utc_month_start(year: i32, month: u32) -> Option<i64> {
    if 1 <= month <= 12 && MIN_YEAR <= year <= MAX_YEAR {
        Some((days_from_civil(year as int, month as int, 1) * 86400) as i64)
    } else {
        None
    }
}

/// `Utc.with_ymd_and_hms(year, month, 1, 0, 0, 0).single()` as a timestamp.
/// chrono's `NaiveDate::from_ymd_opt` refuses a month outside 1 to 12 and a
/// year outside `MIN_YEAR..=MAX_YEAR`; midnight exists on every day and UTC
/// has a single offset.
#[verifier::external_body]
pub(crate) fn month_start_utc(year: i32, month: u32) -> (r: Option<i64>)
    ensures
        r == utc_month_start(year, month),
{
    chrono::Utc.with_ymd_and_hms(year, month, 1, 0, 0, 0).single().map(|dt| dt.timestamp())
}

/// What chrono's `to_rfc3339` prints for the UTC date-time `ts`, or `None`
/// when `ts` is outside chrono's range.
pub uninterp spec fn utc_rfc3339(ts: i64) -> Option<Seq<char>>;

/// `DateTime::from_timestamp(ts, 0)` printed with `to_rfc3339`.
#[verifier::external_body]
pub(crate) fn rfc3339_of(ts: i64) -> (r: Option<String>)
    ensures
        match r {
            Some(v) => utc_rfc3339(ts) == Some(v@),
            None => utc_rfc3339(ts) is None,
        },
{
    chrono::DateTime::from_timestamp(ts, 0).map(|dt| dt.to_rfc3339())
}

} // verus!
