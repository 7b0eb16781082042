//! The monthly link counter: its key and its reset time.
use crate::clock::{month_start_utc, rfc3339_of, utc_month_start, utc_rfc3339, utc_year_month, year_month_of};
use crate::text::{int_decimal, string_from_chars, u64_decimal_chars, i64_decimal_chars};
use vstd::prelude::*;

verus! {

broadcast use vstd::string::group_string_axioms;

/// A month number printed with at least two digits.
pub open spec fn two_digits(m: int) -> Seq<char> {
    if 0 <= m < 10 {
        seq!['0'] + int_decimal(m)
    } else {
        int_decimal(m)
    }
}

/// The counter key of a month: `YYYY-MM`.
pub open spec fn month_key_of(year: int, month: int) -> Seq<char> {
    int_decimal(year) + "-"@ + two_digits(month)
}

/// The counter key of a year and month.
pub fn month_key(year: i32, month: u32) -> (r: String)
    ensures
        r@ == month_key_of(year as int, month as int),
{
    let y = string_from_chars(i64_decimal_chars(year as i64).as_slice());
    let m = string_from_chars(u64_decimal_chars(month as u64).as_slice());
    let mut s = y;
    s.append("-");
    if month < 10 {
        s.append("0");
    }
    s.append(m.as_str());
    proof {
        reveal_strlit("0");
        if month < 10 {
            assert(("0"@ + int_decimal(month as int)) =~= seq!['0'] + int_decimal(month as int));
        }
    }
    s
}

/// The counter key of the month holding `now` (empty when chrono cannot read
/// the timestamp).
pub fn current_month_key(now: i64) -> (r: String)
    ensures
        r@ == match utc_year_month(now) {
            Some((y, m)) => month_key_of(y as int, m as int),
            None => ""@,
        },
{
    match year_month_of(now) {
        Some((y, m)) => month_key(y, m),
        None => "".to_string(),
    }
}

/// The month after `(year, month)`: January of the next year after
/// December; `None` past the last representable year.
pub open spec fn following_month(year: i32, month: u32) -> Option<(i32, u32)> {
    if month >= 12 {
        if year < i32::MAX {
            Some(((year + 1) as i32, 1u32))
        } else {
            None
        }
    } else {
        Some((year, (month + 1) as u32))
    }
}

/// When the monthly counters reset, as reported to administrators: midnight
/// UTC on the first of the month after `now`'s (January of the next year
/// after December); `now` itself when chrono cannot read or build the date.
pub open spec fn next_reset_of(now: i64) -> i64 {
    match utc_year_month(now) {
        Some((y, m)) => match following_month(y, m) {
            Some((ny, nm)) => match utc_month_start(ny, nm) {
                Some(t) => t,
                None => now,
            },
            None => now,
        },
        None => now,
    }
}

/// The next counter reset after `now`.
pub fn next_reset(now: i64) -> (r: i64)
    ensures
        r == next_reset_of(now),
{
    match year_month_of(now) {
        Some((y, m)) => {
            let next = if m >= 12 {
                if y < i32::MAX {
                    Some((y + 1, 1u32))
                } else {
                    None
                }
            } else {
                Some((y, m + 1))
            };
            match next {
                Some((ny, nm)) => match month_start_utc(ny, nm) {
                    Some(t) => t,
                    None => now,
                },
                None => now,
            }
        },
        None => now,
    }
}

/// The next counter reset as reported to administrators: its RFC 3339 form
/// (empty if chrono cannot print it) and its timestamp.
pub fn next_reset_report(now: i64) -> (r: (String, i64))
    ensures
        r.1 == next_reset_of(now),
        r.0@ == match utc_rfc3339(next_reset_of(now)) {
            Some(s) => s,
            None => ""@,
        },
{
    let t = next_reset(now);
    let text = match rfc3339_of(t) {
        Some(s) => s,
        None => "".to_string(),
    };
    (text, t)
}

} // verus!
