use chrono::{Datelike, TimeZone};
use rushomon::billing::quota::{current_month_key, next_reset};

// The proleptic Gregorian formulas that the library states chrono follows,
// written out in plain integers.
fn days_from_civil(y: i64, m: i64, d: i64) -> i64 {
    let yy = if m <= 2 { y - 1 } else { y };
    let era = yy.div_euclid(400);
    let yoe = yy - era * 400;
    let mp = if m > 2 { m - 3 } else { m + 9 };
    let doy = (153 * mp + 2) / 5 + d - 1;
    let doe = yoe * 365 + yoe / 4 - yoe / 100 + doy;
    era * 146097 + doe - 719468
}

fn civil_from_days(z: i64) -> (i64, i64) {
    let zz = z + 719468;
    let era = zz.div_euclid(146097);
    let doe = zz - era * 146097;
    let yoe = (doe - doe / 1460 + doe / 36524 - doe / 146096) / 365;
    let doy = doe - (365 * yoe + yoe / 4 - yoe / 100);
    let mp = (5 * doy + 2) / 153;
    let m = if mp < 10 { mp + 3 } else { mp - 9 };
    let y = yoe + era * 400;
    (if m <= 2 { y + 1 } else { y }, m)
}

#[test]
fn calendar_formulas_follow_chrono() {
    let mut ts: i64 = -80_000_000_000;
    while ts < 80_000_000_000 {
        let dt = chrono::DateTime::from_timestamp(ts, 0).unwrap();
        assert_eq!(civil_from_days(ts.div_euclid(86400)), (dt.year() as i64, dt.month() as i64), "ts {}", ts);
        ts += 86_400 * 37 + 12_345;
    }
    for year in [-262143i32, -4713, -1, 0, 1, 1900, 1970, 2000, 2024, 2100, 262142] {
        for month in 1..=12u32 {
            let t = chrono::Utc.with_ymd_and_hms(year, month, 1, 0, 0, 0).single().unwrap().timestamp();
            assert_eq!(t, days_from_civil(year as i64, month as i64, 1) * 86400, "{}-{}", year, month);
        }
    }
    assert!(chrono::Utc.with_ymd_and_hms(2024, 13, 1, 0, 0, 0).single().is_none());
    assert!(chrono::Utc.with_ymd_and_hms(2024, 0, 1, 0, 0, 0).single().is_none());
    assert!(chrono::Utc.with_ymd_and_hms(262143, 1, 1, 0, 0, 0).single().is_none());
    assert!(chrono::Utc.with_ymd_and_hms(-262144, 12, 1, 0, 0, 0).single().is_none());
}

#[test]
fn month_keys_across_year_ends() {
    // 1999-12-31T23:59:59Z and 2000-01-01T00:00:00Z
    assert_eq!(current_month_key(946684799), "1999-12");
    assert_eq!(current_month_key(946684800), "2000-01");
    assert_eq!(next_reset(946684799), 946684800);
    // Before 1970: 1969-07-20T20:17:40Z
    assert_eq!(current_month_key(-14182940), "1969-07");
}
