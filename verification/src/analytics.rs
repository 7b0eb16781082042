//! Time ranges for analytics queries and the tier retention window that clamps them.
use crate::query::{extract_query_param, named_param_from, param_i64, param_i64_exec, query_param_raw, raw_param};
use crate::text::{chars_of, parse_i64, parse_i64_spec};
use crate::tier::{retention_days, Tier};
use vstd::prelude::*;

verus! {

/// Seconds in a day.
pub const SECONDS_PER_DAY: i64 = 86400;

/// The window an analytics query covers.
#[derive(Debug, Clone, Copy, PartialEq, Eq, Structural)]
pub enum TimeRange {
    /// The last `value` days (0 means all time).
    Days { value: i64 },
    /// An explicit window of Unix timestamps.
    Custom { start: i64, end: i64 },
}

/// The outcome of clamping a query window to a tier's retention.
#[derive(Debug, Clone)]
pub struct AnalyticsGatingResult {
    /// Whether the start was moved forward.
    pub gated: bool,
    /// `"retention_limited"` when gated.
    pub reason: Option<String>,
    /// The start to query from.
    pub adjusted_start: i64,
    /// The start that was asked for.
    pub original_start: i64,
}

/// The earliest timestamp a tier may see at time `now`, if its retention is limited.
pub open spec fn retention_start(tier: Tier, now: int) -> Option<int> {
    match retention_days(tier) {
        Some(d) => Some(now - d * 86400),
        None => None,
    }
}

/// Whether a query starting at `start` reaches beyond the tier's retention.
pub open spec fn is_gated(tier: Tier, start: int, now: int) -> bool {
    match retention_start(tier, now) {
        Some(rs) => start < rs,
        None => false,
    }
}

/// The gating outcome as (gated, reason, adjusted start, original start).
pub open spec fn gating_view(r: AnalyticsGatingResult) -> (bool, Option<Seq<char>>, int, int) {
    (
        r.gated,
        match r.reason {
            Some(s) => Some(s@),
            None => None,
        },
        r.adjusted_start as int,
        r.original_start as int,
    )
}

/// The gating outcome of a query starting at `start`, asked at `now`: a
/// function of the tier, the start and the time alone.
pub open spec fn gating_of(tier: Tier, start: int, now: int) -> (bool, Option<Seq<char>>, int, int) {
    if is_gated(tier, start, now) {
        (true, Some("retention_limited"@), retention_start(tier, now)->0, start)
    } else {
        (false, None, start, start)
    }
}

/// Clamps `start` to the tier's retention window at time `now`. A start before
/// the window is moved to the window's first second and reported as
/// `retention_limited`; the end is not changed and plays no part: two calls
/// that differ only in the end give the same outcome (`gating_of` does not
/// take it).
pub fn apply_analytics_gating(tier: Tier, start: i64, _end: i64, now: i64) -> (r:
    AnalyticsGatingResult)
    requires
        retention_start(tier, now as int) matches Some(rs) ==> rs >= i64::MIN,
    ensures
        r.original_start == start,
        r.gated == is_gated(tier, start as int, now as int),
        r.gated ==> r.adjusted_start == retention_start(tier, now as int)->0,
        !r.gated ==> r.adjusted_start == start,
        r.gated ==> (r.reason matches Some(s) && s@ == "retention_limited"@),
        !r.gated ==> r.reason is None,
        gating_view(r) == gating_of(tier, start as int, now as int),
{
    let limits = tier.limits();
    let mut gated = false;
    let mut reason: Option<String> = None;
    let mut adjusted_start = start;
    if let Some(days) = limits.analytics_retention_days {
        let window_start = now - days * 24 * 60 * 60;
        if start < window_start {
            adjusted_start = window_start;
            gated = true;
            reason = Some("retention_limited".to_string());
        }
    }
    AnalyticsGatingResult { gated, reason, adjusted_start, original_start: start }
}

/// The start a query at `now` is run from after gating.
pub open spec fn gated_start(tier: Tier, start: int, now: int) -> int {
    if is_gated(tier, start, now) {
        retention_start(tier, now)->0
    } else {
        start
    }
}

/// Gating only ever moves the start forward, never before the tier's window,
/// and gating its result again changes nothing.
pub proof fn lemma_gating_clamps(tier: Tier, start: int, now: int)
    ensures
        gated_start(tier, start, now) >= start,
        retention_start(tier, now) matches Some(rs) ==> gated_start(tier, start, now) >= rs,
        !is_gated(tier, gated_start(tier, start, now), now),
        gated_start(tier, gated_start(tier, start, now), now) == gated_start(tier, start, now),
{
}

/// Higher tiers see at least as much history: what Pro cannot see, Free cannot
/// either, and Business and Unlimited are never gated.
pub proof fn lemma_gating_by_tier(start: int, now: int)
    ensures
        is_gated(Tier::Pro, start, now) ==> is_gated(Tier::Free, start, now),
        !is_gated(Tier::Business, start, now),
        !is_gated(Tier::Unlimited, start, now),
        gated_start(Tier::Free, start, now) >= gated_start(Tier::Pro, start, now),
{
}

/// The range that a query string asks for: `days=N` wins (an unparsable N
/// gives 7); otherwise `start=` and `end=` (defaults: seven days before `now`,
/// and `now`).
pub open spec fn time_range_of_query(query: Seq<char>, now: int) -> TimeRange {
    match raw_param(query, "days="@) {
        Some(v) => TimeRange::Days {
            value: match parse_i64_spec(v) {
                Some(d) => d,
                None => 7,
            },
        },
        None => TimeRange::Custom {
            start: match param_i64(query, "start="@) {
                Some(s) => s,
                None => (now - 7 * 86400) as i64,
            },
            end: match param_i64(query, "end="@) {
                Some(e) => e,
                None => now as i64,
            },
        },
    }
}

/// Parses `?days=N` or `?start=UNIX&end=UNIX` with `now` as the reference time.
pub fn parse_time_range_from_query_with_now(query: &str, now: i64) -> (r: TimeRange)
    requires
        param_i64(query@, "start="@) is None ==> now >= i64::MIN + 7 * 86400,
    ensures
        r == time_range_of_query(query@, now as int),
{
    let q = chars_of(query);
    let days_prefix = chars_of("days=");
    if let Some(days_str) = query_param_raw(q.as_slice(), days_prefix.as_slice()) {
        let days = match parse_i64(days_str.as_slice()) {
            Some(d) => d,
            None => 7,
        };
        return TimeRange::Days { value: days };
    }
    let start = match param_i64_exec(q.as_slice(), "start=") {
        Some(s) => s,
        None => now - 7 * 24 * 60 * 60,
    };
    let end = match param_i64_exec(q.as_slice(), "end=") {
        Some(e) => e,
        None => now,
    };
    TimeRange::Custom { start, end }
}

/// What a link analytics request asks for: a JSON `time_range` object (the
/// decoded text, parsed by the caller) or a range read from the query.
#[derive(Debug, Clone)]
pub enum LinkRangeRequest {
    Json(String),
    Range(TimeRange),
}

/// The link analytics range of a query at `now`: a decodable `time_range`
/// wins, then a decodable `days` (an unparsable number gives 7), then the
/// legacy `start=`/`end=` pair with the same defaults as the organization view.
pub open spec fn link_range_of(query: Seq<char>, now: int) -> Result<Seq<char>, TimeRange> {
    match named_param_from(query, "time_range"@, 0) {
        Some(j) => Ok(j),
        None => match named_param_from(query, "days"@, 0) {
            Some(d) => Err(
                TimeRange::Days {
                    value: match parse_i64_spec(d) {
                        Some(v) => v,
                        None => 7,
                    },
                },
            ),
            None => Err(
                TimeRange::Custom {
                    start: match param_i64(query, "start="@) {
                        Some(s) => s,
                        None => (now - 7 * 86400) as i64,
                    },
                    end: match param_i64(query, "end="@) {
                        Some(e) => e,
                        None => now as i64,
                    },
                },
            ),
        },
    }
}

/// Reads the link analytics range of a query at `now`.
pub fn link_range_request(query: &str, now: i64) -> (r: LinkRangeRequest)
    requires
        param_i64(query@, "start="@) is None ==> now >= i64::MIN + 7 * 86400,
    ensures
        match link_range_of(query@, now as int) {
            Ok(j) => r matches LinkRangeRequest::Json(s) && s@ == j,
            Err(t) => r == LinkRangeRequest::Range(t),
        },
{
    if let Ok(j) = extract_query_param(query, "time_range") {
        return LinkRangeRequest::Json(j);
    }
    if let Ok(d) = extract_query_param(query, "days") {
        let days = match parse_i64(chars_of(d.as_str()).as_slice()) {
            Some(v) => v,
            None => 7,
        };
        return LinkRangeRequest::Range(TimeRange::Days { value: days });
    }
    let q = chars_of(query);
    let start = match param_i64_exec(q.as_slice(), "start=") {
        Some(s) => s,
        None => now - 7 * 24 * 60 * 60,
    };
    let end = match param_i64_exec(q.as_slice(), "end=") {
        Some(e) => e,
        None => now,
    };
    LinkRangeRequest::Range(TimeRange::Custom { start, end })
}

} // verus!
