//! Abuse reports: what a report needs, and how administrators page through them.
use crate::settings::{last_pair_value, pairs_lookup, pairs_view};
use crate::text::{chars_of, parse_u32, parse_u32_spec};
use vstd::prelude::*;

verus! {

broadcast use vstd::string::group_string_axioms;

/// A report needs a string `link_id` and a string `reason` (400 otherwise).
pub fn report_fields(link_id: Option<&str>, reason: Option<&str>) -> (r: Result<
    (String, String),
    &'static str,
>)
    ensures
        link_id is None ==> r == Err::<(String, String), &'static str>("Missing 'link_id' field"),
        link_id is Some && reason is None ==> r == Err::<(String, String), &'static str>(
            "Missing 'reason' field",
        ),
        link_id matches Some(l) ==> (reason matches Some(m) ==> (r matches Ok((a, b)) && a@ == l@
            && b@ == m@)),
{
    let l = match link_id {
        None => return Err("Missing 'link_id' field"),
        Some(l) => l,
    };
    let m = match reason {
        None => return Err("Missing 'reason' field"),
        Some(m) => m,
    };
    Ok((l.to_string(), m.to_string()))
}

pub open spec fn u32_or(v: Option<Seq<char>>, d: u32) -> u32 {
    match v {
        Some(s) => match parse_u32_spec(s) {
            Some(n) => n,
            None => d,
        },
        None => d,
    }
}

/// The report list's parameters from the request's decoded query pairs
/// (a repeated name takes its last value).
#[derive(Debug, Clone)]
pub struct ReportListParams {
    /// At least 1, 1 by default.
    pub page: u32,
    /// Between 10 and 100, 50 by default.
    pub limit: u32,
    pub status: Option<String>,
}

fn u32_param(v: &Option<String>, d: u32) -> (r: u32)
    ensures
        r == u32_or(
            match v {
                Some(s) => Some(s@),
                None => None,
            },
            d,
        ),
{
    match v {
        Some(s) => match parse_u32(chars_of(s.as_str()).as_slice()) {
            Some(n) => n,
            None => d,
        },
        None => d,
    }
}

/// Reads the report list's parameters.
pub fn report_list_params(pairs: &Vec<(String, String)>) -> (r: ReportListParams)
    ensures
        r.page == {
            let p = u32_or(pairs_lookup(pairs_view(pairs@), "page"@), 1);
            if p < 1 {
                1
            } else {
                p
            }
        },
        r.limit == {
            let l = u32_or(pairs_lookup(pairs_view(pairs@), "limit"@), 50);
            if l < 10 {
                10
            } else if l > 100 {
                100
            } else {
                l
            }
        },
        match r.status {
            Some(s) => pairs_lookup(pairs_view(pairs@), "status"@) == Some(s@),
            None => pairs_lookup(pairs_view(pairs@), "status"@) is None,
        },
{
    let page = u32_param(&last_pair_value(pairs, "page"), 1);
    let limit = u32_param(&last_pair_value(pairs, "limit"), 50);
    ReportListParams {
        page: if page < 1 {
            1
        } else {
            page
        },
        limit: if limit < 10 {
            10
        } else if limit > 100 {
            100
        } else {
            limit
        },
        status: last_pair_value(pairs, "status"),
    }
}

/// Pages needed for `total` reports at `limit` per page: the ceiling of the
/// quotient, capped at `u32::MAX`.
pub open spec fn page_count(total: int, limit: int) -> int {
    let p = (total + limit - 1) / limit;
    if p > u32::MAX {
        u32::MAX as int
    } else {
        p
    }
}

/// Pages needed for `total` reports. The count is exact for totals below
/// 2^53, where a floating-point quotient rounds to the same ceiling.
pub fn report_pages(total: i64, limit: u32) -> (r: u32)
    requires
        0 <= total < 0x20000000000000,
        limit >= 1,
    ensures
        r == page_count(total as int, limit as int),
        (r as int) * limit >= total || r == u32::MAX,
{
    let p: i64 = (total + limit as i64 - 1) / (limit as i64);
    assert(p * (limit as int) >= total) by (nonlinear_arith)
        requires
            p == (total + limit - 1) / (limit as int),
            limit >= 1,
            total >= 0,
    ;
    if p > u32::MAX as i64 {
        u32::MAX
    } else {
        p as u32
    }
}

} // verus!
