//! Administrators' operations on billing accounts, API keys and domains.
use crate::settings::{first_pair_value, last_pair_value, pairs_first, pairs_lookup, pairs_view};
use crate::text::{chars_of, int_decimal, parse_i64, parse_i64_spec, str_is, string_from_chars, u64_decimal_chars};
use crate::tier::{tier_from_name, Tier};
use vstd::prelude::*;

verus! {

broadcast use vstd::string::group_string_axioms;

/// The tier an administrator sets; anything but the four tier names is
/// refused (400 "Invalid tier. Must be: free, pro, business, or unlimited").
pub fn admin_tier(name: &str) -> (r: Result<Tier, &'static str>)
    ensures
        match tier_from_name(name@) {
            Some(t) => r == Ok::<Tier, &'static str>(t),
            None => r == Err::<Tier, &'static str>(
                "Invalid tier. Must be: free, pro, business, or unlimited",
            ),
        },
{
    match Tier::from_str_value(name) {
        Some(t) => Ok(t),
        None => Err("Invalid tier. Must be: free, pro, business, or unlimited"),
    }
}

/// The tier an administrator's subscription status change also sets: a
/// canceled subscription drops the account to free; other statuses leave it.
pub fn tier_after_status(status: &str) -> (r: Option<Tier>)
    ensures
        status@ == "canceled"@ ==> r == Some(Tier::Free),
        status@ != "canceled"@ ==> r is None,
{
    if str_is(status, "canceled") {
        Some(Tier::Free)
    } else {
        None
    }
}

/// An administrator's action on an API key.
#[derive(Debug, Clone, Copy, PartialEq, Eq, Structural)]
pub enum KeyAction {
    Revoke,
    Reactivate,
    Delete,
    Restore,
}

pub open spec fn key_action_name(a: KeyAction) -> Seq<char> {
    match a {
        KeyAction::Revoke => "revoke"@,
        KeyAction::Reactivate => "reactivate"@,
        KeyAction::Delete => "delete"@,
        KeyAction::Restore => "restore"@,
    }
}

impl KeyAction {
    /// The action's verb.
    pub fn as_str(&self) -> (r: &'static str)
        ensures
            r@ == key_action_name(*self),
    {
        match self {
            KeyAction::Revoke => "revoke",
            KeyAction::Reactivate => "reactivate",
            KeyAction::Delete => "delete",
            KeyAction::Restore => "restore",
        }
    }

    /// The confirmation: `API key <verb>d successfully`.
    pub fn success_message(&self) -> (r: String)
        ensures
            r@ == "API key "@ + key_action_name(*self) + "d successfully"@,
    {
        let mut s = "API key ".to_string();
        s.append(self.as_str());
        s.append("d successfully");
        s
    }

    /// The failure: `Failed to <verb> API key`.
    pub fn failure_message(&self) -> (r: String)
        ensures
            r@ == "Failed to "@ + key_action_name(*self) + " API key"@,
    {
        let mut s = "Failed to ".to_string();
        s.append(self.as_str());
        s.append(" API key");
        s
    }

    /// The audit event: `admin_api_key_<past tense>`.
    pub fn audit_event(&self) -> (r: &'static str)
        ensures
            r@ == match *self {
                KeyAction::Revoke => "admin_api_key_revoked"@,
                KeyAction::Reactivate => "admin_api_key_reactivated"@,
                KeyAction::Delete => "admin_api_key_deleted"@,
                KeyAction::Restore => "admin_api_key_restored"@,
            },
    {
        match self {
            KeyAction::Revoke => "admin_api_key_revoked",
            KeyAction::Reactivate => "admin_api_key_reactivated",
            KeyAction::Delete => "admin_api_key_deleted",
            KeyAction::Restore => "admin_api_key_restored",
        }
    }
}

pub open spec fn parsed_or(v: Option<Seq<char>>, d: i64) -> i64 {
    match v {
        Some(s) => match parse_i64_spec(s) {
            Some(n) => n,
            None => d,
        },
        None => d,
    }
}

fn parse_or(v: &Option<String>, d: i64) -> (r: i64)
    ensures
        r == parsed_or(
            match v {
                Some(s) => Some(s@),
                None => None,
            },
            d,
        ),
{
    match v {
        Some(s) => match parse_i64(chars_of(s.as_str()).as_slice()) {
            Some(n) => n,
            None => d,
        },
        None => d,
    }
}

pub open spec fn opt_string_view(o: Option<String>) -> Option<Seq<char>> {
    match o {
        Some(s) => Some(s@),
        None => None,
    }
}

/// The API key list's parameters from the request's decoded query pairs
/// (a repeated name takes its last value).
#[derive(Debug, Clone)]
pub struct KeyListParams {
    /// At least 1, 1 by default.
    pub page: i64,
    /// Between 1 and 100, 20 by default.
    pub limit: i64,
    pub search: Option<String>,
    pub status: Option<String>,
}

/// Reads the API key list's parameters.
pub fn key_list_params(pairs: &Vec<(String, String)>) -> (r: KeyListParams)
    ensures
        r.page == {
            let p = parsed_or(pairs_lookup(pairs_view(pairs@), "page"@), 1);
            if p < 1 {
                1
            } else {
                p
            }
        },
        r.limit == {
            let l = parsed_or(pairs_lookup(pairs_view(pairs@), "limit"@), 20);
            if l < 1 {
                1
            } else if l > 100 {
                100
            } else {
                l
            }
        },
        opt_string_view(r.search) == pairs_lookup(pairs_view(pairs@), "search"@),
        opt_string_view(r.status) == pairs_lookup(pairs_view(pairs@), "status"@),
{
    let page = parse_or(&last_pair_value(pairs, "page"), 1);
    let limit = parse_or(&last_pair_value(pairs, "limit"), 20);
    KeyListParams {
        page: if page < 1 {
            1
        } else {
            page
        },
        limit: if limit < 1 {
            1
        } else if limit > 100 {
            100
        } else {
            limit
        },
        search: last_pair_value(pairs, "search"),
        status: last_pair_value(pairs, "status"),
    }
}

/// The billing account list's parameters (a repeated name takes its first
/// value; page and limit are not clamped).
#[derive(Debug, Clone)]
pub struct AccountListParams {
    pub page: i64,
    pub limit: i64,
    pub search: Option<String>,
    pub tier: Option<String>,
}

/// Reads the billing account list's parameters.
pub fn account_list_params(pairs: &Vec<(String, String)>) -> (r: AccountListParams)
    ensures
        r.page == parsed_or(pairs_first(pairs_view(pairs@), "page"@), 1),
        r.limit == parsed_or(pairs_first(pairs_view(pairs@), "limit"@), 50),
        opt_string_view(r.search) == pairs_first(pairs_view(pairs@), "search"@),
        opt_string_view(r.tier) == pairs_first(pairs_view(pairs@), "tier"@),
{
    AccountListParams {
        page: parse_or(&first_pair_value(pairs, "page"), 1),
        limit: parse_or(&first_pair_value(pairs, "limit"), 50),
        search: first_pair_value(pairs, "search"),
        tier: first_pair_value(pairs, "tier"),
    }
}

/// The summary of a domain polling run.
pub open spec fn poll_message_of(processed: int, changes: int) -> Seq<char> {
    if processed == 0 {
        "No pending domains found"@
    } else if changes == 0 {
        "Polled "@ + int_decimal(processed) + " domain(s), no status changes"@
    } else {
        "Polled "@ + int_decimal(processed) + " domain(s), "@ + int_decimal(changes)
            + " status change(s)"@
    }
}

/// The summary of a domain polling run.
pub fn poll_message(processed: u64, changes: u64) -> (r: String)
    ensures
        r@ == poll_message_of(processed as int, changes as int),
{
    if processed == 0 {
        "No pending domains found".to_string()
    } else {
        let p = string_from_chars(u64_decimal_chars(processed).as_slice());
        let mut s = "Polled ".to_string();
        s.append(p.as_str());
        if changes == 0 {
            s.append(" domain(s), no status changes");
        } else {
            s.append(" domain(s), ");
            s.append(string_from_chars(u64_decimal_chars(changes).as_slice()).as_str());
            s.append(" status change(s)");
        }
        s
    }
}

} // verus!
