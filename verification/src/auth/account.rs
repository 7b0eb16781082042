//! Self-service account deletion with a grace period.
use crate::text::str_is;
use vstd::prelude::*;

verus! {

broadcast use vstd::string::group_string_axioms;

/// The body of a deletion request.
#[derive(Debug, Clone)]
pub struct DeleteAccountRequest {
    pub confirmation: String,
}

/// The answer to a scheduled deletion.
#[derive(Debug, Clone)]
pub struct DeleteAccountResponse {
    pub success: bool,
    pub message: String,
    pub scheduled_deletion_at: i64,
    pub grace_period_seconds: i64,
}

/// Whether a deletion is pending and how long remains.
#[derive(Debug, Clone, Copy, PartialEq, Eq, Structural)]
pub struct DeletionStatusResponse {
    pub pending: bool,
    pub scheduled_deletion_at: Option<i64>,
    pub days_remaining: Option<i64>,
}

/// Whether the body confirms a deletion: `confirmation` is exactly `DELETE`.
pub fn deletion_confirmed(confirmation: Option<&str>) -> (r: bool)
    ensures
        r == (confirmation matches Some(c) && c@ == "DELETE"@),
{
    match confirmation {
        Some(c) => str_is(c, "DELETE"),
        None => false,
    }
}

/// The refusal of an unconfirmed deletion (400).
pub fn unconfirmed_message() -> (r: &'static str)
    ensures
        r@ == "Must provide 'confirmation': 'DELETE' in request body"@,
{
    "Must provide 'confirmation': 'DELETE' in request body"
}

/// The answer to a scheduled deletion.
pub fn deletion_scheduled(scheduled_deletion_at: i64, grace_period_seconds: i64) -> (r:
    DeleteAccountResponse)
    ensures
        r.success,
        r.message@ == "Account deletion scheduled. You have 7 days to cancel."@,
        r.scheduled_deletion_at == scheduled_deletion_at,
        r.grace_period_seconds == grace_period_seconds,
{
    DeleteAccountResponse {
        success: true,
        message: "Account deletion scheduled. You have 7 days to cancel.".to_string(),
        scheduled_deletion_at,
        grace_period_seconds,
    }
}

/// Whole days left until `scheduled` at `now`, rounded up; 0 once past.
pub open spec fn days_left(scheduled: int, now: int) -> int {
    let secs = if scheduled - now > 0 {
        scheduled - now
    } else {
        0
    };
    (secs + 86399) / 86400
}

/// The deletion status of a user whose pending deletion (if any) is due at
/// `pending_at`.
pub fn deletion_status(pending_at: Option<i64>, now: i64) -> (r: DeletionStatusResponse)
    requires
        pending_at matches Some(ts) ==> i64::MIN <= ts - now <= i64::MAX - 86399,
    ensures
        r.pending == pending_at is Some,
        r.scheduled_deletion_at == pending_at,
        match pending_at {
            Some(ts) => r.days_remaining == Some(days_left(ts as int, now as int) as i64),
            None => r.days_remaining is None,
        },
{
    let days = match pending_at {
        Some(ts) => {
            let diff = ts - now;
            let secs = if diff > 0 {
                diff
            } else {
                0
            };
            Some((secs + 86399) / 86400)
        },
        None => None,
    };
    DeletionStatusResponse {
        pending: pending_at.is_some(),
        scheduled_deletion_at: pending_at,
        days_remaining: days,
    }
}

/// A deletion due within the next day reports one day left; a deletion in the
/// past reports none.
pub proof fn lemma_days_left_bounds(scheduled: int, now: int)
    ensures
        scheduled <= now ==> days_left(scheduled, now) == 0,
        now < scheduled <= now + 86400 ==> days_left(scheduled, now) == 1,
        days_left(scheduled, now) >= 0,
{
}

} // verus!
