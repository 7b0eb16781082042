//! The rules an update to a link must pass.
use crate::text::{chars_of, str_is, utf8_len, utf8_len_exceeds};
use vstd::prelude::*;

verus! {

broadcast use vstd::string::group_string_axioms;

/// Why an update is refused by the link rules (all 400).
#[derive(Debug, Clone, Copy, PartialEq, Eq, Structural)]
pub enum UpdateRuleError {
    /// The new title is longer than 200 bytes.
    TitleTooLong,
    /// The new expiry is not after now.
    ExpiryNotInFuture,
    /// The new expiry is less than a minute away.
    ExpiryTooSoon,
}

impl UpdateRuleError {
    pub open spec fn message_spec(self) -> Seq<char> {
        match self {
            UpdateRuleError::TitleTooLong => "Title must be 200 characters or less"@,
            UpdateRuleError::ExpiryNotInFuture => "Expiration date must be in the future"@,
            UpdateRuleError::ExpiryTooSoon => "Expiration must be at least 60 seconds in the future"@,
        }
    }

    /// The message of the refusal.
    pub fn message(&self) -> (r: &'static str)
        ensures
            r@ == self.message_spec(),
    {
        match self {
            UpdateRuleError::TitleTooLong => "Title must be 200 characters or less",
            UpdateRuleError::ExpiryNotInFuture => "Expiration date must be in the future",
            UpdateRuleError::ExpiryTooSoon => "Expiration must be at least 60 seconds in the future",
        }
    }
}

/// The expiry change an update asks for: `Some(None)` clears it (when
/// `clear_expiration` is `true`), `Some(Some(t))` sets it, `None` leaves it.
pub open spec fn expiry_change_of(clear_expiration: Option<bool>, expires_at: Option<i64>) -> Option<
    Option<i64>,
> {
    if clear_expiration == Some(true) {
        Some(None)
    } else {
        match expires_at {
            Some(t) => Some(Some(t)),
            None => None,
        }
    }
}

/// The first rule an update breaks at `now`: the title, then the new expiry.
pub open spec fn update_violation(
    title: Option<Seq<char>>,
    clear_expiration: Option<bool>,
    expires_at: Option<i64>,
    now: int,
) -> Option<UpdateRuleError> {
    if title matches Some(t) && utf8_len(t) > 200 {
        Some(UpdateRuleError::TitleTooLong)
    } else {
        match expiry_change_of(clear_expiration, expires_at) {
            Some(Some(t)) => if t <= now {
                Some(UpdateRuleError::ExpiryNotInFuture)
            } else if t - now < 60 {
                Some(UpdateRuleError::ExpiryTooSoon)
            } else {
                None
            },
            _ => None,
        }
    }
}

/// Checks an update at `now`; on success gives the expiry change to store.
pub fn check_update(
    title: Option<&str>,
    clear_expiration: Option<bool>,
    expires_at: Option<i64>,
    now: i64,
) -> (r: Result<Option<Option<i64>>, UpdateRuleError>)
    ensures
        match update_violation(
            match title {
                Some(t) => Some(t@),
                None => None,
            },
            clear_expiration,
            expires_at,
            now as int,
        ) {
            Some(e) => r == Err::<Option<Option<i64>>, UpdateRuleError>(e),
            None => r == Ok::<Option<Option<i64>>, UpdateRuleError>(
                expiry_change_of(clear_expiration, expires_at),
            ),
        },
{
    if let Some(t) = title {
        let chars = chars_of(t);
        if utf8_len_exceeds(chars.as_slice(), 200) {
            return Err(UpdateRuleError::TitleTooLong);
        }
    }
    let clear = match clear_expiration {
        Some(b) => b,
        None => false,
    };
    let change: Option<Option<i64>> = if clear {
        Some(None)
    } else {
        match expires_at {
            Some(t) => Some(Some(t)),
            None => None,
        }
    };
    if let Some(Some(t)) = change {
        if t <= now {
            return Err(UpdateRuleError::ExpiryNotInFuture);
        }
        if (t as i128) - (now as i128) < 60 {
            return Err(UpdateRuleError::ExpiryTooSoon);
        }
    }
    Ok(change)
}

/// Which paid features an update asks for: a redirect type other than 301,
/// and UTM parameters or query forwarding.
pub fn update_paid_features(redirect_type: Option<&str>, has_utm: bool, forward_set: bool) -> (r: (
    bool,
    bool,
))
    ensures
        r.0 == (redirect_type matches Some(t) && t@ != "301"@),
        r.1 == (has_utm || forward_set),
{
    let redirect = match redirect_type {
        Some(t) => !str_is(t, "301"),
        None => false,
    };
    (redirect, has_utm || forward_set)
}

} // verus!
