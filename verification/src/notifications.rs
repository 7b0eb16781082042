//! Users' e-mail notification preferences.
use vstd::prelude::*;

verus! {

/// What a user receives by e-mail.
#[derive(Debug, Clone, Copy, PartialEq, Eq, Structural)]
pub struct NotificationPreferences {
    /// The monthly statistics e-mail.
    pub email_monthly_stats: bool,
}

/// A change of preferences: each field absent leaves the current value.
#[derive(Debug, Clone, Copy, PartialEq, Eq, Structural)]
pub struct UpdateNotificationPreferencesRequest {
    pub email_monthly_stats: Option<bool>,
}

/// The preferences after a change.
pub fn apply_preferences(
    current: NotificationPreferences,
    change: UpdateNotificationPreferencesRequest,
) -> (r: NotificationPreferences)
    ensures
        r.email_monthly_stats == match change.email_monthly_stats {
            Some(v) => v,
            None => current.email_monthly_stats,
        },
{
    NotificationPreferences {
        email_monthly_stats: match change.email_monthly_stats {
            Some(v) => v,
            None => current.email_monthly_stats,
        },
    }
}

/// An empty change leaves the preferences as they were, and applying the
/// same change twice is applying it once.
pub proof fn lemma_preferences_update(
    current: NotificationPreferences,
    change: UpdateNotificationPreferencesRequest,
    once: NotificationPreferences,
)
    requires
        once.email_monthly_stats == match change.email_monthly_stats {
            Some(v) => v,
            None => current.email_monthly_stats,
        },
    ensures
        change.email_monthly_stats is None ==> once == current,
        (match change.email_monthly_stats {
            Some(v) => v,
            None => once.email_monthly_stats,
        }) == once.email_monthly_stats,
{
}

} // verus!
