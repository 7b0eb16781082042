//! Subscription tiers and the feature rules attached to them.
use crate::text::str_is;
use vstd::prelude::*;

verus! {

/// A billing tier; an account's tier decides which features and limits apply.
#[derive(Debug, Clone, Copy, PartialEq, Eq, Structural)]
pub enum Tier {
    Free,
    Pro,
    Business,
    Unlimited,
}

/// The name under which a tier is stored.
pub open spec fn tier_name(t: Tier) -> Seq<char> {
    match t {
        Tier::Free => "free"@,
        Tier::Pro => "pro"@,
        Tier::Business => "business"@,
        Tier::Unlimited => "unlimited"@,
    }
}

/// The tier stored under `s`, if any.
pub open spec fn tier_from_name(s: Seq<char>) -> Option<Tier> {
    if s == "free"@ {
        Some(Tier::Free)
    } else if s == "pro"@ {
        Some(Tier::Pro)
    } else if s == "business"@ {
        Some(Tier::Business)
    } else if s == "unlimited"@ {
        Some(Tier::Unlimited)
    } else {
        None
    }
}

/// Days of click history a tier may query; `None` is unlimited.
pub open spec fn retention_days(t: Tier) -> Option<int> {
    match t {
        Tier::Free => Some(7),
        Tier::Pro => Some(365),
        Tier::Business => None,
        Tier::Unlimited => None,
    }
}

/// Pro, Business and Unlimited: the tiers with the paid link features.
pub open spec fn pro_or_above(t: Tier) -> bool {
    t != Tier::Free
}

/// The feature switches that a tier grants.
#[derive(Debug, Clone, Copy)]
pub struct TierLimits {
    /// Days of analytics history; `None` for unlimited retention.
    pub analytics_retention_days: Option<i64>,
    /// Whether links may use a chosen short code.
    pub allow_custom_short_code: bool,
    /// Whether links may carry UTM parameters.
    pub allow_utm_parameters: bool,
    /// Whether links may forward the visitor's query parameters.
    pub allow_query_forwarding: bool,
    /// Whether personal access tokens may be created.
    pub allow_api_keys: bool,
}

impl Tier {
    /// Parses a stored tier name; unknown names give `None`.
    pub fn from_str_value(s: &str) -> (r: Option<Tier>)
        ensures
            r == tier_from_name(s@),
    {
        if str_is(s, "free") {
            Some(Tier::Free)
        } else if str_is(s, "pro") {
            Some(Tier::Pro)
        } else if str_is(s, "business") {
            Some(Tier::Business)
        } else if str_is(s, "unlimited") {
            Some(Tier::Unlimited)
        } else {
            None
        }
    }

    /// The stored name of the tier.
    pub fn as_str(&self) -> (r: &'static str)
        ensures
            r@ == tier_name(*self),
    {
        match self {
            Tier::Free => "free",
            Tier::Pro => "pro",
            Tier::Business => "business",
            Tier::Unlimited => "unlimited",
        }
    }

    /// Whether the tier is Pro or above.
    pub fn is_pro_or_above(&self) -> (r: bool)
        ensures
            r == pro_or_above(*self),
    {
        !matches!(self, Tier::Free)
    }

    /// The feature switches of the tier: Free keeps seven days of analytics and
    /// none of the paid link features; Pro keeps a year; Business and Unlimited
    /// keep everything; every paid tier has all paid features.
    pub fn limits(&self) -> (r: TierLimits)
        ensures
            match retention_days(*self) {
                Some(d) => r.analytics_retention_days == Some(d as i64),
                None => r.analytics_retention_days is None,
            },
            r.allow_custom_short_code == pro_or_above(*self),
            r.allow_utm_parameters == pro_or_above(*self),
            r.allow_query_forwarding == pro_or_above(*self),
            r.allow_api_keys == pro_or_above(*self),
    {
        let paid = self.is_pro_or_above();
        let retention = match self {
            Tier::Free => Some(7i64),
            Tier::Pro => Some(365i64),
            Tier::Business => None,
            Tier::Unlimited => None,
        };
        TierLimits {
            analytics_retention_days: retention,
            allow_custom_short_code: paid,
            allow_utm_parameters: paid,
            allow_query_forwarding: paid,
            allow_api_keys: paid,
        }
    }
}

/// The tier an organization is billed at: its billing account's stored tier,
/// Free when the account is missing or its tier name is unknown.
pub fn tier_or_free(stored: Option<&str>) -> (r: Tier)
    ensures
        r == match stored {
            Some(s) => match tier_from_name(s@) {
                Some(t) => t,
                None => Tier::Free,
            },
            None => Tier::Free,
        },
{
    match stored {
        Some(s) => match Tier::from_str_value(s) {
            Some(t) => t,
            None => Tier::Free,
        },
        None => Tier::Free,
    }
}

/// Stored tier names read back as the tier they name.
pub proof fn lemma_tier_name_roundtrip(t: Tier)
    ensures
        tier_from_name(tier_name(t)) == Some(t),
{
    reveal_strlit("free");
    reveal_strlit("pro");
    reveal_strlit("business");
    reveal_strlit("unlimited");
    assert("free"@[0] != "pro"@[0]);
    assert("free"@[0] != "business"@[0]);
    assert("free"@[0] != "unlimited"@[0]);
    assert("pro"@[0] != "business"@[0]);
    assert("pro"@[0] != "unlimited"@[0]);
    assert("business"@[0] != "unlimited"@[0]);
}

} // verus!
