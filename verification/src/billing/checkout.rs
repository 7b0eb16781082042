//! Checkout and customer-portal decisions, and the expiry downgrade tally.
use crate::settings::{pairs_lookup, Settings};
use crate::text::str_is;
use vstd::prelude::*;

verus! {

broadcast use vstd::string::group_string_axioms;

/// The settings key holding the product id of a plan.
pub open spec fn product_key(plan: Seq<char>) -> Option<Seq<char>> {
    if plan == "pro_monthly"@ {
        Some("product_pro_monthly_id"@)
    } else if plan == "pro_annual"@ {
        Some("product_pro_annual_id"@)
    } else if plan == "business_monthly"@ {
        Some("product_business_monthly_id"@)
    } else if plan == "business_annual"@ {
        Some("product_business_annual_id"@)
    } else {
        None
    }
}

/// The settings key holding the founder discount of a plan.
pub open spec fn discount_key(plan: Seq<char>) -> Seq<char> {
    if plan == "pro_monthly"@ {
        "active_discount_pro_monthly"@
    } else if plan == "pro_annual"@ {
        "active_discount_pro_annual"@
    } else if plan == "business_monthly"@ {
        "active_discount_business_monthly"@
    } else if plan == "business_annual"@ {
        "active_discount_business_annual"@
    } else {
        ""@
    }
}

/// Why a checkout request is refused before the provider is called.
#[derive(Debug, Clone, Copy, PartialEq, Eq, Structural)]
pub enum CheckoutError {
    /// 400: the body has no string `plan`.
    PlanRequired,
    /// 400: `plan` is none of the four plans.
    InvalidPlan,
    /// 503: the plan's product id is not in the settings.
    PlanNotConfigured,
}

impl CheckoutError {
    pub open spec fn status_spec(self) -> u16 {
        match self {
            CheckoutError::PlanNotConfigured => 503,
            _ => 400,
        }
    }

    /// The HTTP status of the refusal.
    pub fn status(&self) -> (r: u16)
        ensures
            r == self.status_spec(),
    {
        match self {
            CheckoutError::PlanNotConfigured => 503,
            _ => 400,
        }
    }

    /// The message of the refusal.
    pub fn message(&self) -> (r: &'static str)
        ensures
            r@ == match *self {
                CheckoutError::PlanRequired => "plan is required"@,
                CheckoutError::InvalidPlan => "Invalid plan"@,
                CheckoutError::PlanNotConfigured => "Plan not configured"@,
            },
    {
        match self {
            CheckoutError::PlanRequired => "plan is required",
            CheckoutError::InvalidPlan => "Invalid plan",
            CheckoutError::PlanNotConfigured => "Plan not configured",
        }
    }
}

/// What the checkout session is created for.
#[derive(Debug, Clone)]
pub struct CheckoutChoice {
    pub product_id: String,
    pub coupon_id: Option<String>,
}

/// The coupon applied: the plan's founder discount while founder pricing is
/// active (`founder_pricing_active` is `true`) and the discount is non-empty.
pub open spec fn coupon_of(settings: Seq<(Seq<char>, Seq<char>)>, plan: Seq<char>) -> Option<
    Seq<char>,
> {
    if pairs_lookup(settings, "founder_pricing_active"@) == Some("true"@) {
        match pairs_lookup(settings, discount_key(plan)) {
            Some(d) => if d.len() > 0 {
                Some(d)
            } else {
                None
            },
            None => None,
        }
    } else {
        None
    }
}

fn product_key_of(plan: &str) -> (r: Option<&'static str>)
    ensures
        match r {
            Some(k) => product_key(plan@) == Some(k@),
            None => product_key(plan@) is None,
        },
{
    if str_is(plan, "pro_monthly") {
        Some("product_pro_monthly_id")
    } else if str_is(plan, "pro_annual") {
        Some("product_pro_annual_id")
    } else if str_is(plan, "business_monthly") {
        Some("product_business_monthly_id")
    } else if str_is(plan, "business_annual") {
        Some("product_business_annual_id")
    } else {
        None
    }
}

fn discount_key_of(plan: &str) -> (r: &'static str)
    ensures
        r@ == discount_key(plan@),
{
    if str_is(plan, "pro_monthly") {
        "active_discount_pro_monthly"
    } else if str_is(plan, "pro_annual") {
        "active_discount_pro_annual"
    } else if str_is(plan, "business_monthly") {
        "active_discount_business_monthly"
    } else if str_is(plan, "business_annual") {
        "active_discount_business_annual"
    } else {
        ""
    }
}

/// Picks the product and coupon for a requested plan from the settings.
pub fn choose_checkout(plan: Option<&str>, settings: &Settings) -> (r: Result<
    CheckoutChoice,
    CheckoutError,
>)
    ensures
        match plan {
            None => r == Err::<CheckoutChoice, CheckoutError>(CheckoutError::PlanRequired),
            Some(p) => match product_key(p@) {
                None => r == Err::<CheckoutChoice, CheckoutError>(CheckoutError::InvalidPlan),
                Some(k) => match pairs_lookup(settings@, k) {
                    None => r == Err::<CheckoutChoice, CheckoutError>(
                        CheckoutError::PlanNotConfigured,
                    ),
                    Some(id) => r matches Ok(c) && c.product_id@ == id && match c.coupon_id {
                        Some(cid) => coupon_of(settings@, p@) == Some(cid@),
                        None => coupon_of(settings@, p@) is None,
                    },
                },
            },
        },
{
    let p = match plan {
        None => return Err(CheckoutError::PlanRequired),
        Some(p) => p,
    };
    let key = match product_key_of(p) {
        None => return Err(CheckoutError::InvalidPlan),
        Some(k) => k,
    };
    let product_id = match settings.get(key) {
        None => return Err(CheckoutError::PlanNotConfigured),
        Some(id) => id,
    };
    let coupon_id = if settings.is_true("founder_pricing_active") {
        match settings.get(discount_key_of(p)) {
            Some(d) => if !d.as_str().is_empty() {
                Some(d)
            } else {
                None
            },
            None => None,
        }
    } else {
        None
    };
    Ok(CheckoutChoice { product_id, coupon_id })
}

/// `frontend` followed by `suffix`.
pub fn frontend_path(frontend: &str, suffix: &str) -> (r: String)
    ensures
        r@ == frontend@ + suffix@,
{
    let mut s = frontend.to_string();
    s.append(suffix);
    s
}

/// Where the provider sends the buyer after paying.
pub fn checkout_success_url(frontend: &str) -> (r: String)
    ensures
        r@ == frontend@ + "/billing/success?session_id={CHECKOUT_SESSION_ID}"@,
{
    frontend_path(frontend, "/billing/success?session_id={CHECKOUT_SESSION_ID}")
}

/// Where the provider sends the buyer after giving up.
pub fn checkout_cancel_url(frontend: &str) -> (r: String)
    ensures
        r@ == frontend@ + "/billing/cancelled"@,
{
    frontend_path(frontend, "/billing/cancelled")
}

/// Where the customer portal returns to.
pub fn portal_return_url(frontend: &str) -> (r: String)
    ensures
        r@ == frontend@ + "/billing"@,
{
    frontend_path(frontend, "/billing")
}

/// Why the customer portal cannot be opened: always 404, with its message.
#[derive(Debug, Clone, Copy, PartialEq, Eq)]
pub struct PortalRefusal {
    pub status: u16,
    pub message: &'static str,
}

/// The provider customer id the portal is opened for. `account_customer_id`
/// is `None` when the caller has no billing account, else the account's
/// stored customer id. No account is refused with 404 "No billing account
/// found"; an account without a (non-empty) customer id with 404 "No billing
/// account found. Please create a subscription first.".
pub fn portal_customer(account_customer_id: Option<&Option<String>>) -> (r: Result<String, PortalRefusal>)
    ensures
        match account_customer_id {
            None => r matches Err(e) && e.status == 404 && e.message@ == "No billing account found"@,
            Some(Some(id)) => if id@.len() > 0 {
                r matches Ok(c) && c@ == id@
            } else {
                r matches Err(e) && e.status == 404 && e.message@
                    == "No billing account found. Please create a subscription first."@
            },
            Some(None) => r matches Err(e) && e.status == 404 && e.message@
                == "No billing account found. Please create a subscription first."@,
        },
{
    proof {
        reveal_strlit("No billing account found");
        reveal_strlit("No billing account found. Please create a subscription first.");
    }
    let no_customer = PortalRefusal {
        status: 404,
        message: "No billing account found. Please create a subscription first.",
    };
    match account_customer_id {
        None => Err(PortalRefusal { status: 404, message: "No billing account found" }),
        Some(Some(id)) => if !id.as_str().is_empty() {
            Ok(id.clone())
        } else {
            Err(no_customer)
        },
        Some(None) => Err(no_customer),
    }
}

/// How one expired pending cancellation fared in the downgrade job.
#[derive(Debug, Clone, Copy, PartialEq, Eq, Structural)]
pub enum DowngradeOutcome {
    /// Tier set to free and the subscription finalized.
    Downgraded,
    /// Setting the tier failed.
    TierFailed,
    /// Finalizing the subscription failed.
    FinalizeFailed,
}

/// The job's summary: rows seen, rows downgraded, rows that failed.
#[derive(Debug, Clone, Copy, PartialEq, Eq, Structural)]
pub struct DowngradeSummary {
    pub processed: u64,
    pub success: u32,
    pub errors: u32,
}

pub open spec fn count_downgraded(s: Seq<DowngradeOutcome>) -> nat
    decreases s.len(),
{
    if s.len() == 0 {
        0
    } else {
        count_downgraded(s.drop_last()) + if s.last() == DowngradeOutcome::Downgraded {
            1nat
        } else {
            0nat
        }
    }
}

/// Tallies the downgrade job.
pub fn summarize_downgrades(outcomes: &Vec<DowngradeOutcome>) -> (r: DowngradeSummary)
    requires
        outcomes.len() <= u32::MAX,
    ensures
        r.processed == outcomes.len(),
        r.success == count_downgraded(outcomes@),
        r.errors == outcomes.len() - count_downgraded(outcomes@),
{
    let mut success: u32 = 0;
    let mut errors: u32 = 0;
    let mut i: usize = 0;
    while i < outcomes.len()
        invariant
            i <= outcomes.len() <= u32::MAX,
            success == count_downgraded(outcomes@.subrange(0, i as int)),
            success + errors == i,
        decreases outcomes.len() - i,
    {
        assert(outcomes@.subrange(0, i + 1).drop_last() =~= outcomes@.subrange(0, i as int));
        if outcomes[i] == DowngradeOutcome::Downgraded {
            success = success + 1;
        } else {
            errors = errors + 1;
        }
        i = i + 1;
    }
    assert(outcomes@.subrange(0, i as int) =~= outcomes@);
    DowngradeSummary { processed: outcomes.len() as u64, success, errors }
}

/// The two flags of the billing status reply.
#[derive(Debug, Clone, Copy, PartialEq, Eq)]
pub struct StatusFlags {
    /// The caller owns the billing account.
    pub is_billing_owner: bool,
    /// The subscription ends with its current period.
    pub cancel_at_period_end: bool,
}

/// The billing status flags: ownership compares the account's owner with the
/// caller; the stored cancel flag is a number, non-zero meaning set, and a
/// missing flag (or no subscription at all, passed as `None`) reads as unset.
pub fn status_flags(owner_user_id: &str, user_id: &str, stored_cancel: Option<i64>) -> (r: StatusFlags)
    ensures
        r.is_billing_owner == (owner_user_id@ == user_id@),
        r.cancel_at_period_end == (stored_cancel matches Some(n) && n != 0),
{
    let owner = str_is(owner_user_id, user_id);
    let cancel = match stored_cancel {
        Some(n) => n != 0,
        None => false,
    };
    StatusFlags { is_billing_owner: owner, cancel_at_period_end: cancel }
}

} // verus!
