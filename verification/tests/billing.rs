use rushomon::billing::checkout::{
    checkout_cancel_url, checkout_success_url, choose_checkout, portal_customer, portal_return_url,
    status_flags, summarize_downgrades, PortalRefusal, CheckoutError, DowngradeOutcome, StatusFlags,
};
use rushomon::billing::internal::{
    check_internal_secret, classify_update_event, update_intake_reply, UpdateBody, UpdateIntake,
    UpdateKind, UpdateMachine,
};
use rushomon::billing::ownership::{forced_transfer_target, transfer_recipient};
use rushomon::billing::quota::{current_month_key, month_key, next_reset, next_reset_report};
use rushomon::billing::webhook::{
    classify_webhook_event, intake_reply, plan_from_product_name, read_event, IntakeFailure,
    StepInput, WebhookAction, WebhookData, WebhookKind, WebhookMachine, WebhookReply,
    PROCESSED_TTL_SECONDS,
};
use rushomon::settings::Settings;

fn data(external_id: Option<&str>, status: Option<&str>, cancel_at_period_end: Option<bool>) -> WebhookData {
    WebhookData {
        id: Some("sub_1".to_string()),
        customer_id: Some("cus_1".to_string()),
        customer_id_camel: None,
        external_id: external_id.map(|s| s.to_string()),
        external_id_camel: None,
        status: status.map(|s| s.to_string()),
        first_price_id: Some("price_1".to_string()),
        recurring_interval: None,
        amount: Some(900),
        currency: None,
        discount_name: None,
        current_period_start: Some("2024-01-01T00:00:00Z".to_string()),
        current_period_end: Some("2024-02-01T00:00:00Z".to_string()),
        cancel_at_period_end,
        ends_at: None,
    }
}

fn error_of(a: &WebhookAction) -> Option<(u16, String)> {
    match a {
        WebhookAction::Reply(WebhookReply::Error { status, message }) => Some((*status, message.clone())),
        _ => None,
    }
}

#[test]
fn webhook_event_kinds() {
    assert_eq!(classify_webhook_event("subscription.active"), WebhookKind::Activated);
    assert_eq!(classify_webhook_event("subscription.created"), WebhookKind::Activated);
    assert_eq!(classify_webhook_event("subscription.updated"), WebhookKind::Updated);
    assert_eq!(classify_webhook_event("subscription.uncanceled"), WebhookKind::Uncanceled);
    assert_eq!(classify_webhook_event("subscription.canceled"), WebhookKind::Canceled);
    assert_eq!(classify_webhook_event("subscription.revoked"), WebhookKind::Revoked);
    assert_eq!(classify_webhook_event("order.created"), WebhookKind::Other);
}

#[test]
fn webhook_event_defaults_and_dates() {
    let e = read_event(WebhookKind::Updated, &data(Some("ba_1"), None, None));
    assert_eq!(e.status, "active");
    assert_eq!(e.currency, "usd");
    assert_eq!(e.interval, "month");
    assert_eq!(e.period_start, 1704067200);
    assert_eq!(e.period_end, 1706745600);
    assert!(!e.cancel_at_period_end);
    let c = read_event(WebhookKind::Canceled, &data(Some("ba_1"), None, None));
    assert_eq!(c.status, "canceled");
    let mut bad = data(Some("ba_1"), None, None);
    bad.current_period_end = Some("not a date".to_string());
    assert_eq!(read_event(WebhookKind::Updated, &bad).period_end, 0);
    let mut camel = data(None, None, None);
    camel.external_id_camel = Some("ba_camel".to_string());
    assert_eq!(read_event(WebhookKind::Updated, &camel).external_id, "ba_camel");
    assert_eq!(read_event(WebhookKind::Activated, &camel).external_id, "");
}

#[test]
fn webhook_plan_from_product_name() {
    assert_eq!(plan_from_product_name("Rushomon Pro"), "pro");
    assert_eq!(plan_from_product_name("Business Annual"), "business");
    assert_eq!(plan_from_product_name("Pro Business"), "pro");
    assert_eq!(plan_from_product_name("Starter"), "free");
}

#[test]
fn webhook_activation_run() {
    let mut m = WebhookMachine::new("wh_1", "subscription.created", &data(Some("ba_1"), None, None), 1704000000);
    match m.step(StepInput::Begin) {
        WebhookAction::LookupProduct { price_id } => assert_eq!(price_id, "price_1"),
        other => panic!("unexpected {:?}", other),
    }
    match m.step(StepInput::Product { name: "Rushomon Pro".to_string(), recurring_interval: Some("year".to_string()) }) {
        WebhookAction::Upsert(r) => {
            assert_eq!(r.billing_account_id, "ba_1");
            assert_eq!(r.plan, "pro");
            assert_eq!(r.interval, "year");
            assert_eq!(r.status, "active");
            assert_eq!(r.amount_cents, Some(900));
            assert_eq!(r.now, 1704000000);
        }
        other => panic!("unexpected {:?}", other),
    }
    match m.step(StepInput::Done) {
        WebhookAction::UpdateTier { billing_account_id, tier } => {
            assert_eq!(billing_account_id, "ba_1");
            assert_eq!(tier, "pro");
        }
        other => panic!("unexpected {:?}", other),
    }
    match m.step(StepInput::Done) {
        WebhookAction::StoreCustomerId { billing_account_id, customer_id } => {
            assert_eq!(billing_account_id, "ba_1");
            assert_eq!(customer_id, "cus_1");
        }
        other => panic!("unexpected {:?}", other),
    }
    match m.step(StepInput::Done) {
        WebhookAction::MarkProcessed { webhook_id, event_type, ttl_seconds } => {
            assert_eq!(webhook_id, "wh_1");
            assert_eq!(event_type, "subscription.created");
            assert_eq!(ttl_seconds, PROCESSED_TTL_SECONDS);
            assert_eq!(ttl_seconds, 30 * 24 * 60 * 60);
        }
        other => panic!("unexpected {:?}", other),
    }
    assert!(matches!(m.step(StepInput::Done), WebhookAction::Reply(WebhookReply::Received)));
    assert!(matches!(m.step(StepInput::Done), WebhookAction::Idle));
}

#[test]
fn webhook_missing_account_is_400() {
    let mut m = WebhookMachine::new("wh_2", "subscription.active", &data(None, None, None), 1);
    match m.step(StepInput::Begin) {
        WebhookAction::LookupAccount { customer_id } => assert_eq!(customer_id, "cus_1"),
        other => panic!("unexpected {:?}", other),
    }
    let a = m.step(StepInput::NotFound);
    assert_eq!(error_of(&a), Some((400, "Missing billing account ID".to_string())));
}

#[test]
fn webhook_account_lookup_by_customer() {
    let mut m = WebhookMachine::new("wh_3", "subscription.updated", &data(None, Some("active"), Some(false)), 1);
    assert!(matches!(m.step(StepInput::Begin), WebhookAction::LookupAccount { .. }));
    match m.step(StepInput::AccountFound("ba_found".to_string())) {
        WebhookAction::LookupProduct { .. } => {}
        other => panic!("unexpected {:?}", other),
    }
    match m.step(StepInput::NotFound) {
        WebhookAction::Upsert(r) => {
            assert_eq!(r.billing_account_id, "ba_found");
            assert_eq!(r.plan, "free");
            assert_eq!(r.interval, "month");
        }
        other => panic!("unexpected {:?}", other),
    }
}

#[test]
fn webhook_update_not_active_keeps_tier() {
    let mut m = WebhookMachine::new("wh_4", "subscription.updated", &data(Some("ba_1"), Some("past_due"), Some(false)), 5);
    m.step(StepInput::Begin);
    match m.step(StepInput::Product { name: "Business".to_string(), recurring_interval: None }) {
        WebhookAction::Upsert(r) => {
            assert_eq!(r.status, "past_due");
            assert_eq!(r.plan, "business");
            assert_eq!(r.interval, "month");
        }
        other => panic!("unexpected {:?}", other),
    }
    assert!(matches!(m.step(StepInput::Done), WebhookAction::MarkProcessed { .. }));
    assert!(matches!(m.step(StepInput::Done), WebhookAction::Reply(WebhookReply::Received)));
}

#[test]
fn webhook_update_with_pending_cancellation() {
    let mut m = WebhookMachine::new("wh_5", "subscription.updated", &data(Some("ba_1"), Some("active"), Some(true)), 5);
    m.step(StepInput::Begin);
    m.step(StepInput::Product { name: "Pro".to_string(), recurring_interval: None });
    match m.step(StepInput::Done) {
        WebhookAction::SetPendingCancellation { subscription_id, period_end } => {
            assert_eq!(subscription_id, "sub_1");
            assert_eq!(period_end, 1706745600);
        }
        other => panic!("unexpected {:?}", other),
    }
    // A failed pending-cancellation write is tolerated here.
    match m.step(StepInput::Failed) {
        WebhookAction::UpdateTier { tier, .. } => assert_eq!(tier, "pro"),
        other => panic!("unexpected {:?}", other),
    }
}

#[test]
fn webhook_uncanceled_clears_pending() {
    let mut m = WebhookMachine::new("wh_6", "subscription.uncanceled", &data(Some("ba_1"), Some("active"), Some(false)), 5);
    m.step(StepInput::Begin);
    m.step(StepInput::Product { name: "Pro".to_string(), recurring_interval: None });
    match m.step(StepInput::Done) {
        WebhookAction::ClearPendingCancellation { subscription_id } => assert_eq!(subscription_id, "sub_1"),
        other => panic!("unexpected {:?}", other),
    }
    assert!(matches!(m.step(StepInput::Done), WebhookAction::UpdateTier { .. }));
}

#[test]
fn webhook_cancel_at_period_end_waits() {
    let mut m = WebhookMachine::new("wh_7", "subscription.canceled", &data(Some("ba_1"), Some("active"), Some(true)), 5);
    match m.step(StepInput::Begin) {
        WebhookAction::SetPendingCancellation { period_end, .. } => assert_eq!(period_end, 1706745600),
        other => panic!("unexpected {:?}", other),
    }
    // Here the write is required: a failure is transient.
    let a = m.step(StepInput::Failed);
    assert_eq!(error_of(&a), Some((503, "Service temporarily unavailable".to_string())));
}

#[test]
fn webhook_immediate_cancel_downgrades() {
    let mut m = WebhookMachine::new("wh_8", "subscription.canceled", &data(Some("ba_1"), None, None), 77);
    match m.step(StepInput::Begin) {
        WebhookAction::MarkCanceled { subscription_id, at } => {
            assert_eq!(subscription_id, "sub_1");
            assert_eq!(at, 77);
        }
        other => panic!("unexpected {:?}", other),
    }
    match m.step(StepInput::Done) {
        WebhookAction::UpdateTier { tier, .. } => assert_eq!(tier, "free"),
        other => panic!("unexpected {:?}", other),
    }
    assert!(matches!(m.step(StepInput::Done), WebhookAction::MarkProcessed { .. }));
}

#[test]
fn webhook_revoked_downgrades_even_when_pending() {
    let mut m = WebhookMachine::new("wh_9", "subscription.revoked", &data(Some("ba_1"), Some("active"), Some(true)), 77);
    assert!(matches!(m.step(StepInput::Begin), WebhookAction::MarkCanceled { .. }));
}

#[test]
fn webhook_other_event_acknowledged() {
    let mut m = WebhookMachine::new("wh_10", "checkout.created", &data(None, None, None), 77);
    assert!(matches!(m.step(StepInput::Begin), WebhookAction::MarkProcessed { .. }));
    assert!(matches!(m.step(StepInput::Done), WebhookAction::Reply(WebhookReply::Received)));
}

#[test]
fn webhook_transient_failure_is_503() {
    let mut m = WebhookMachine::new("wh_11", "subscription.created", &data(Some("ba_1"), None, None), 77);
    m.step(StepInput::Begin);
    m.step(StepInput::NotFound);
    let a = m.step(StepInput::Failed);
    assert_eq!(error_of(&a), Some((503, "Service temporarily unavailable".to_string())));
    assert!(matches!(m.step(StepInput::Done), WebhookAction::Idle));
}

#[test]
fn webhook_answered_within_eleven_steps() {
    let inputs = [StepInput::Begin, StepInput::Failed];
    for kind in ["subscription.created", "subscription.updated", "subscription.canceled", "x"] {
        let mut m = WebhookMachine::new("wh", kind, &data(Some("ba"), Some("active"), Some(true)), 1);
        let mut replied = false;
        for step in 0..11 {
            let input = if step == 0 { inputs[0].clone() } else { StepInput::Done };
            if let WebhookAction::Reply(_) = m.step(input) {
                replied = true;
                break;
            }
        }
        assert!(replied, "{} not answered", kind);
        let _ = &inputs[1];
    }
}

#[test]
fn webhook_intake_replies() {
    let expect = [
        (IntakeFailure::SecretMissing, 503, "Webhook not configured"),
        (IntakeFailure::SignatureMissing, 401, "Missing signature"),
        (IntakeFailure::IdMissing, 401, "Missing webhook-id header"),
        (IntakeFailure::TimestampMissing, 401, "Missing webhook-timestamp header"),
        (IntakeFailure::BodyUnreadable, 503, "Failed to read request body"),
        (IntakeFailure::SignatureInvalid, 401, "Invalid signature"),
        (IntakeFailure::PayloadInvalid, 400, "Invalid payload"),
        (IntakeFailure::TypeMissing, 400, "Missing event type"),
        (IntakeFailure::DatabaseUnavailable, 503, "Service temporarily unavailable"),
    ];
    for (f, status, message) in expect {
        match intake_reply(f) {
            WebhookReply::Error { status: s, message: m } => {
                assert_eq!(s, status);
                assert_eq!(m, message);
            }
            other => panic!("unexpected {:?}", other),
        }
    }
    assert!(matches!(intake_reply(IntakeFailure::Duplicate), WebhookReply::Duplicate));
}

fn body(kind_fields: Option<&str>) -> UpdateBody {
    UpdateBody {
        subscription_id: Some("sub_9".to_string()),
        customer_id: Some("cus_9".to_string()),
        billing_account_id: kind_fields.map(|s| s.to_string()),
        status: None,
        price_id: Some("price_9".to_string()),
        interval: Some("year".to_string()),
        current_period_start: Some(10),
        current_period_end: Some(20),
        cancel_at_period_end: Some(true),
        amount: None,
        currency: Some("eur".to_string()),
        discount_name: Some("FOUNDER".to_string()),
    }
}

#[test]
fn internal_update_kinds_and_secret() {
    assert_eq!(classify_update_event("subscription_activated"), UpdateKind::Activated);
    assert_eq!(classify_update_event("subscription_created"), UpdateKind::Activated);
    assert_eq!(classify_update_event("subscription_updated"), UpdateKind::Updated);
    assert_eq!(classify_update_event("subscription_revoked"), UpdateKind::Canceled);
    assert_eq!(classify_update_event(""), UpdateKind::Other);
    assert_eq!(check_internal_secret(None, "x"), Some(UpdateIntake::SecretMissing));
    assert_eq!(check_internal_secret(Some("s3cret"), "s3cret"), None);
    assert_eq!(check_internal_secret(Some("s3cret"), "s3cret!"), Some(UpdateIntake::SecretMismatch));
    assert_eq!(check_internal_secret(Some("s3cret"), ""), Some(UpdateIntake::SecretMismatch));
    match update_intake_reply(UpdateIntake::SecretMismatch) {
        WebhookReply::Error { status, message } => {
            assert_eq!(status, 401);
            assert_eq!(message, "Unauthorized");
        }
        other => panic!("unexpected {:?}", other),
    }
}

#[test]
fn internal_activation_run() {
    let mut m = UpdateMachine::new("subscription_activated", &body(Some("ba_9")), 99);
    assert!(matches!(m.step(StepInput::Begin), WebhookAction::LookupProduct { .. }));
    match m.step(StepInput::Failed) {
        WebhookAction::Upsert(r) => {
            assert_eq!(r.plan, "free");
            assert_eq!(r.interval, "year");
            assert_eq!(r.status, "active");
            assert_eq!(r.period_end, 0);
            assert!(!r.cancel_at_period_end);
            assert_eq!(r.currency, "eur");
            assert_eq!(r.discount_name, Some("FOUNDER".to_string()));
        }
        other => panic!("unexpected {:?}", other),
    }
    assert!(matches!(m.step(StepInput::Done), WebhookAction::UpdateTier { .. }));
    assert!(matches!(m.step(StepInput::Done), WebhookAction::StoreCustomerId { .. }));
    assert!(matches!(m.step(StepInput::Done), WebhookAction::Reply(WebhookReply::Received)));
}

#[test]
fn internal_update_without_account_is_400() {
    let mut m = UpdateMachine::new("subscription_updated", &body(None), 99);
    assert!(matches!(m.step(StepInput::Begin), WebhookAction::ResolvePlan { .. }));
    let a = m.step(StepInput::Plan { plan: "pro".to_string(), interval: "month".to_string() });
    assert_eq!(error_of(&a), Some((400, "No billing account ID provided".to_string())));
}

#[test]
fn internal_update_writes_status_and_period() {
    let mut m = UpdateMachine::new("subscription_updated", &body(Some("ba_9")), 99);
    m.step(StepInput::Begin);
    match m.step(StepInput::Plan { plan: "business".to_string(), interval: "month".to_string() }) {
        WebhookAction::Upsert(r) => {
            assert_eq!(r.status, "active");
            assert_eq!(r.period_start, 10);
            assert_eq!(r.period_end, 20);
            assert!(r.cancel_at_period_end);
            assert_eq!(r.plan, "business");
        }
        other => panic!("unexpected {:?}", other),
    }
    match m.step(StepInput::Done) {
        WebhookAction::UpdateTier { billing_account_id, tier } => {
            assert_eq!(billing_account_id, "ba_9");
            assert_eq!(tier, "business");
        }
        other => panic!("unexpected {:?}", other),
    }
    assert!(matches!(m.step(StepInput::Failed), WebhookAction::Abort));
}

#[test]
fn internal_billing_unconfigured_is_503() {
    let mut m = UpdateMachine::new("subscription_updated", &body(Some("ba_9")), 99);
    m.step(StepInput::Begin);
    let a = m.step(StepInput::Failed);
    assert_eq!(error_of(&a), Some((503, "Billing not configured".to_string())));
}

#[test]
fn internal_cancellation() {
    let mut m = UpdateMachine::new("subscription_canceled", &body(Some("ba_9")), 42);
    match m.step(StepInput::Begin) {
        WebhookAction::MarkCanceled { subscription_id, at } => {
            assert_eq!(subscription_id, "sub_9");
            assert_eq!(at, 42);
        }
        other => panic!("unexpected {:?}", other),
    }
    match m.step(StepInput::Done) {
        WebhookAction::UpdateTier { tier, .. } => assert_eq!(tier, "free"),
        other => panic!("unexpected {:?}", other),
    }
    let mut none = UpdateMachine::new("subscription_canceled", &body(None), 42);
    assert!(matches!(none.step(StepInput::Begin), WebhookAction::Reply(WebhookReply::Received)));
}

fn settings(pairs: &[(&str, &str)]) -> Settings {
    let mut s = Settings::new();
    for (k, v) in pairs {
        s.insert(k.to_string(), v.to_string());
    }
    s
}

#[test]
fn checkout_choices() {
    let s = settings(&[
        ("product_pro_monthly_id", "prod_pm"),
        ("founder_pricing_active", "true"),
        ("active_discount_pro_monthly", "disc_pm"),
        ("product_business_annual_id", "prod_ba"),
        ("active_discount_business_annual", ""),
    ]);
    let c = choose_checkout(Some("pro_monthly"), &s).unwrap();
    assert_eq!(c.product_id, "prod_pm");
    assert_eq!(c.coupon_id, Some("disc_pm".to_string()));
    let c = choose_checkout(Some("business_annual"), &s).unwrap();
    assert_eq!(c.product_id, "prod_ba");
    assert_eq!(c.coupon_id, None);
    assert_eq!(choose_checkout(None, &s).unwrap_err(), CheckoutError::PlanRequired);
    assert_eq!(choose_checkout(Some("gold"), &s).unwrap_err(), CheckoutError::InvalidPlan);
    let e = choose_checkout(Some("pro_annual"), &s).unwrap_err();
    assert_eq!(e, CheckoutError::PlanNotConfigured);
    assert_eq!(e.status(), 503);
    assert_eq!(e.message(), "Plan not configured");
    assert_eq!(CheckoutError::PlanRequired.message(), "plan is required");
    let off = settings(&[("product_pro_monthly_id", "prod_pm"), ("founder_pricing_active", "false"), ("active_discount_pro_monthly", "disc_pm")]);
    assert_eq!(choose_checkout(Some("pro_monthly"), &off).unwrap().coupon_id, None);
}

#[test]
fn settings_last_row_wins() {
    let s = settings(&[("product_pro_monthly_id", "old"), ("product_pro_monthly_id", "new")]);
    assert_eq!(s.get("product_pro_monthly_id"), Some("new".to_string()));
    assert_eq!(s.get("missing"), None);
}

#[test]
fn billing_urls_and_portal() {
    assert_eq!(checkout_success_url("https://app.example"), "https://app.example/billing/success?session_id={CHECKOUT_SESSION_ID}");
    assert_eq!(checkout_cancel_url("https://app.example"), "https://app.example/billing/cancelled");
    assert_eq!(portal_return_url("https://app.example"), "https://app.example/billing");
    assert_eq!(portal_customer(Some(&Some("cus_1".to_string()))), Ok("cus_1".to_string()));
    let no_customer = PortalRefusal {
        status: 404,
        message: "No billing account found. Please create a subscription first.",
    };
    assert_eq!(portal_customer(Some(&Some(String::new()))), Err(no_customer));
    assert_eq!(portal_customer(Some(&None)), Err(no_customer));
    assert_eq!(
        portal_customer(None),
        Err(PortalRefusal { status: 404, message: "No billing account found" })
    );
}

#[test]
fn downgrade_tally() {
    let s = summarize_downgrades(&vec![
        DowngradeOutcome::Downgraded,
        DowngradeOutcome::TierFailed,
        DowngradeOutcome::Downgraded,
        DowngradeOutcome::FinalizeFailed,
    ]);
    assert_eq!(s.processed, 4);
    assert_eq!(s.success, 2);
    assert_eq!(s.errors, 2);
    let empty = summarize_downgrades(&vec![]);
    assert_eq!((empty.processed, empty.success, empty.errors), (0, 0, 0));
}

#[test]
fn monthly_counter_keys() {
    assert_eq!(month_key(2024, 3), "2024-03");
    assert_eq!(month_key(2024, 11), "2024-11");
    // 2024-03-15T12:00:00Z
    assert_eq!(current_month_key(1710504000), "2024-03");
    // The next reset is the first of the next month...
    assert_eq!(next_reset(1710504000), 1711929600);
    // In December the reset is January 1st of the next year.
    // 2024-12-10T00:00:00Z -> 2025-01-01T00:00:00Z
    assert_eq!(next_reset(1733788800), 1735689600);
    assert_eq!(next_reset_report(1710504000), ("2024-04-01T00:00:00+00:00".to_string(), 1711929600));
}

#[test]
fn ownership_transfer_inputs() {
    assert_eq!(transfer_recipient("  Alice@Example.COM "), Ok("alice@example.com".to_string()));
    assert_eq!(transfer_recipient("   "), Err("to_email is required"));
    assert_eq!(forced_transfer_target(""), Err("to_user_id is required"));
    assert_eq!(forced_transfer_target("u1"), Ok(()));
}

#[test]
fn billing_status_flags() {
    assert_eq!(
        status_flags("u1", "u1", Some(1)),
        StatusFlags { is_billing_owner: true, cancel_at_period_end: true }
    );
    assert_eq!(
        status_flags("u1", "u2", Some(0)),
        StatusFlags { is_billing_owner: false, cancel_at_period_end: false }
    );
    assert_eq!(
        status_flags("u1", "u1", None),
        StatusFlags { is_billing_owner: true, cancel_at_period_end: false }
    );
    assert!(status_flags("u1", "u1", Some(-3)).cancel_at_period_end);
}
