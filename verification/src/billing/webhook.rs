//! Processing of the payment provider's subscription webhooks.
//!
//! The handler alternates database work with decisions. The decisions live in
//! [`WebhookMachine`]: the caller performs each [`WebhookAction`] it is handed
//! and feeds the result back as a [`StepInput`], until a reply comes out.
//! Error handling: 401 for a missing or invalid signature (no retry), 400 for a
//! payload that cannot be processed (no retry), 503 for transient failures (the
//! provider retries), 200 when the event was processed or intentionally skipped.
use crate::clock::{rfc3339_seconds, rfc3339_timestamp};
use crate::text::{chars_of, contains_chars, contains_seq, str_is};
use vstd::prelude::*;

verus! {

broadcast use vstd::string::group_string_axioms;

/// Seconds a processed webhook id is remembered (30 days).
pub const PROCESSED_TTL_SECONDS: i64 = 2592000;

/// Why a webhook was turned away before any subscription work, in the order
/// the handler checks.
#[derive(Debug, Clone, Copy, PartialEq, Eq, Structural)]
pub enum IntakeFailure {
    /// The signing secret is not configured.
    SecretMissing,
    /// No `webhook-signature` header.
    SignatureMissing,
    /// No `webhook-id` header.
    IdMissing,
    /// No `webhook-timestamp` header.
    TimestampMissing,
    /// The body could not be read.
    BodyUnreadable,
    /// The signature does not match, or could not be checked.
    SignatureInvalid,
    /// The body is not JSON.
    PayloadInvalid,
    /// The payload has no string `type`.
    TypeMissing,
    /// The database binding is unavailable.
    DatabaseUnavailable,
    /// This webhook id was processed before.
    Duplicate,
}

pub open spec fn intake_reply_of(f: IntakeFailure) -> ReplyView {
    match f {
        IntakeFailure::SecretMissing => ReplyView::Error {
            status: 503,
            message: "Webhook not configured"@,
        },
        IntakeFailure::SignatureMissing => ReplyView::Error {
            status: 401,
            message: "Missing signature"@,
        },
        IntakeFailure::IdMissing => ReplyView::Error {
            status: 401,
            message: "Missing webhook-id header"@,
        },
        IntakeFailure::TimestampMissing => ReplyView::Error {
            status: 401,
            message: "Missing webhook-timestamp header"@,
        },
        IntakeFailure::BodyUnreadable => ReplyView::Error {
            status: 503,
            message: "Failed to read request body"@,
        },
        IntakeFailure::SignatureInvalid => ReplyView::Error {
            status: 401,
            message: "Invalid signature"@,
        },
        IntakeFailure::PayloadInvalid => ReplyView::Error {
            status: 400,
            message: "Invalid payload"@,
        },
        IntakeFailure::TypeMissing => ReplyView::Error {
            status: 400,
            message: "Missing event type"@,
        },
        IntakeFailure::DatabaseUnavailable => ReplyView::Error {
            status: 503,
            message: "Service temporarily unavailable"@,
        },
        IntakeFailure::Duplicate => ReplyView::Duplicate,
    }
}

/// The answer to a webhook turned away at intake.
pub fn intake_reply(f: IntakeFailure) -> (r: WebhookReply)
    ensures
        r@ == intake_reply_of(f),
{
    match f {
        IntakeFailure::SecretMissing => WebhookReply::Error {
            status: 503,
            message: "Webhook not configured".to_string(),
        },
        IntakeFailure::SignatureMissing => WebhookReply::Error {
            status: 401,
            message: "Missing signature".to_string(),
        },
        IntakeFailure::IdMissing => WebhookReply::Error {
            status: 401,
            message: "Missing webhook-id header".to_string(),
        },
        IntakeFailure::TimestampMissing => WebhookReply::Error {
            status: 401,
            message: "Missing webhook-timestamp header".to_string(),
        },
        IntakeFailure::BodyUnreadable => WebhookReply::Error {
            status: 503,
            message: "Failed to read request body".to_string(),
        },
        IntakeFailure::SignatureInvalid => WebhookReply::Error {
            status: 401,
            message: "Invalid signature".to_string(),
        },
        IntakeFailure::PayloadInvalid => WebhookReply::Error {
            status: 400,
            message: "Invalid payload".to_string(),
        },
        IntakeFailure::TypeMissing => WebhookReply::Error {
            status: 400,
            message: "Missing event type".to_string(),
        },
        IntakeFailure::DatabaseUnavailable => WebhookReply::Error {
            status: 503,
            message: "Service temporarily unavailable".to_string(),
        },
        IntakeFailure::Duplicate => WebhookReply::Duplicate,
    }
}

/// The documented error strategy at intake: 401 exactly for signature
/// problems (the provider does not retry), 400 for unprocessable payloads,
/// 503 for transient failures (the provider retries), 200 for duplicates.
pub proof fn lemma_intake_strategy(f: IntakeFailure)
    ensures
        intake_reply_of(f) matches ReplyView::Error { status, .. } ==> (status == 401 <==> (f
            == IntakeFailure::SignatureMissing || f == IntakeFailure::IdMissing || f
            == IntakeFailure::TimestampMissing || f == IntakeFailure::SignatureInvalid)),
        intake_reply_of(f) matches ReplyView::Error { status, .. } ==> (status == 400 <==> (f
            == IntakeFailure::PayloadInvalid || f == IntakeFailure::TypeMissing)),
        intake_reply_of(f) is Duplicate <==> f == IntakeFailure::Duplicate,
{
}

/// The event kinds the handler tells apart.
#[derive(Debug, Clone, Copy, PartialEq, Eq, Structural)]
pub enum WebhookKind {
    /// `subscription.active` or `subscription.created`.
    Activated,
    /// `subscription.updated`.
    Updated,
    /// `subscription.uncanceled`.
    Uncanceled,
    /// `subscription.canceled`.
    Canceled,
    /// `subscription.revoked`.
    Revoked,
    /// Anything else: acknowledged without change.
    Other,
}

pub open spec fn webhook_kind_of(t: Seq<char>) -> WebhookKind {
    if t == "subscription.active"@ || t == "subscription.created"@ {
        WebhookKind::Activated
    } else if t == "subscription.updated"@ {
        WebhookKind::Updated
    } else if t == "subscription.uncanceled"@ {
        WebhookKind::Uncanceled
    } else if t == "subscription.canceled"@ {
        WebhookKind::Canceled
    } else if t == "subscription.revoked"@ {
        WebhookKind::Revoked
    } else {
        WebhookKind::Other
    }
}

/// Classifies an event's `type` field.
pub fn classify_webhook_event(t: &str) -> (r: WebhookKind)
    ensures
        r == webhook_kind_of(t@),
{
    if str_is(t, "subscription.active") || str_is(t, "subscription.created") {
        WebhookKind::Activated
    } else if str_is(t, "subscription.updated") {
        WebhookKind::Updated
    } else if str_is(t, "subscription.uncanceled") {
        WebhookKind::Uncanceled
    } else if str_is(t, "subscription.canceled") {
        WebhookKind::Canceled
    } else if str_is(t, "subscription.revoked") {
        WebhookKind::Revoked
    } else {
        WebhookKind::Other
    }
}

/// The fields of an event's `data` object that the handler reads; each is
/// `None` where the payload lacks it or holds a value of another JSON type.
#[derive(Debug, Clone)]
pub struct WebhookData {
    /// `data.id`
    pub id: Option<String>,
    /// `data.customer_id`
    pub customer_id: Option<String>,
    /// `data.customerId`
    pub customer_id_camel: Option<String>,
    /// `data.customer.external_id`
    pub external_id: Option<String>,
    /// `data.customer.externalId`
    pub external_id_camel: Option<String>,
    /// `data.status`
    pub status: Option<String>,
    /// `data.prices[0].id`
    pub first_price_id: Option<String>,
    /// `data.recurringInterval`
    pub recurring_interval: Option<String>,
    /// `data.amount`
    pub amount: Option<i64>,
    /// `data.currency`
    pub currency: Option<String>,
    /// `data.discount.name`
    pub discount_name: Option<String>,
    /// `data.current_period_start` (RFC 3339)
    pub current_period_start: Option<String>,
    /// `data.current_period_end` (RFC 3339)
    pub current_period_end: Option<String>,
    /// `data.cancel_at_period_end`
    pub cancel_at_period_end: Option<bool>,
    /// `data.ends_at` (RFC 3339)
    pub ends_at: Option<String>,
}

/// A subscription event with the handler's defaults applied.
#[derive(Debug, Clone)]
pub struct SubscriptionEvent {
    pub subscription_id: String,
    pub customer_id: String,
    pub external_id: String,
    pub status: String,
    pub price_id: String,
    pub interval: String,
    pub amount_cents: Option<i64>,
    pub currency: String,
    pub discount_name: Option<String>,
    pub period_start: i64,
    pub period_end: i64,
    pub cancel_at_period_end: bool,
    pub ends_at: Option<i64>,
}

/// The view of a [`SubscriptionEvent`].
pub struct EventView {
    pub subscription_id: Seq<char>,
    pub customer_id: Seq<char>,
    pub external_id: Seq<char>,
    pub status: Seq<char>,
    pub price_id: Seq<char>,
    pub interval: Seq<char>,
    pub amount_cents: Option<i64>,
    pub currency: Seq<char>,
    pub discount_name: Option<Seq<char>>,
    pub period_start: i64,
    pub period_end: i64,
    pub cancel_at_period_end: bool,
    pub ends_at: Option<i64>,
}

pub open spec fn opt_view(o: Option<String>) -> Option<Seq<char>> {
    match o {
        Some(s) => Some(s@),
        None => None,
    }
}

impl View for SubscriptionEvent {
    type V = EventView;

    open spec fn view(&self) -> EventView {
        EventView {
            subscription_id: self.subscription_id@,
            customer_id: self.customer_id@,
            external_id: self.external_id@,
            status: self.status@,
            price_id: self.price_id@,
            interval: self.interval@,
            amount_cents: self.amount_cents,
            currency: self.currency@,
            discount_name: opt_view(self.discount_name),
            period_start: self.period_start,
            period_end: self.period_end,
            cancel_at_period_end: self.cancel_at_period_end,
            ends_at: self.ends_at,
        }
    }
}

/// `o`, or `default` when absent.
pub open spec fn text_or(o: Option<String>, default: Seq<char>) -> Seq<char> {
    match o {
        Some(s) => s@,
        None => default,
    }
}

/// `a`, else `b`, else `default`.
pub open spec fn text_or2(a: Option<String>, b: Option<String>, default: Seq<char>) -> Seq<char> {
    match a {
        Some(s) => s@,
        None => text_or(b, default),
    }
}

/// An RFC 3339 field as a timestamp, 0 when absent or unreadable.
pub open spec fn time_or_zero(o: Option<String>) -> i64 {
    match o {
        Some(s) => match rfc3339_timestamp(s@) {
            Some(t) => t,
            None => 0,
        },
        None => 0,
    }
}

/// An optional RFC 3339 field as a timestamp.
pub open spec fn time_opt(o: Option<String>) -> Option<i64> {
    match o {
        Some(s) => rfc3339_timestamp(s@),
        None => None,
    }
}

/// The event that `data` describes for an event of kind `k`. Activation events
/// read only the snake_case customer fields; the others fall back to camelCase.
/// A missing status reads as `active` on updates and `canceled` on cancellations.
pub open spec fn event_of(k: WebhookKind, d: WebhookData) -> EventView {
    let activated = k == WebhookKind::Activated;
    EventView {
        subscription_id: text_or(d.id, ""@),
        customer_id: if activated {
            text_or(d.customer_id, ""@)
        } else {
            text_or2(d.customer_id, d.customer_id_camel, ""@)
        },
        external_id: if activated {
            text_or(d.external_id, ""@)
        } else {
            text_or2(d.external_id, d.external_id_camel, ""@)
        },
        status: match k {
            WebhookKind::Activated => "active"@,
            WebhookKind::Updated => text_or(d.status, "active"@),
            WebhookKind::Uncanceled => text_or(d.status, "active"@),
            WebhookKind::Canceled => text_or(d.status, "canceled"@),
            WebhookKind::Revoked => text_or(d.status, "canceled"@),
            WebhookKind::Other => ""@,
        },
        price_id: text_or(d.first_price_id, ""@),
        interval: text_or(d.recurring_interval, "month"@),
        amount_cents: d.amount,
        currency: text_or(d.currency, "usd"@),
        discount_name: opt_view(d.discount_name),
        period_start: time_or_zero(d.current_period_start),
        period_end: time_or_zero(d.current_period_end),
        cancel_at_period_end: match d.cancel_at_period_end {
            Some(b) => b,
            None => false,
        },
        ends_at: time_opt(d.ends_at),
    }
}

fn string_or(o: &Option<String>, default: &str) -> (r: String)
    ensures
        r@ == text_or(*o, default@),
{
    match o {
        Some(s) => s.clone(),
        None => default.to_string(),
    }
}

fn string_or2(a: &Option<String>, b: &Option<String>, default: &str) -> (r: String)
    ensures
        r@ == text_or2(*a, *b, default@),
{
    match a {
        Some(s) => s.clone(),
        None => string_or(b, default),
    }
}

fn time_field_or_zero(o: &Option<String>) -> (r: i64)
    ensures
        r == time_or_zero(*o),
{
    match o {
        Some(s) => match rfc3339_seconds(s.as_str()) {
            Some(t) => t,
            None => 0,
        },
        None => 0,
    }
}

fn time_field_opt(o: &Option<String>) -> (r: Option<i64>)
    ensures
        r == time_opt(*o),
{
    match o {
        Some(s) => rfc3339_seconds(s.as_str()),
        None => None,
    }
}

fn clone_opt(o: &Option<String>) -> (r: Option<String>)
    ensures
        opt_view(r) == opt_view(*o),
{
    match o {
        Some(s) => Some(s.clone()),
        None => None,
    }
}

/// Applies the handler's defaults to the raw event fields.
pub fn read_event(k: WebhookKind, d: &WebhookData) -> (r: SubscriptionEvent)
    ensures
        r@ == event_of(k, *d),
{
    let activated = matches!(k, WebhookKind::Activated);
    let customer_id = if activated {
        string_or(&d.customer_id, "")
    } else {
        string_or2(&d.customer_id, &d.customer_id_camel, "")
    };
    let external_id = if activated {
        string_or(&d.external_id, "")
    } else {
        string_or2(&d.external_id, &d.external_id_camel, "")
    };
    let status = match k {
        WebhookKind::Activated => "active".to_string(),
        WebhookKind::Updated => string_or(&d.status, "active"),
        WebhookKind::Uncanceled => string_or(&d.status, "active"),
        WebhookKind::Canceled => string_or(&d.status, "canceled"),
        WebhookKind::Revoked => string_or(&d.status, "canceled"),
        WebhookKind::Other => "".to_string(),
    };
    SubscriptionEvent {
        subscription_id: string_or(&d.id, ""),
        customer_id,
        external_id,
        status,
        price_id: string_or(&d.first_price_id, ""),
        interval: string_or(&d.recurring_interval, "month"),
        amount_cents: d.amount,
        currency: string_or(&d.currency, "usd"),
        discount_name: clone_opt(&d.discount_name),
        period_start: time_field_or_zero(&d.current_period_start),
        period_end: time_field_or_zero(&d.current_period_end),
        cancel_at_period_end: match d.cancel_at_period_end {
            Some(b) => b,
            None => false,
        },
        ends_at: time_field_opt(&d.ends_at),
    }
}

/// The tier a product grants, read from its name: `Pro` anywhere gives `pro`,
/// else `Business` gives `business`, else `free`.
pub open spec fn plan_of_product_name(name: Seq<char>) -> Seq<char> {
    if contains_seq(name, "Pro"@) {
        "pro"@
    } else if contains_seq(name, "Business"@) {
        "business"@
    } else {
        "free"@
    }
}

/// The tier a product grants (see [`plan_of_product_name`]).
pub fn plan_from_product_name(name: &str) -> (r: String)
    ensures
        r@ == plan_of_product_name(name@),
{
    let n = chars_of(name);
    let pro = chars_of("Pro");
    let business = chars_of("Business");
    if contains_chars(n.as_slice(), pro.as_slice()) {
        "pro".to_string()
    } else if contains_chars(n.as_slice(), business.as_slice()) {
        "business".to_string()
    } else {
        "free".to_string()
    }
}

/// Where the machine stands.
#[derive(Debug, Clone, Copy, PartialEq, Eq, Structural)]
pub enum Stage {
    /// Nothing done yet.
    Start,
    /// Waiting for the billing account found by customer id.
    AwaitAccount,
    /// Waiting for the cached product of the event's price.
    AwaitProduct,
    /// Waiting for the subscription upsert.
    AwaitUpsert,
    /// Waiting for a pending-cancellation write whose failure is tolerated.
    AwaitPendingTolerant,
    /// Waiting for a pending-cancellation write whose failure is transient.
    AwaitPendingRequired,
    /// Waiting for the subscription to be marked canceled.
    AwaitMarkCanceled,
    /// Waiting for the tier update.
    AwaitTier,
    /// Waiting for the customer id to be stored.
    AwaitCustomerId,
    /// Waiting for the event to be recorded as processed.
    AwaitProcessed,
    /// A reply has been given.
    Done,
}

/// The result of the last action, fed back into the machine.
#[derive(Debug, Clone)]
pub enum StepInput {
    /// Starts the machine.
    Begin,
    /// A billing account lookup found this id.
    AccountFound(String),
    /// A lookup found nothing.
    NotFound,
    /// The cached product for the price.
    Product { name: String, recurring_interval: Option<String> },
    /// The plan and interval the provider's catalog gives a price.
    Plan { plan: String, interval: String },
    /// A write succeeded.
    Done,
    /// The last action failed.
    Failed,
}

pub enum InputView {
    Begin,
    AccountFound(Seq<char>),
    NotFound,
    Product { name: Seq<char>, recurring_interval: Option<Seq<char>> },
    Plan { plan: Seq<char>, interval: Seq<char> },
    Done,
    Failed,
}

impl View for StepInput {
    type V = InputView;

    open spec fn view(&self) -> InputView {
        match self {
            StepInput::Begin => InputView::Begin,
            StepInput::AccountFound(s) => InputView::AccountFound(s@),
            StepInput::NotFound => InputView::NotFound,
            StepInput::Product { name, recurring_interval } => InputView::Product {
                name: name@,
                recurring_interval: opt_view(*recurring_interval),
            },
            StepInput::Plan { plan, interval } => InputView::Plan {
                plan: plan@,
                interval: interval@,
            },
            StepInput::Done => InputView::Done,
            StepInput::Failed => InputView::Failed,
        }
    }
}

/// The row written for a subscription.
#[derive(Debug, Clone)]
pub struct SubscriptionRecord {
    pub billing_account_id: String,
    pub subscription_id: String,
    pub customer_id: String,
    pub status: String,
    pub plan: String,
    pub interval: String,
    pub price_id: String,
    pub period_start: i64,
    pub period_end: i64,
    pub cancel_at_period_end: bool,
    pub amount_cents: Option<i64>,
    pub currency: String,
    pub discount_name: Option<String>,
    pub ends_at: Option<i64>,
    pub now: i64,
}

pub struct RecordView {
    pub billing_account_id: Seq<char>,
    pub subscription_id: Seq<char>,
    pub customer_id: Seq<char>,
    pub status: Seq<char>,
    pub plan: Seq<char>,
    pub interval: Seq<char>,
    pub price_id: Seq<char>,
    pub period_start: i64,
    pub period_end: i64,
    pub cancel_at_period_end: bool,
    pub amount_cents: Option<i64>,
    pub currency: Seq<char>,
    pub discount_name: Option<Seq<char>>,
    pub ends_at: Option<i64>,
    pub now: i64,
}

impl View for SubscriptionRecord {
    type V = RecordView;

    open spec fn view(&self) -> RecordView {
        RecordView {
            billing_account_id: self.billing_account_id@,
            subscription_id: self.subscription_id@,
            customer_id: self.customer_id@,
            status: self.status@,
            plan: self.plan@,
            interval: self.interval@,
            price_id: self.price_id@,
            period_start: self.period_start,
            period_end: self.period_end,
            cancel_at_period_end: self.cancel_at_period_end,
            amount_cents: self.amount_cents,
            currency: self.currency@,
            discount_name: opt_view(self.discount_name),
            ends_at: self.ends_at,
            now: self.now,
        }
    }
}

/// How the handler answers.
#[derive(Debug, Clone)]
pub enum WebhookReply {
    /// 200 `{"received": true}`
    Received,
    /// 200 `{"received": true, "duplicate": true}`
    Duplicate,
    /// An error status with a plain-text message.
    Error { status: u16, message: String },
}

pub enum ReplyView {
    Received,
    Duplicate,
    Error { status: u16, message: Seq<char> },
}

impl View for WebhookReply {
    type V = ReplyView;

    open spec fn view(&self) -> ReplyView {
        match self {
            WebhookReply::Received => ReplyView::Received,
            WebhookReply::Duplicate => ReplyView::Duplicate,
            WebhookReply::Error { status, message } => ReplyView::Error {
                status: *status,
                message: message@,
            },
        }
    }
}

/// What the caller must do next.
#[derive(Debug, Clone)]
pub enum WebhookAction {
    /// Answer the request; the machine is finished.
    Reply(WebhookReply),
    /// Find the billing account whose provider customer id is this.
    LookupAccount { customer_id: String },
    /// Find the cached product with this price id.
    LookupProduct { price_id: String },
    /// Insert or update the subscription row.
    Upsert(SubscriptionRecord),
    /// Set the billing account's tier.
    UpdateTier { billing_account_id: String, tier: String },
    /// Store the provider customer id on the billing account.
    StoreCustomerId { billing_account_id: String, customer_id: String },
    /// Mark the subscription as canceling at the end of its period.
    SetPendingCancellation { subscription_id: String, period_end: i64 },
    /// Clear a pending cancellation.
    ClearPendingCancellation { subscription_id: String },
    /// Mark the subscription canceled now.
    MarkCanceled { subscription_id: String, at: i64 },
    /// Remember the webhook id as processed for `ttl_seconds`.
    MarkProcessed { webhook_id: String, event_type: String, ttl_seconds: i64 },
    /// Resolve the plan of a price through the provider's product catalog.
    ResolvePlan { price_id: String },
    /// Give up and let the database error propagate.
    Abort,
    /// Nothing further: a reply was already given.
    Idle,
}

pub enum ActionView {
    Reply(ReplyView),
    LookupAccount { customer_id: Seq<char> },
    LookupProduct { price_id: Seq<char> },
    Upsert(RecordView),
    UpdateTier { billing_account_id: Seq<char>, tier: Seq<char> },
    StoreCustomerId { billing_account_id: Seq<char>, customer_id: Seq<char> },
    SetPendingCancellation { subscription_id: Seq<char>, period_end: i64 },
    ClearPendingCancellation { subscription_id: Seq<char> },
    MarkCanceled { subscription_id: Seq<char>, at: i64 },
    MarkProcessed { webhook_id: Seq<char>, event_type: Seq<char>, ttl_seconds: i64 },
    ResolvePlan { price_id: Seq<char> },
    Abort,
    Idle,
}

impl View for WebhookAction {
    type V = ActionView;

    open spec fn view(&self) -> ActionView {
        match self {
            WebhookAction::Reply(r) => ActionView::Reply(r@),
            WebhookAction::LookupAccount { customer_id } => ActionView::LookupAccount {
                customer_id: customer_id@,
            },
            WebhookAction::LookupProduct { price_id } => ActionView::LookupProduct {
                price_id: price_id@,
            },
            WebhookAction::Upsert(r) => ActionView::Upsert(r@),
            WebhookAction::UpdateTier { billing_account_id, tier } => ActionView::UpdateTier {
                billing_account_id: billing_account_id@,
                tier: tier@,
            },
            WebhookAction::StoreCustomerId { billing_account_id, customer_id } =>
                ActionView::StoreCustomerId {
                billing_account_id: billing_account_id@,
                customer_id: customer_id@,
            },
            WebhookAction::SetPendingCancellation { subscription_id, period_end } =>
                ActionView::SetPendingCancellation {
                subscription_id: subscription_id@,
                period_end: *period_end,
            },
            WebhookAction::ClearPendingCancellation { subscription_id } =>
                ActionView::ClearPendingCancellation { subscription_id: subscription_id@ },
            WebhookAction::MarkCanceled { subscription_id, at } => ActionView::MarkCanceled {
                subscription_id: subscription_id@,
                at: *at,
            },
            WebhookAction::MarkProcessed { webhook_id, event_type, ttl_seconds } =>
                ActionView::MarkProcessed {
                webhook_id: webhook_id@,
                event_type: event_type@,
                ttl_seconds: *ttl_seconds,
            },
            WebhookAction::ResolvePlan { price_id } => ActionView::ResolvePlan {
                price_id: price_id@,
            },
            WebhookAction::Abort => ActionView::Abort,
            WebhookAction::Idle => ActionView::Idle,
        }
    }
}

/// The decision state of one webhook.
pub struct WebhookMachine {
    pub kind: WebhookKind,
    pub webhook_id: String,
    pub event_type: String,
    pub event: SubscriptionEvent,
    pub now: i64,
    pub stage: Stage,
    pub billing_account_id: String,
    pub plan: String,
    pub plan_interval: String,
}

pub struct MachineView {
    pub kind: WebhookKind,
    pub webhook_id: Seq<char>,
    pub event_type: Seq<char>,
    pub event: EventView,
    pub now: i64,
    pub stage: Stage,
    pub billing_account_id: Seq<char>,
    pub plan: Seq<char>,
    pub plan_interval: Seq<char>,
}

impl View for WebhookMachine {
    type V = MachineView;

    open spec fn view(&self) -> MachineView {
        MachineView {
            kind: self.kind,
            webhook_id: self.webhook_id@,
            event_type: self.event_type@,
            event: self.event@,
            now: self.now,
            stage: self.stage,
            billing_account_id: self.billing_account_id@,
            plan: self.plan@,
            plan_interval: self.plan_interval@,
        }
    }
}

/// The reply for transient failures.
pub open spec fn unavailable() -> ActionView {
    ActionView::Reply(ReplyView::Error { status: 503, message: "Service temporarily unavailable"@ })
}

pub open spec fn with_stage(m: MachineView, s: Stage) -> MachineView {
    MachineView { stage: s, ..m }
}

pub open spec fn mark_processed(m: MachineView) -> (MachineView, ActionView) {
    (
        with_stage(m, Stage::AwaitProcessed),
        ActionView::MarkProcessed {
            webhook_id: m.webhook_id,
            event_type: m.event_type,
            ttl_seconds: PROCESSED_TTL_SECONDS,
        },
    )
}

/// Whether a cancellation takes effect now rather than at the period end.
pub open spec fn immediate_cancellation(e: EventView) -> bool {
    e.status == "canceled"@ || !e.cancel_at_period_end
}

/// The step once the billing account is known.
pub open spec fn after_account(m: MachineView) -> (MachineView, ActionView) {
    match m.kind {
        WebhookKind::Canceled | WebhookKind::Revoked => {
            if m.kind == WebhookKind::Canceled && !immediate_cancellation(m.event) {
                (
                    with_stage(m, Stage::AwaitPendingRequired),
                    ActionView::SetPendingCancellation {
                        subscription_id: m.event.subscription_id,
                        period_end: m.event.period_end,
                    },
                )
            } else {
                (
                    with_stage(m, Stage::AwaitMarkCanceled),
                    ActionView::MarkCanceled { subscription_id: m.event.subscription_id, at: m.now },
                )
            }
        },
        _ => (
            with_stage(m, Stage::AwaitProduct),
            ActionView::LookupProduct { price_id: m.event.price_id },
        ),
    }
}

/// The status written by the upsert.
pub open spec fn upsert_status(m: MachineView) -> Seq<char> {
    if m.kind == WebhookKind::Activated {
        "active"@
    } else {
        m.event.status
    }
}

/// The subscription row for the machine's event and chosen plan.
pub open spec fn record_of(m: MachineView) -> RecordView {
    RecordView {
        billing_account_id: m.billing_account_id,
        subscription_id: m.event.subscription_id,
        customer_id: m.event.customer_id,
        status: upsert_status(m),
        plan: m.plan,
        interval: m.plan_interval,
        price_id: m.event.price_id,
        period_start: m.event.period_start,
        period_end: m.event.period_end,
        cancel_at_period_end: m.event.cancel_at_period_end,
        amount_cents: m.event.amount_cents,
        currency: m.event.currency,
        discount_name: m.event.discount_name,
        ends_at: m.event.ends_at,
        now: m.now,
    }
}

/// After the optional pending-cancellation write of an update: the tier is
/// written only when the subscription is active.
pub open spec fn after_pending(m: MachineView) -> (MachineView, ActionView) {
    if m.event.status == "active"@ {
        (
            with_stage(m, Stage::AwaitTier),
            ActionView::UpdateTier { billing_account_id: m.billing_account_id, tier: m.plan },
        )
    } else {
        mark_processed(m)
    }
}

/// The step after the upsert succeeded.
pub open spec fn after_upsert(m: MachineView) -> (MachineView, ActionView) {
    if m.kind == WebhookKind::Activated {
        (
            with_stage(m, Stage::AwaitTier),
            ActionView::UpdateTier { billing_account_id: m.billing_account_id, tier: m.plan },
        )
    } else if m.event.cancel_at_period_end {
        (
            with_stage(m, Stage::AwaitPendingTolerant),
            ActionView::SetPendingCancellation {
                subscription_id: m.event.subscription_id,
                period_end: m.event.period_end,
            },
        )
    } else if m.kind == WebhookKind::Uncanceled {
        (
            with_stage(m, Stage::AwaitPendingTolerant),
            ActionView::ClearPendingCancellation { subscription_id: m.event.subscription_id },
        )
    } else {
        after_pending(m)
    }
}

/// One step of the webhook handler: the next state and action for an input.
pub open spec fn webhook_step(m: MachineView, i: InputView) -> (MachineView, ActionView) {
    let fail = (with_stage(m, Stage::Done), unavailable());
    match m.stage {
        Stage::Start => {
            if m.kind == WebhookKind::Other {
                mark_processed(m)
            } else if m.event.external_id.len() > 0 {
                after_account(MachineView { billing_account_id: m.event.external_id, ..m })
            } else {
                (
                    with_stage(m, Stage::AwaitAccount),
                    ActionView::LookupAccount { customer_id: m.event.customer_id },
                )
            }
        },
        Stage::AwaitAccount => match i {
            InputView::AccountFound(id) => after_account(
                MachineView { billing_account_id: id, ..m },
            ),
            InputView::NotFound => (
                with_stage(m, Stage::Done),
                ActionView::Reply(
                    ReplyView::Error { status: 400, message: "Missing billing account ID"@ },
                ),
            ),
            _ => fail,
        },
        Stage::AwaitProduct => match i {
            InputView::Product { name, recurring_interval } => {
                let m2 = MachineView {
                    plan: plan_of_product_name(name),
                    plan_interval: match recurring_interval {
                        Some(ri) => ri,
                        None => "month"@,
                    },
                    stage: Stage::AwaitUpsert,
                    ..m
                };
                (m2, ActionView::Upsert(record_of(m2)))
            },
            InputView::NotFound => {
                let m2 = MachineView {
                    plan: "free"@,
                    plan_interval: m.event.interval,
                    stage: Stage::AwaitUpsert,
                    ..m
                };
                (m2, ActionView::Upsert(record_of(m2)))
            },
            _ => fail,
        },
        Stage::AwaitUpsert => match i {
            InputView::Done => after_upsert(m),
            _ => fail,
        },
        Stage::AwaitPendingTolerant => after_pending(m),
        Stage::AwaitPendingRequired => match i {
            InputView::Done => mark_processed(m),
            _ => fail,
        },
        Stage::AwaitMarkCanceled => match i {
            InputView::Done => (
                with_stage(m, Stage::AwaitTier),
                ActionView::UpdateTier { billing_account_id: m.billing_account_id, tier: "free"@ },
            ),
            _ => fail,
        },
        Stage::AwaitTier => match i {
            InputView::Done => if m.kind == WebhookKind::Activated {
                (
                    with_stage(m, Stage::AwaitCustomerId),
                    ActionView::StoreCustomerId {
                        billing_account_id: m.billing_account_id,
                        customer_id: m.event.customer_id,
                    },
                )
            } else {
                mark_processed(m)
            },
            _ => fail,
        },
        Stage::AwaitCustomerId => match i {
            InputView::Done => mark_processed(m),
            _ => fail,
        },
        Stage::AwaitProcessed => (with_stage(m, Stage::Done), ActionView::Reply(ReplyView::Received)),
        Stage::Done => (m, ActionView::Idle),
    }
}

/// The machine before its first step.
pub open spec fn initial_machine(
    k: WebhookKind,
    webhook_id: Seq<char>,
    event_type: Seq<char>,
    d: WebhookData,
    now: i64,
) -> MachineView {
    MachineView {
        kind: k,
        webhook_id,
        event_type,
        event: event_of(k, d),
        now,
        stage: Stage::Start,
        billing_account_id: ""@,
        plan: ""@,
        plan_interval: ""@,
    }
}

impl WebhookMachine {
    /// A machine for one verified, non-duplicate event.
    pub fn new(webhook_id: &str, event_type: &str, data: &WebhookData, now: i64) -> (r: Self)
        ensures
            r@ == initial_machine(webhook_kind_of(event_type@), webhook_id@, event_type@, *data, now),
    {
        let kind = classify_webhook_event(event_type);
        WebhookMachine {
            kind,
            webhook_id: webhook_id.to_string(),
            event_type: event_type.to_string(),
            event: read_event(kind, data),
            now,
            stage: Stage::Start,
            billing_account_id: "".to_string(),
            plan: "".to_string(),
            plan_interval: "".to_string(),
        }
    }

    fn fail(&mut self) -> (a: WebhookAction)
        ensures
            final(self)@ == with_stage(old(self)@, Stage::Done),
            a@ == unavailable(),
    {
        self.stage = Stage::Done;
        WebhookAction::Reply(
            WebhookReply::Error {
                status: 503,
                message: "Service temporarily unavailable".to_string(),
            },
        )
    }

    fn mark_processed(&mut self) -> (a: WebhookAction)
        ensures
            (final(self)@, a@) == mark_processed(old(self)@),
    {
        self.stage = Stage::AwaitProcessed;
        WebhookAction::MarkProcessed {
            webhook_id: self.webhook_id.clone(),
            event_type: self.event_type.clone(),
            ttl_seconds: PROCESSED_TTL_SECONDS,
        }
    }

    fn after_account(&mut self) -> (a: WebhookAction)
        ensures
            (final(self)@, a@) == after_account(old(self)@),
    {
        match self.kind {
            WebhookKind::Canceled | WebhookKind::Revoked => {
                let immediate = str_is(self.event.status.as_str(), "canceled")
                    || !self.event.cancel_at_period_end;
                if matches!(self.kind, WebhookKind::Canceled) && !immediate {
                    self.stage = Stage::AwaitPendingRequired;
                    WebhookAction::SetPendingCancellation {
                        subscription_id: self.event.subscription_id.clone(),
                        period_end: self.event.period_end,
                    }
                } else {
                    self.stage = Stage::AwaitMarkCanceled;
                    WebhookAction::MarkCanceled {
                        subscription_id: self.event.subscription_id.clone(),
                        at: self.now,
                    }
                }
            },
            _ => {
                self.stage = Stage::AwaitProduct;
                WebhookAction::LookupProduct { price_id: self.event.price_id.clone() }
            },
        }
    }

    fn record(&self) -> (r: SubscriptionRecord)
        ensures
            r@ == record_of(self@),
    {
        let status = if matches!(self.kind, WebhookKind::Activated) {
            "active".to_string()
        } else {
            self.event.status.clone()
        };
        SubscriptionRecord {
            billing_account_id: self.billing_account_id.clone(),
            subscription_id: self.event.subscription_id.clone(),
            customer_id: self.event.customer_id.clone(),
            status,
            plan: self.plan.clone(),
            interval: self.plan_interval.clone(),
            price_id: self.event.price_id.clone(),
            period_start: self.event.period_start,
            period_end: self.event.period_end,
            cancel_at_period_end: self.event.cancel_at_period_end,
            amount_cents: self.event.amount_cents,
            currency: self.event.currency.clone(),
            discount_name: clone_opt(&self.event.discount_name),
            ends_at: self.event.ends_at,
            now: self.now,
        }
    }

    fn after_pending(&mut self) -> (a: WebhookAction)
        ensures
            (final(self)@, a@) == after_pending(old(self)@),
    {
        if str_is(self.event.status.as_str(), "active") {
            self.stage = Stage::AwaitTier;
            WebhookAction::UpdateTier {
                billing_account_id: self.billing_account_id.clone(),
                tier: self.plan.clone(),
            }
        } else {
            self.mark_processed()
        }
    }

    fn after_upsert(&mut self) -> (a: WebhookAction)
        ensures
            (final(self)@, a@) == after_upsert(old(self)@),
    {
        if matches!(self.kind, WebhookKind::Activated) {
            self.stage = Stage::AwaitTier;
            WebhookAction::UpdateTier {
                billing_account_id: self.billing_account_id.clone(),
                tier: self.plan.clone(),
            }
        } else if self.event.cancel_at_period_end {
            self.stage = Stage::AwaitPendingTolerant;
            WebhookAction::SetPendingCancellation {
                subscription_id: self.event.subscription_id.clone(),
                period_end: self.event.period_end,
            }
        } else if matches!(self.kind, WebhookKind::Uncanceled) {
            self.stage = Stage::AwaitPendingTolerant;
            WebhookAction::ClearPendingCancellation {
                subscription_id: self.event.subscription_id.clone(),
            }
        } else {
            self.after_pending()
        }
    }

    /// Advances the machine with the result of the previous action.
    pub fn step(&mut self, input: StepInput) -> (a: WebhookAction)
        ensures
            (final(self)@, a@) == webhook_step(old(self)@, input@),
    {
        match self.stage {
            Stage::Start => {
                if matches!(self.kind, WebhookKind::Other) {
                    self.mark_processed()
                } else if !self.event.external_id.as_str().is_empty() {
                    self.billing_account_id = self.event.external_id.clone();
                    self.after_account()
                } else {
                    self.stage = Stage::AwaitAccount;
                    WebhookAction::LookupAccount { customer_id: self.event.customer_id.clone() }
                }
            },
            Stage::AwaitAccount => match input {
                StepInput::AccountFound(id) => {
                    self.billing_account_id = id;
                    self.after_account()
                },
                StepInput::NotFound => {
                    self.stage = Stage::Done;
                    WebhookAction::Reply(
                        WebhookReply::Error {
                            status: 400,
                            message: "Missing billing account ID".to_string(),
                        },
                    )
                },
                _ => self.fail(),
            },
            Stage::AwaitProduct => match input {
                StepInput::Product { name, recurring_interval } => {
                    self.plan = plan_from_product_name(name.as_str());
                    self.plan_interval = match recurring_interval {
                        Some(ri) => ri,
                        None => "month".to_string(),
                    };
                    self.stage = Stage::AwaitUpsert;
                    WebhookAction::Upsert(self.record())
                },
                StepInput::NotFound => {
                    self.plan = "free".to_string();
                    self.plan_interval = self.event.interval.clone();
                    self.stage = Stage::AwaitUpsert;
                    WebhookAction::Upsert(self.record())
                },
                _ => self.fail(),
            },
            Stage::AwaitUpsert => match input {
                StepInput::Done => self.after_upsert(),
                _ => self.fail(),
            },
            Stage::AwaitPendingTolerant => self.after_pending(),
            Stage::AwaitPendingRequired => match input {
                StepInput::Done => self.mark_processed(),
                _ => self.fail(),
            },
            Stage::AwaitMarkCanceled => match input {
                StepInput::Done => {
                    self.stage = Stage::AwaitTier;
                    WebhookAction::UpdateTier {
                        billing_account_id: self.billing_account_id.clone(),
                        tier: "free".to_string(),
                    }
                },
                _ => self.fail(),
            },
            Stage::AwaitTier => match input {
                StepInput::Done => {
                    if matches!(self.kind, WebhookKind::Activated) {
                        self.stage = Stage::AwaitCustomerId;
                        WebhookAction::StoreCustomerId {
                            billing_account_id: self.billing_account_id.clone(),
                            customer_id: self.event.customer_id.clone(),
                        }
                    } else {
                        self.mark_processed()
                    }
                },
                _ => self.fail(),
            },
            Stage::AwaitCustomerId => match input {
                StepInput::Done => self.mark_processed(),
                _ => self.fail(),
            },
            Stage::AwaitProcessed => {
                self.stage = Stage::Done;
                WebhookAction::Reply(WebhookReply::Received)
            },
            Stage::Done => WebhookAction::Idle,
        }
    }
}


/// How many steps a stage is at most from the reply.
pub open spec fn stage_rank(s: Stage) -> nat {
    match s {
        Stage::Start => 11,
        Stage::AwaitAccount => 10,
        Stage::AwaitProduct => 9,
        Stage::AwaitUpsert => 8,
        Stage::AwaitPendingTolerant => 7,
        Stage::AwaitPendingRequired => 7,
        Stage::AwaitMarkCanceled => 6,
        Stage::AwaitTier => 5,
        Stage::AwaitCustomerId => 4,
        Stage::AwaitProcessed => 3,
        Stage::Done => 0,
    }
}

/// The tiers a subscription can grant.
pub open spec fn granted_tier(t: Seq<char>) -> bool {
    t == "free"@ || t == "pro"@ || t == "business"@
}

/// What holds of every state the machine reaches from [`initial_machine`].
pub open spec fn machine_inv(m: MachineView) -> bool {
    let k = m.kind;
    let plan_kind = k == WebhookKind::Activated || k == WebhookKind::Updated
        || k == WebhookKind::Uncanceled;
    &&& (m.stage == Stage::AwaitAccount ==> k != WebhookKind::Other)
    &&& (m.stage == Stage::AwaitProduct ==> plan_kind)
    &&& (m.stage == Stage::AwaitUpsert ==> plan_kind && granted_tier(m.plan))
    &&& (m.stage == Stage::AwaitPendingTolerant ==> plan_kind && k != WebhookKind::Activated
        && granted_tier(m.plan))
    &&& (m.stage == Stage::AwaitPendingRequired ==> k == WebhookKind::Canceled
        && !immediate_cancellation(m.event))
    &&& (m.stage == Stage::AwaitMarkCanceled ==> k == WebhookKind::Revoked || (k
        == WebhookKind::Canceled && immediate_cancellation(m.event)))
    &&& (m.stage == Stage::AwaitCustomerId ==> k == WebhookKind::Activated)
}

/// Applies the steps' inputs in order.
pub open spec fn run_steps(m: MachineView, inputs: Seq<InputView>) -> MachineView
    decreases inputs.len(),
{
    if inputs.len() == 0 {
        m
    } else {
        run_steps(webhook_step(m, inputs[0]).0, inputs.drop_first())
    }
}

/// How a verified delivery starts, given whether the store already records
/// its webhook id as processed: a recorded id is answered as a duplicate and
/// nothing else happens; a new one starts the machine.
pub open spec fn delivery_of(
    already_processed: bool,
    webhook_id: Seq<char>,
    event_type: Seq<char>,
    d: WebhookData,
    now: i64,
) -> Result<MachineView, ReplyView> {
    if already_processed {
        Err(ReplyView::Duplicate)
    } else {
        Ok(initial_machine(webhook_kind_of(event_type), webhook_id, event_type, d, now))
    }
}

/// Starts one verified delivery. `already_processed` is the store's answer to
/// whether this webhook id was processed before (a failed lookup is the
/// caller's error to propagate).
pub fn begin_delivery(
    already_processed: bool,
    webhook_id: &str,
    event_type: &str,
    data: &WebhookData,
    now: i64,
) -> (r: Result<WebhookMachine, WebhookReply>)
    ensures
        match r {
            Ok(m) => delivery_of(already_processed, webhook_id@, event_type@, *data, now) == Ok::<
                MachineView,
                ReplyView,
            >(m@),
            Err(reply) => delivery_of(already_processed, webhook_id@, event_type@, *data, now)
                == Err::<MachineView, ReplyView>(reply@),
        },
{
    if already_processed {
        Err(WebhookReply::Duplicate)
    } else {
        Ok(WebhookMachine::new(webhook_id, event_type, data, now))
    }
}

/// Delivering a webhook again once it was processed changes nothing: the
/// first delivery records its own webhook id (and is acknowledged only after
/// that), so with that id in the store of processed ids a redelivery of it,
/// whatever its payload, is answered as a duplicate and no machine runs, so
/// no write is made.
pub proof fn lemma_redelivery_is_duplicate(
    m: MachineView,
    i: InputView,
    processed: Set<Seq<char>>,
    event_type: Seq<char>,
    d: WebhookData,
    now: i64,
)
    requires
        webhook_step(m, i).1 is MarkProcessed,
    ensures
        webhook_step(m, i).1 matches ActionView::MarkProcessed { webhook_id, .. } && webhook_id
            == m.webhook_id && delivery_of(
            processed.insert(webhook_id).contains(m.webhook_id),
            m.webhook_id,
            event_type,
            d,
            now,
        ) == Err::<MachineView, ReplyView>(ReplyView::Duplicate),
{
}

/// A new machine satisfies the invariant.
pub proof fn lemma_initial_inv(
    k: WebhookKind,
    webhook_id: Seq<char>,
    event_type: Seq<char>,
    d: WebhookData,
    now: i64,
)
    ensures
        machine_inv(initial_machine(k, webhook_id, event_type, d, now)),
{
}

/// Every step keeps the invariant.
pub proof fn lemma_step_keeps_inv(m: MachineView, i: InputView)
    requires
        machine_inv(m),
    ensures
        machine_inv(webhook_step(m, i).0),
{
    reveal_strlit("free");
    reveal_strlit("pro");
    reveal_strlit("business");
}

/// A step never changes the event, its kind, its id or the clock reading.
pub proof fn lemma_step_keeps_event(m: MachineView, i: InputView)
    ensures
        webhook_step(m, i).0.kind == m.kind,
        webhook_step(m, i).0.webhook_id == m.webhook_id,
        webhook_step(m, i).0.event_type == m.event_type,
        webhook_step(m, i).0.event == m.event,
        webhook_step(m, i).0.now == m.now,
{
}

/// Each step before the reply moves strictly closer to it; once answered the
/// machine stays put and asks for nothing.
pub proof fn lemma_step_progress(m: MachineView, i: InputView)
    ensures
        m.stage != Stage::Done ==> stage_rank(webhook_step(m, i).0.stage) < stage_rank(m.stage),
        m.stage == Stage::Done ==> webhook_step(m, i) == (m, ActionView::Idle),
{
}

/// Whatever the database answers, a webhook is answered within eleven steps.
pub proof fn lemma_answered_within_rank(m: MachineView, inputs: Seq<InputView>)
    requires
        inputs.len() >= stage_rank(m.stage),
    ensures
        run_steps(m, inputs).stage == Stage::Done,
    decreases inputs.len(),
{
    if inputs.len() > 0 {
        lemma_step_progress(m, inputs[0]);
        lemma_answered_within_rank(webhook_step(m, inputs[0]).0, inputs.drop_first());
    }
}

/// A reply ends the machine, and only a reply or a finished machine does.
pub proof fn lemma_reply_ends(m: MachineView, i: InputView)
    ensures
        webhook_step(m, i).1 is Reply ==> webhook_step(m, i).0.stage == Stage::Done,
        webhook_step(m, i).0.stage == Stage::Done ==> (webhook_step(m, i).1 is Reply
            || m.stage == Stage::Done),
{
}

/// The event is acknowledged as received only right after it was recorded as
/// processed, and it is recorded under its own webhook id for thirty days.
pub proof fn lemma_received_after_processed(m: MachineView, i: InputView)
    ensures
        webhook_step(m, i).1 == ActionView::Reply(ReplyView::Received) ==> m.stage
            == Stage::AwaitProcessed,
        webhook_step(m, i).0.stage == Stage::AwaitProcessed && m.stage != Stage::AwaitProcessed
            ==> webhook_step(m, i).1 == (ActionView::MarkProcessed {
            webhook_id: m.webhook_id,
            event_type: m.event_type,
            ttl_seconds: PROCESSED_TTL_SECONDS,
        }),
{
}

/// Tier changes: updates and uncancellations grant a tier only to an active
/// subscription; cancellations and revocations only ever set `free`, and a
/// cancellation that waits for the period end changes nothing now; every tier
/// written is `free`, `pro` or `business`.
pub proof fn lemma_tier_changes(m: MachineView, i: InputView)
    requires
        machine_inv(m),
    ensures
        webhook_step(m, i).1 matches ActionView::UpdateTier { tier, .. } ==> {
            &&& granted_tier(tier)
            &&& m.kind != WebhookKind::Other
            &&& (m.kind == WebhookKind::Updated || m.kind == WebhookKind::Uncanceled ==> m.event.status
                == "active"@)
            &&& (m.kind == WebhookKind::Canceled || m.kind == WebhookKind::Revoked ==> tier
                == "free"@)
        },
        m.kind == WebhookKind::Canceled && !immediate_cancellation(m.event) ==> !(webhook_step(
            m,
            i,
        ).1 is UpdateTier) && !(webhook_step(m, i).1 is MarkCanceled),
{
    reveal_strlit("free");
    reveal_strlit("pro");
    reveal_strlit("business");
    reveal_strlit("active");
}

/// An unknown billing account is the only permanent failure after intake:
/// every other error reply is the transient 503.
pub proof fn lemma_error_replies(m: MachineView, i: InputView)
    ensures
        webhook_step(m, i).1 matches ActionView::Reply(ReplyView::Error { status, .. }) ==> (
        status == 503 || (status == 400 && m.stage == Stage::AwaitAccount && i
            is NotFound)),
{
}

/// The webhook handler answers every failure itself: it never hands a store
/// error on to its caller.
pub proof fn lemma_never_aborts(m: MachineView, i: InputView)
    ensures
        !(webhook_step(m, i).1 is Abort),
{
}

/// How a cancellation is carried out once its billing account is known:
/// an event whose subscription status is already `canceled`, or that does
/// not wait for the period end, marks the subscription canceled now and then
/// sets the account's tier to `free`, whatever `cancel_at_period_end` says;
/// only a still-active subscription canceling at its period end is left
/// pending, and then no tier changes now.
pub proof fn lemma_cancellation_timing(m: MachineView, i: InputView)
    requires
        m.kind == WebhookKind::Canceled,
        m.stage == Stage::Start && m.event.external_id.len() > 0 || m.stage == Stage::AwaitAccount
            && i is AccountFound,
    ensures
        ({
            let account = if m.stage == Stage::Start {
                m.event.external_id
            } else {
                i->AccountFound_0
            };
            let (m1, a1) = webhook_step(m, i);
            (m.event.status == "canceled"@ || !m.event.cancel_at_period_end) ==> {
                &&& a1 == ActionView::MarkCanceled { subscription_id: m.event.subscription_id, at: m.now }
                &&& webhook_step(m1, InputView::Done).1 == (ActionView::UpdateTier {
                    billing_account_id: account,
                    tier: "free"@,
                })
            }
        }),
        (m.event.status != "canceled"@ && m.event.cancel_at_period_end) ==> webhook_step(m, i).1
            == (ActionView::SetPendingCancellation {
            subscription_id: m.event.subscription_id,
            period_end: m.event.period_end,
        }),
{
}

} // verus!
