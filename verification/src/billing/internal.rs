//! The internal subscription-update endpoint: the same subscription changes as
//! the provider webhook, posted by a trusted internal service that proves
//! itself with a shared secret.
use crate::billing::webhook::{
    opt_view, plan_of_product_name, plan_from_product_name, ActionView, InputView, RecordView,
    ReplyView, StepInput, SubscriptionRecord, WebhookAction, WebhookReply,
};
use crate::secrets::secrets_match;
use crate::text::str_is;
use vstd::prelude::*;

verus! {

broadcast use vstd::string::group_string_axioms;

/// The event kinds the endpoint tells apart.
#[derive(Debug, Clone, Copy, PartialEq, Eq, Structural)]
pub enum UpdateKind {
    /// `subscription_activated` or `subscription_created`.
    Activated,
    /// `subscription_updated`.
    Updated,
    /// `subscription_canceled` or `subscription_revoked`.
    Canceled,
    /// Anything else: acknowledged without change.
    Other,
}

pub open spec fn update_kind_of(t: Seq<char>) -> UpdateKind {
    if t == "subscription_activated"@ || t == "subscription_created"@ {
        UpdateKind::Activated
    } else if t == "subscription_updated"@ {
        UpdateKind::Updated
    } else if t == "subscription_canceled"@ || t == "subscription_revoked"@ {
        UpdateKind::Canceled
    } else {
        UpdateKind::Other
    }
}

/// Classifies the body's `event_type`.
pub fn classify_update_event(t: &str) -> (r: UpdateKind)
    ensures
        r == update_kind_of(t@),
{
    if str_is(t, "subscription_activated") || str_is(t, "subscription_created") {
        UpdateKind::Activated
    } else if str_is(t, "subscription_updated") {
        UpdateKind::Updated
    } else if str_is(t, "subscription_canceled") || str_is(t, "subscription_revoked") {
        UpdateKind::Canceled
    } else {
        UpdateKind::Other
    }
}

/// Why a request was turned away before any subscription work.
#[derive(Debug, Clone, Copy, PartialEq, Eq, Structural)]
pub enum UpdateIntake {
    /// The shared secret is not configured.
    SecretMissing,
    /// The provided secret differs from the configured one.
    SecretMismatch,
    /// The body is not JSON.
    BodyInvalid,
}

pub open spec fn update_intake_reply_of(f: UpdateIntake) -> ReplyView {
    match f {
        UpdateIntake::SecretMissing => ReplyView::Error {
            status: 503,
            message: "Internal endpoint not configured"@,
        },
        UpdateIntake::SecretMismatch => ReplyView::Error { status: 401, message: "Unauthorized"@ },
        UpdateIntake::BodyInvalid => ReplyView::Error {
            status: 400,
            message: "Invalid request body"@,
        },
    }
}

/// The answer to a request turned away at intake.
pub fn update_intake_reply(f: UpdateIntake) -> (r: WebhookReply)
    ensures
        r@ == update_intake_reply_of(f),
{
    match f {
        UpdateIntake::SecretMissing => WebhookReply::Error {
            status: 503,
            message: "Internal endpoint not configured".to_string(),
        },
        UpdateIntake::SecretMismatch => WebhookReply::Error {
            status: 401,
            message: "Unauthorized".to_string(),
        },
        UpdateIntake::BodyInvalid => WebhookReply::Error {
            status: 400,
            message: "Invalid request body".to_string(),
        },
    }
}

/// Checks the `X-Internal-Secret` header (empty when absent) against the
/// configured secret (`None` when not configured), in constant time.
pub fn check_internal_secret(expected: Option<&str>, provided: &str) -> (r: Option<UpdateIntake>)
    ensures
        r == match expected {
            None => Some(UpdateIntake::SecretMissing),
            Some(e) => if provided@ == e@ {
                None
            } else {
                Some(UpdateIntake::SecretMismatch)
            },
        },
{
    match expected {
        None => Some(UpdateIntake::SecretMissing),
        Some(e) => if secrets_match(provided, e) {
            None
        } else {
            Some(UpdateIntake::SecretMismatch)
        },
    }
}

/// The body fields the endpoint reads; each is `None` where the body lacks it
/// or holds a value of another JSON type.
#[derive(Debug, Clone)]
pub struct UpdateBody {
    pub subscription_id: Option<String>,
    pub customer_id: Option<String>,
    pub billing_account_id: Option<String>,
    pub status: Option<String>,
    pub price_id: Option<String>,
    pub interval: Option<String>,
    pub current_period_start: Option<i64>,
    pub current_period_end: Option<i64>,
    pub cancel_at_period_end: Option<bool>,
    pub amount: Option<i64>,
    pub currency: Option<String>,
    /// `discount.name`
    pub discount_name: Option<String>,
}

/// The body with the endpoint's defaults applied.
#[derive(Debug, Clone)]
pub struct UpdateEvent {
    pub subscription_id: String,
    pub customer_id: String,
    pub billing_account_id: String,
    pub status: String,
    pub price_id: String,
    pub interval: String,
    pub period_start: i64,
    pub period_end: i64,
    pub cancel_at_period_end: bool,
    pub amount_cents: Option<i64>,
    pub currency: String,
    pub discount_name: Option<String>,
}

pub struct UpdateEventView {
    pub subscription_id: Seq<char>,
    pub customer_id: Seq<char>,
    pub billing_account_id: Seq<char>,
    pub status: Seq<char>,
    pub price_id: Seq<char>,
    pub interval: Seq<char>,
    pub period_start: i64,
    pub period_end: i64,
    pub cancel_at_period_end: bool,
    pub amount_cents: Option<i64>,
    pub currency: Seq<char>,
    pub discount_name: Option<Seq<char>>,
}

impl View for UpdateEvent {
    type V = UpdateEventView;

    open spec fn view(&self) -> UpdateEventView {
        UpdateEventView {
            subscription_id: self.subscription_id@,
            customer_id: self.customer_id@,
            billing_account_id: self.billing_account_id@,
            status: self.status@,
            price_id: self.price_id@,
            interval: self.interval@,
            period_start: self.period_start,
            period_end: self.period_end,
            cancel_at_period_end: self.cancel_at_period_end,
            amount_cents: self.amount_cents,
            currency: self.currency@,
            discount_name: opt_view(self.discount_name),
        }
    }
}

pub open spec fn or_text(o: Option<String>, d: Seq<char>) -> Seq<char> {
    match o {
        Some(s) => s@,
        None => d,
    }
}

pub open spec fn or_i64(o: Option<i64>, d: i64) -> i64 {
    match o {
        Some(v) => v,
        None => d,
    }
}

/// The event a body describes: a missing status reads as `active`, a missing
/// interval as `month`, a missing currency as `usd`, missing numbers as 0.
pub open spec fn update_event_of(b: UpdateBody) -> UpdateEventView {
    UpdateEventView {
        subscription_id: or_text(b.subscription_id, ""@),
        customer_id: or_text(b.customer_id, ""@),
        billing_account_id: or_text(b.billing_account_id, ""@),
        status: or_text(b.status, "active"@),
        price_id: or_text(b.price_id, ""@),
        interval: or_text(b.interval, "month"@),
        period_start: or_i64(b.current_period_start, 0),
        period_end: or_i64(b.current_period_end, 0),
        cancel_at_period_end: match b.cancel_at_period_end {
            Some(v) => v,
            None => false,
        },
        amount_cents: b.amount,
        currency: or_text(b.currency, "usd"@),
        discount_name: opt_view(b.discount_name),
    }
}

fn text_or_default(o: &Option<String>, d: &str) -> (r: String)
    ensures
        r@ == or_text(*o, d@),
{
    match o {
        Some(s) => s.clone(),
        None => d.to_string(),
    }
}

/// Applies the defaults to a body.
pub fn read_update_event(b: &UpdateBody) -> (r: UpdateEvent)
    ensures
        r@ == update_event_of(*b),
{
    UpdateEvent {
        subscription_id: text_or_default(&b.subscription_id, ""),
        customer_id: text_or_default(&b.customer_id, ""),
        billing_account_id: text_or_default(&b.billing_account_id, ""),
        status: text_or_default(&b.status, "active"),
        price_id: text_or_default(&b.price_id, ""),
        interval: text_or_default(&b.interval, "month"),
        period_start: match b.current_period_start {
            Some(v) => v,
            None => 0,
        },
        period_end: match b.current_period_end {
            Some(v) => v,
            None => 0,
        },
        cancel_at_period_end: match b.cancel_at_period_end {
            Some(v) => v,
            None => false,
        },
        amount_cents: b.amount,
        currency: text_or_default(&b.currency, "usd"),
        discount_name: match &b.discount_name {
            Some(s) => Some(s.clone()),
            None => None,
        },
    }
}

/// Where the update machine stands.
#[derive(Debug, Clone, Copy, PartialEq, Eq, Structural)]
pub enum UpdateStage {
    Start,
    /// Waiting for the cached product of the price (activations).
    AwaitProduct,
    /// Waiting for the plan the provider's catalog gives the price (updates).
    AwaitPlan,
    AwaitUpsert,
    AwaitTier,
    AwaitCustomerId,
    AwaitMarkCanceled,
    Done,
}

/// The decision state of one internal update.
pub struct UpdateMachine {
    pub kind: UpdateKind,
    pub event: UpdateEvent,
    pub now: i64,
    pub stage: UpdateStage,
    pub plan: String,
    pub plan_interval: String,
}

pub struct UpdateMachineView {
    pub kind: UpdateKind,
    pub event: UpdateEventView,
    pub now: i64,
    pub stage: UpdateStage,
    pub plan: Seq<char>,
    pub plan_interval: Seq<char>,
}

impl View for UpdateMachine {
    type V = UpdateMachineView;

    open spec fn view(&self) -> UpdateMachineView {
        UpdateMachineView {
            kind: self.kind,
            event: self.event@,
            now: self.now,
            stage: self.stage,
            plan: self.plan@,
            plan_interval: self.plan_interval@,
        }
    }
}

pub open spec fn at_stage(m: UpdateMachineView, s: UpdateStage) -> UpdateMachineView {
    UpdateMachineView { stage: s, ..m }
}

pub open spec fn received() -> ActionView {
    ActionView::Reply(ReplyView::Received)
}

/// The row an activation or update writes. Activations write status `active`
/// and no period; updates write the event's status and period.
pub open spec fn update_record_of(m: UpdateMachineView) -> RecordView {
    let activated = m.kind == UpdateKind::Activated;
    RecordView {
        billing_account_id: m.event.billing_account_id,
        subscription_id: m.event.subscription_id,
        customer_id: m.event.customer_id,
        status: if activated {
            "active"@
        } else {
            m.event.status
        },
        plan: m.plan,
        interval: m.plan_interval,
        price_id: m.event.price_id,
        period_start: if activated {
            0
        } else {
            m.event.period_start
        },
        period_end: if activated {
            0
        } else {
            m.event.period_end
        },
        cancel_at_period_end: if activated {
            false
        } else {
            m.event.cancel_at_period_end
        },
        amount_cents: m.event.amount_cents,
        currency: m.event.currency,
        discount_name: m.event.discount_name,
        ends_at: None,
        now: m.now,
    }
}

/// Once the plan is known: without a billing account id the request is
/// refused, otherwise the subscription row is written.
pub open spec fn with_plan(m: UpdateMachineView, plan: Seq<char>, interval: Seq<char>) -> (
    UpdateMachineView,
    ActionView,
) {
    let m2 = UpdateMachineView { plan, plan_interval: interval, ..m };
    if m.event.billing_account_id.len() == 0 {
        (
            at_stage(m2, UpdateStage::Done),
            ActionView::Reply(
                ReplyView::Error { status: 400, message: "No billing account ID provided"@ },
            ),
        )
    } else {
        let m3 = at_stage(m2, UpdateStage::AwaitUpsert);
        (m3, ActionView::Upsert(update_record_of(m3)))
    }
}

/// One step of the endpoint. A failed database write ends the request with
/// [`ActionView::Abort`]; a failed product lookup counts as no product.
pub open spec fn update_step(m: UpdateMachineView, i: InputView) -> (UpdateMachineView, ActionView) {
    let abort = (at_stage(m, UpdateStage::Done), ActionView::Abort);
    match m.stage {
        UpdateStage::Start => match m.kind {
            UpdateKind::Activated => (
                at_stage(m, UpdateStage::AwaitProduct),
                ActionView::LookupProduct { price_id: m.event.price_id },
            ),
            UpdateKind::Updated => (
                at_stage(m, UpdateStage::AwaitPlan),
                ActionView::ResolvePlan { price_id: m.event.price_id },
            ),
            UpdateKind::Canceled => if m.event.billing_account_id.len() > 0 {
                (
                    at_stage(m, UpdateStage::AwaitMarkCanceled),
                    ActionView::MarkCanceled { subscription_id: m.event.subscription_id, at: m.now },
                )
            } else {
                (at_stage(m, UpdateStage::Done), received())
            },
            UpdateKind::Other => (at_stage(m, UpdateStage::Done), received()),
        },
        UpdateStage::AwaitProduct => match i {
            InputView::Product { name, recurring_interval } => with_plan(
                m,
                plan_of_product_name(name),
                match recurring_interval {
                    Some(ri) => ri,
                    None => "month"@,
                },
            ),
            _ => with_plan(m, "free"@, m.event.interval),
        },
        UpdateStage::AwaitPlan => match i {
            InputView::Plan { plan, interval } => with_plan(m, plan, interval),
            InputView::NotFound => with_plan(m, "free"@, m.event.interval),
            _ => (
                at_stage(m, UpdateStage::Done),
                ActionView::Reply(ReplyView::Error { status: 503, message: "Billing not configured"@ }),
            ),
        },
        UpdateStage::AwaitUpsert => match i {
            InputView::Done => (
                at_stage(m, UpdateStage::AwaitTier),
                ActionView::UpdateTier {
                    billing_account_id: m.event.billing_account_id,
                    tier: m.plan,
                },
            ),
            _ => abort,
        },
        UpdateStage::AwaitMarkCanceled => match i {
            InputView::Done => (
                at_stage(m, UpdateStage::AwaitTier),
                ActionView::UpdateTier {
                    billing_account_id: m.event.billing_account_id,
                    tier: "free"@,
                },
            ),
            _ => abort,
        },
        UpdateStage::AwaitTier => match i {
            InputView::Done => if m.kind == UpdateKind::Activated {
                (
                    at_stage(m, UpdateStage::AwaitCustomerId),
                    ActionView::StoreCustomerId {
                        billing_account_id: m.event.billing_account_id,
                        customer_id: m.event.customer_id,
                    },
                )
            } else {
                (at_stage(m, UpdateStage::Done), received())
            },
            _ => abort,
        },
        UpdateStage::AwaitCustomerId => match i {
            InputView::Done => (at_stage(m, UpdateStage::Done), received()),
            _ => abort,
        },
        UpdateStage::Done => (m, ActionView::Idle),
    }
}

pub open spec fn initial_update_machine(k: UpdateKind, b: UpdateBody, now: i64) -> UpdateMachineView {
    UpdateMachineView {
        kind: k,
        event: update_event_of(b),
        now,
        stage: UpdateStage::Start,
        plan: ""@,
        plan_interval: ""@,
    }
}

impl UpdateMachine {
    /// A machine for one authenticated request.
    pub fn new(event_type: &str, body: &UpdateBody, now: i64) -> (r: Self)
        ensures
            r@ == initial_update_machine(update_kind_of(event_type@), *body, now),
    {
        UpdateMachine {
            kind: classify_update_event(event_type),
            event: read_update_event(body),
            now,
            stage: UpdateStage::Start,
            plan: "".to_string(),
            plan_interval: "".to_string(),
        }
    }

    fn record(&self) -> (r: SubscriptionRecord)
        ensures
            r@ == update_record_of(self@),
    {
        let activated = matches!(self.kind, UpdateKind::Activated);
        SubscriptionRecord {
            billing_account_id: self.event.billing_account_id.clone(),
            subscription_id: self.event.subscription_id.clone(),
            customer_id: self.event.customer_id.clone(),
            status: if activated {
                "active".to_string()
            } else {
                self.event.status.clone()
            },
            plan: self.plan.clone(),
            interval: self.plan_interval.clone(),
            price_id: self.event.price_id.clone(),
            period_start: if activated {
                0
            } else {
                self.event.period_start
            },
            period_end: if activated {
                0
            } else {
                self.event.period_end
            },
            cancel_at_period_end: if activated {
                false
            } else {
                self.event.cancel_at_period_end
            },
            amount_cents: self.event.amount_cents,
            currency: self.event.currency.clone(),
            discount_name: match &self.event.discount_name {
                Some(s) => Some(s.clone()),
                None => None,
            },
            ends_at: None,
            now: self.now,
        }
    }

    fn with_plan(&mut self, plan: String, interval: String) -> (a: WebhookAction)
        ensures
            (final(self)@, a@) == with_plan(old(self)@, plan@, interval@),
    {
        self.plan = plan;
        self.plan_interval = interval;
        if self.event.billing_account_id.as_str().is_empty() {
            self.stage = UpdateStage::Done;
            WebhookAction::Reply(
                WebhookReply::Error {
                    status: 400,
                    message: "No billing account ID provided".to_string(),
                },
            )
        } else {
            self.stage = UpdateStage::AwaitUpsert;
            WebhookAction::Upsert(self.record())
        }
    }

    fn abort(&mut self) -> (a: WebhookAction)
        ensures
            final(self)@ == at_stage(old(self)@, UpdateStage::Done),
            a@ == ActionView::Abort,
    {
        self.stage = UpdateStage::Done;
        WebhookAction::Abort
    }

    /// Advances the machine with the result of the previous action.
    pub fn step(&mut self, input: StepInput) -> (a: WebhookAction)
        ensures
            (final(self)@, a@) == update_step(old(self)@, input@),
    {
        match self.stage {
            UpdateStage::Start => match self.kind {
                UpdateKind::Activated => {
                    self.stage = UpdateStage::AwaitProduct;
                    WebhookAction::LookupProduct { price_id: self.event.price_id.clone() }
                },
                UpdateKind::Updated => {
                    self.stage = UpdateStage::AwaitPlan;
                    WebhookAction::ResolvePlan { price_id: self.event.price_id.clone() }
                },
                UpdateKind::Canceled => if !self.event.billing_account_id.as_str().is_empty() {
                    self.stage = UpdateStage::AwaitMarkCanceled;
                    WebhookAction::MarkCanceled {
                        subscription_id: self.event.subscription_id.clone(),
                        at: self.now,
                    }
                } else {
                    self.stage = UpdateStage::Done;
                    WebhookAction::Reply(WebhookReply::Received)
                },
                UpdateKind::Other => {
                    self.stage = UpdateStage::Done;
                    WebhookAction::Reply(WebhookReply::Received)
                },
            },
            UpdateStage::AwaitProduct => match input {
                StepInput::Product { name, recurring_interval } => {
                    let plan = plan_from_product_name(name.as_str());
                    let interval = match recurring_interval {
                        Some(ri) => ri,
                        None => "month".to_string(),
                    };
                    self.with_plan(plan, interval)
                },
                _ => {
                    let interval = self.event.interval.clone();
                    self.with_plan("free".to_string(), interval)
                },
            },
            UpdateStage::AwaitPlan => match input {
                StepInput::Plan { plan, interval } => self.with_plan(plan, interval),
                StepInput::NotFound => {
                    let interval = self.event.interval.clone();
                    self.with_plan("free".to_string(), interval)
                },
                _ => {
                    self.stage = UpdateStage::Done;
                    WebhookAction::Reply(
                        WebhookReply::Error {
                            status: 503,
                            message: "Billing not configured".to_string(),
                        },
                    )
                },
            },
            UpdateStage::AwaitUpsert => match input {
                StepInput::Done => {
                    self.stage = UpdateStage::AwaitTier;
                    WebhookAction::UpdateTier {
                        billing_account_id: self.event.billing_account_id.clone(),
                        tier: self.plan.clone(),
                    }
                },
                _ => self.abort(),
            },
            UpdateStage::AwaitMarkCanceled => match input {
                StepInput::Done => {
                    self.stage = UpdateStage::AwaitTier;
                    WebhookAction::UpdateTier {
                        billing_account_id: self.event.billing_account_id.clone(),
                        tier: "free".to_string(),
                    }
                },
                _ => self.abort(),
            },
            UpdateStage::AwaitTier => match input {
                StepInput::Done => if matches!(self.kind, UpdateKind::Activated) {
                    self.stage = UpdateStage::AwaitCustomerId;
                    WebhookAction::StoreCustomerId {
                        billing_account_id: self.event.billing_account_id.clone(),
                        customer_id: self.event.customer_id.clone(),
                    }
                } else {
                    self.stage = UpdateStage::Done;
                    WebhookAction::Reply(WebhookReply::Received)
                },
                _ => self.abort(),
            },
            UpdateStage::AwaitCustomerId => match input {
                StepInput::Done => {
                    self.stage = UpdateStage::Done;
                    WebhookAction::Reply(WebhookReply::Received)
                },
                _ => self.abort(),
            },
            UpdateStage::Done => WebhookAction::Idle,
        }
    }
}

pub open spec fn update_rank(s: UpdateStage) -> nat {
    match s {
        UpdateStage::Start => 6,
        UpdateStage::AwaitProduct => 5,
        UpdateStage::AwaitPlan => 5,
        UpdateStage::AwaitUpsert => 4,
        UpdateStage::AwaitMarkCanceled => 4,
        UpdateStage::AwaitTier => 3,
        UpdateStage::AwaitCustomerId => 2,
        UpdateStage::Done => 0,
    }
}

/// Each step before the reply moves strictly closer to it; once finished the
/// machine stays put and asks for nothing.
pub proof fn lemma_update_progress(m: UpdateMachineView, i: InputView)
    ensures
        m.stage != UpdateStage::Done ==> update_rank(update_step(m, i).0.stage) < update_rank(
            m.stage,
        ),
        m.stage == UpdateStage::Done ==> update_step(m, i) == (m, ActionView::Idle),
{
}

/// What holds of every state reached from [`initial_update_machine`]: a row or
/// tier is only ever pending for a request that named its billing account.
pub open spec fn update_inv(m: UpdateMachineView) -> bool {
    &&& (m.stage == UpdateStage::AwaitUpsert || m.stage == UpdateStage::AwaitTier || m.stage
        == UpdateStage::AwaitCustomerId || m.stage == UpdateStage::AwaitMarkCanceled)
        ==> m.event.billing_account_id.len() > 0
    &&& (m.stage == UpdateStage::AwaitProduct ==> m.kind == UpdateKind::Activated)
    &&& (m.stage == UpdateStage::AwaitPlan ==> m.kind == UpdateKind::Updated)
    &&& (m.stage == UpdateStage::AwaitMarkCanceled ==> m.kind == UpdateKind::Canceled)
    &&& (m.stage == UpdateStage::AwaitUpsert ==> m.kind != UpdateKind::Canceled)
    &&& (m.stage == UpdateStage::AwaitCustomerId ==> m.kind == UpdateKind::Activated)
}

/// Every step keeps the invariant, starting from a new machine.
pub proof fn lemma_update_inv(k: UpdateKind, b: UpdateBody, now: i64, m: UpdateMachineView, i: InputView)
    ensures
        update_inv(initial_update_machine(k, b, now)),
        update_inv(m) ==> update_inv(update_step(m, i).0),
{
}

/// Tier writes go to the billing account the request named, never to an empty
/// id; a cancellation only ever writes `free`.
pub proof fn lemma_update_tier_writes(m: UpdateMachineView, i: InputView)
    requires
        update_inv(m),
    ensures
        update_step(m, i).1 matches ActionView::UpdateTier { billing_account_id, tier } ==> {
            &&& billing_account_id == m.event.billing_account_id
            &&& billing_account_id.len() > 0
            &&& (m.kind == UpdateKind::Canceled ==> tier == "free"@)
        },
        update_step(m, i).1 matches ActionView::Upsert(r) ==> r.billing_account_id.len() > 0,
{
}

} // verus!
