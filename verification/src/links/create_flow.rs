//! The sequence of steps that creating a link goes through.
//!
//! Creating a link alternates store work with decisions: the monthly quota is
//! taken first, then the body is judged, the destination checked against the
//! blocklist, a short code settled, the tag limit checked, and the link and
//! its redirect entry written. [`CreateMachine`] makes the decisions; the
//! caller performs each [`CreateAction`] and feeds the result back as a
//! [`CreateInput`] until a reply comes out.
use crate::links::create::{
    check_tag_limit, count_new_tags, monthly_limit_error, monthly_limit_message, new_tag_count,
    tag_limit_message, views,
};
use crate::links::record::{
    copy_opt, copy_texts, mapping_of, mapping_view, opt_text, store_utm, stored_utm, LinkRecord,
    LinkRecordView, MappingView,
};
use crate::links::redirect::{LinkMapping, UtmParams};
use crate::links::status::LinkStatus;
use vstd::prelude::*;

verus! {

broadcast use vstd::string::group_string_axioms;

/// A refusal: an HTTP status and its message.
#[derive(Debug, Clone)]
pub struct Refusal {
    pub status: u16,
    pub message: String,
}

pub struct RefusalView {
    pub status: u16,
    pub message: Seq<char>,
}

impl View for Refusal {
    type V = RefusalView;

    open spec fn view(&self) -> RefusalView {
        RefusalView { status: self.status, message: self.message@ }
    }
}

pub open spec fn opt_refusal_view(o: Option<Refusal>) -> Option<RefusalView> {
    match o {
        Some(r) => Some(r@),
        None => None,
    }
}

pub open spec fn opt_str_view(o: Option<String>) -> Option<Seq<char>> {
    match o {
        Some(s) => Some(s@),
        None => None,
    }
}

/// What the machine is told about a create request up front. The refusals
/// are those the request earns on its own, each in the place where the
/// handler checks it: `early_refusal` for the body itself (not JSON, not an
/// object, an unknown field, a bad format, an invalid destination URL),
/// `rule_refusal` for the tier rules and an invalid chosen code (see
/// `check_link_rules`), `tags_refusal` for invalid tags.
#[derive(Debug, Clone)]
pub struct CreateRequest {
    /// The id the new link gets.
    pub link_id: String,
    /// The caller's organization and user.
    pub org_id: String,
    pub created_by: String,
    /// The time of the request.
    pub now: i64,
    pub billing_account_id: String,
    /// The `YYYY-MM` key of the month's link counter.
    pub year_month: String,
    /// The tier's monthly link maximum, if any.
    pub max_links: Option<i64>,
    /// The tier's tag maximum, if any.
    pub max_tags: Option<i64>,
    pub early_refusal: Option<Refusal>,
    /// The validated destination.
    pub destination_url: String,
    pub rule_refusal: Option<Refusal>,
    /// The chosen short code, if any.
    pub custom_code: Option<String>,
    pub tags_refusal: Option<Refusal>,
    /// The normalized tags.
    pub tags: Vec<String>,
    /// The link's own query forwarding setting, if given.
    pub forward_query_params: Option<bool>,
    pub title: Option<String>,
    pub expires_at: Option<i64>,
    pub utm_params: Option<UtmParams>,
    /// The redirect type (`301` by default).
    pub redirect_type: String,
}

pub struct RequestView {
    pub link_id: Seq<char>,
    pub org_id: Seq<char>,
    pub created_by: Seq<char>,
    pub now: i64,
    pub billing_account_id: Seq<char>,
    pub year_month: Seq<char>,
    pub max_links: Option<i64>,
    pub max_tags: Option<i64>,
    pub early_refusal: Option<RefusalView>,
    pub destination_url: Seq<char>,
    pub rule_refusal: Option<RefusalView>,
    pub custom_code: Option<Seq<char>>,
    pub tags_refusal: Option<RefusalView>,
    pub tags: Seq<Seq<char>>,
    pub forward_query_params: Option<bool>,
    pub title: Option<Seq<char>>,
    pub expires_at: Option<i64>,
    pub utm_params: Option<UtmParams>,
    pub redirect_type: Seq<char>,
}

impl View for CreateRequest {
    type V = RequestView;

    open spec fn view(&self) -> RequestView {
        RequestView {
            link_id: self.link_id@,
            org_id: self.org_id@,
            created_by: self.created_by@,
            now: self.now,
            billing_account_id: self.billing_account_id@,
            year_month: self.year_month@,
            max_links: self.max_links,
            max_tags: self.max_tags,
            early_refusal: opt_refusal_view(self.early_refusal),
            destination_url: self.destination_url@,
            rule_refusal: opt_refusal_view(self.rule_refusal),
            custom_code: opt_str_view(self.custom_code),
            tags_refusal: opt_refusal_view(self.tags_refusal),
            tags: views(self.tags@),
            forward_query_params: self.forward_query_params,
            title: opt_text(self.title),
            expires_at: self.expires_at,
            utm_params: self.utm_params,
            redirect_type: self.redirect_type@,
        }
    }
}

/// The link a create request writes under `code`: the request's destination,
/// title, expiry, tags, forwarding setting and redirect type, its UTM
/// parameters when any is set, owned by the caller's organization and
/// created by the caller at the request's time, active, with no clicks and
/// never updated.
pub open spec fn create_record(req: RequestView, code: Seq<char>) -> LinkRecordView {
    LinkRecordView {
        id: req.link_id,
        org_id: req.org_id,
        short_code: code,
        destination_url: req.destination_url,
        title: req.title,
        created_by: req.created_by,
        created_at: req.now,
        updated_at: None,
        expires_at: req.expires_at,
        status: LinkStatus::Active,
        click_count: 0,
        tags: req.tags,
        utm_params: stored_utm(req.utm_params),
        forward_query_params: req.forward_query_params,
        redirect_type: req.redirect_type,
    }
}

/// The result of the last action, fed back into the machine.
#[derive(Debug, Clone)]
pub enum CreateInput {
    /// Starts the machine.
    Begin,
    /// A yes/no answer: the counter took the link, the URL is blocked, the
    /// chosen code exists.
    Flag(bool),
    /// The month's counter value.
    Count(i64),
    /// A random code was drawn; `taken` when it exists already.
    Code { code: String, taken: bool },
    /// The billing account's distinct tag count and its tag names.
    TagCounts { current: i64, existing: Vec<String> },
    /// The organization's query forwarding default (`false` when unreadable).
    Forward(bool),
    /// A write succeeded.
    Done,
    /// The last action failed.
    Failed,
}

pub enum CreateInputView {
    Begin,
    Flag(bool),
    Count(i64),
    Code { code: Seq<char>, taken: bool },
    TagCounts { current: i64, existing: Seq<Seq<char>> },
    Forward(bool),
    Done,
    Failed,
}

impl View for CreateInput {
    type V = CreateInputView;

    open spec fn view(&self) -> CreateInputView {
        match self {
            CreateInput::Begin => CreateInputView::Begin,
            CreateInput::Flag(b) => CreateInputView::Flag(*b),
            CreateInput::Count(n) => CreateInputView::Count(*n),
            CreateInput::Code { code, taken } => CreateInputView::Code { code: code@, taken: *taken },
            CreateInput::TagCounts { current, existing } => CreateInputView::TagCounts {
                current: *current,
                existing: views(existing@),
            },
            CreateInput::Forward(b) => CreateInputView::Forward(*b),
            CreateInput::Done => CreateInputView::Done,
            CreateInput::Failed => CreateInputView::Failed,
        }
    }
}

/// How the request is answered.
#[derive(Debug, Clone)]
pub enum CreateReply {
    /// 201 with the new link.
    Created { link: LinkRecord },
    /// Refused.
    Refused(Refusal),
}

pub enum CreateReplyView {
    Created { link: LinkRecordView },
    Refused(RefusalView),
}

impl CreateReply {
    /// The HTTP status of the answer: 201 for a created link, else the
    /// refusal's.
    pub fn status(&self) -> (r: u16)
        ensures
            r == match self@ {
                CreateReplyView::Created { .. } => 201u16,
                CreateReplyView::Refused(x) => x.status,
            },
    {
        match self {
            CreateReply::Created { .. } => 201,
            CreateReply::Refused(x) => x.status,
        }
    }
}

impl View for CreateReply {
    type V = CreateReplyView;

    open spec fn view(&self) -> CreateReplyView {
        match self {
            CreateReply::Created { link } => CreateReplyView::Created { link: link@ },
            CreateReply::Refused(r) => CreateReplyView::Refused(r@),
        }
    }
}

/// What the caller must do next.
#[derive(Debug, Clone)]
pub enum CreateAction {
    /// Answer the request; the machine is finished.
    Reply(CreateReply),
    /// Let the store error propagate; the machine is finished.
    Abort,
    /// Nothing further.
    Idle,
    /// Take one link from the month's counter if it stays within `max_links`;
    /// answer whether it did.
    IncrementCounter { billing_account_id: String, year_month: String, max_links: i64 },
    /// Read the month's counter.
    ReadCounter { billing_account_id: String, year_month: String },
    /// Whether the destination is on the blocklist.
    CheckBlacklist { url: String },
    /// Whether the chosen short code exists.
    CheckCode { code: String },
    /// Draw a random short code and tell whether it exists.
    DrawCode,
    /// Count the billing account's tags.
    CountTags { billing_account_id: String },
    /// Write the link.
    CreateLink { link: LinkRecord },
    /// Write the tags of link `link_id` in organization `org_id`.
    SetTags { link_id: String, org_id: String, tags: Vec<String> },
    /// Read the organization's query forwarding default.
    LookupForward,
    /// Store the redirect entry `mapping` of `code` for organization `org_id`.
    StoreMapping { org_id: String, code: String, mapping: LinkMapping },
}

pub enum CreateActionView {
    Reply(CreateReplyView),
    Abort,
    Idle,
    IncrementCounter { billing_account_id: Seq<char>, year_month: Seq<char>, max_links: i64 },
    ReadCounter { billing_account_id: Seq<char>, year_month: Seq<char> },
    CheckBlacklist { url: Seq<char> },
    CheckCode { code: Seq<char> },
    DrawCode,
    CountTags { billing_account_id: Seq<char> },
    CreateLink { link: LinkRecordView },
    SetTags { link_id: Seq<char>, org_id: Seq<char>, tags: Seq<Seq<char>> },
    LookupForward,
    StoreMapping { org_id: Seq<char>, code: Seq<char>, mapping: MappingView },
}

impl View for CreateAction {
    type V = CreateActionView;

    open spec fn view(&self) -> CreateActionView {
        match self {
            CreateAction::Reply(r) => CreateActionView::Reply(r@),
            CreateAction::Abort => CreateActionView::Abort,
            CreateAction::Idle => CreateActionView::Idle,
            CreateAction::IncrementCounter { billing_account_id, year_month, max_links } =>
                CreateActionView::IncrementCounter {
                billing_account_id: billing_account_id@,
                year_month: year_month@,
                max_links: *max_links,
            },
            CreateAction::ReadCounter { billing_account_id, year_month } =>
                CreateActionView::ReadCounter {
                billing_account_id: billing_account_id@,
                year_month: year_month@,
            },
            CreateAction::CheckBlacklist { url } => CreateActionView::CheckBlacklist { url: url@ },
            CreateAction::CheckCode { code } => CreateActionView::CheckCode { code: code@ },
            CreateAction::DrawCode => CreateActionView::DrawCode,
            CreateAction::CountTags { billing_account_id } => CreateActionView::CountTags {
                billing_account_id: billing_account_id@,
            },
            CreateAction::CreateLink { link } => CreateActionView::CreateLink { link: link@ },
            CreateAction::SetTags { link_id, org_id, tags } => CreateActionView::SetTags {
                link_id: link_id@,
                org_id: org_id@,
                tags: views(tags@),
            },
            CreateAction::LookupForward => CreateActionView::LookupForward,
            CreateAction::StoreMapping { org_id, code, mapping } => CreateActionView::StoreMapping {
                org_id: org_id@,
                code: code@,
                mapping: mapping_view(*mapping),
            },
        }
    }
}

/// Where the machine stands.
#[derive(Debug, Clone, Copy, PartialEq, Eq, Structural)]
pub enum CreateStage {
    Start,
    AwaitCounter,
    AwaitCount,
    AwaitBlacklist,
    AwaitCustomCode,
    AwaitRandomCode,
    AwaitTagCount,
    AwaitCreate,
    AwaitSetTags,
    AwaitForward,
    AwaitMapping,
    Done,
}

/// Regenerations allowed after the first random code collides; the eleventh
/// collision ends the request (500).
pub const MAX_REGENERATIONS: u32 = 10;

/// The decision state of one create request.
pub struct CreateMachine {
    pub req: CreateRequest,
    pub stage: CreateStage,
    /// Random codes regenerated so far.
    pub attempts: u32,
    /// The settled short code (empty before).
    pub code: String,
    /// Whether this request took a link from the month's counter.
    pub counted: bool,
}

pub struct CreateMachineView {
    pub req: RequestView,
    pub stage: CreateStage,
    pub attempts: nat,
    pub code: Seq<char>,
    pub counted: bool,
}

impl View for CreateMachine {
    type V = CreateMachineView;

    open spec fn view(&self) -> CreateMachineView {
        CreateMachineView {
            req: self.req@,
            stage: self.stage,
            attempts: self.attempts as nat,
            code: self.code@,
            counted: self.counted,
        }
    }
}

pub open spec fn at_stage(m: CreateMachineView, s: CreateStage) -> CreateMachineView {
    CreateMachineView { stage: s, ..m }
}

pub open spec fn refuse(m: CreateMachineView, status: u16, message: Seq<char>) -> (
    CreateMachineView,
    CreateActionView,
) {
    (
        at_stage(m, CreateStage::Done),
        CreateActionView::Reply(CreateReplyView::Refused(RefusalView { status, message })),
    )
}

pub open spec fn refuse_with(m: CreateMachineView, r: RefusalView) -> (
    CreateMachineView,
    CreateActionView,
) {
    (at_stage(m, CreateStage::Done), CreateActionView::Reply(CreateReplyView::Refused(r)))
}

pub open spec fn abort(m: CreateMachineView) -> (CreateMachineView, CreateActionView) {
    (at_stage(m, CreateStage::Done), CreateActionView::Abort)
}

/// After the quota: the body's own refusal, else the blocklist check.
pub open spec fn after_quota(m: CreateMachineView) -> (CreateMachineView, CreateActionView) {
    match m.req.early_refusal {
        Some(r) => refuse_with(m, r),
        None => (
            at_stage(m, CreateStage::AwaitBlacklist),
            CreateActionView::CheckBlacklist { url: m.req.destination_url },
        ),
    }
}

/// After the blocklist: the rules' refusal, else settle the short code.
pub open spec fn after_blacklist(m: CreateMachineView) -> (CreateMachineView, CreateActionView) {
    match m.req.rule_refusal {
        Some(r) => refuse_with(m, r),
        None => match m.req.custom_code {
            Some(c) => (
                at_stage(m, CreateStage::AwaitCustomCode),
                CreateActionView::CheckCode { code: c },
            ),
            None => (
                CreateMachineView { stage: CreateStage::AwaitRandomCode, attempts: 0, ..m },
                CreateActionView::DrawCode,
            ),
        },
    }
}

/// Writing the link under the settled code.
pub open spec fn create_link(m: CreateMachineView) -> (CreateMachineView, CreateActionView) {
    (
        at_stage(m, CreateStage::AwaitCreate),
        CreateActionView::CreateLink { link: create_record(m.req, m.code) },
    )
}

/// With the code settled: the tags' refusal, else the tag limit (when the
/// tier has one), else the write.
pub open spec fn after_code(m: CreateMachineView) -> (CreateMachineView, CreateActionView) {
    match m.req.tags_refusal {
        Some(r) => refuse_with(m, r),
        None => match m.req.max_tags {
            Some(_) => (
                at_stage(m, CreateStage::AwaitTagCount),
                CreateActionView::CountTags { billing_account_id: m.req.billing_account_id },
            ),
            None => create_link(m),
        },
    }
}

/// Storing the link's redirect entry with forwarding settled to `forward`.
pub open spec fn store_mapping(m: CreateMachineView, forward: bool) -> CreateActionView {
    CreateActionView::StoreMapping {
        org_id: m.req.org_id,
        code: m.code,
        mapping: mapping_of(create_record(m.req, m.code), forward),
    }
}

/// After the tags: the redirect entry, once the forwarding setting is known.
pub open spec fn after_tags(m: CreateMachineView) -> (CreateMachineView, CreateActionView) {
    match m.req.forward_query_params {
        Some(b) => (at_stage(m, CreateStage::AwaitMapping), store_mapping(m, b)),
        None => (at_stage(m, CreateStage::AwaitForward), CreateActionView::LookupForward),
    }
}

/// After the link is written: its tags (when it has any), then the rest.
pub open spec fn after_create(m: CreateMachineView) -> (CreateMachineView, CreateActionView) {
    if m.req.tags.len() > 0 {
        (
            at_stage(m, CreateStage::AwaitSetTags),
            CreateActionView::SetTags { link_id: m.req.link_id, org_id: m.req.org_id, tags: m.req.tags },
        )
    } else {
        after_tags(m)
    }
}

/// One step of link creation: the next state and action for an input. A
/// store failure propagates (`Abort`), except the forwarding default's,
/// which reads as off.
pub open spec fn create_step(m: CreateMachineView, i: CreateInputView) -> (
    CreateMachineView,
    CreateActionView,
) {
    match m.stage {
        CreateStage::Start => match m.req.max_links {
            Some(max) => (
                at_stage(m, CreateStage::AwaitCounter),
                CreateActionView::IncrementCounter {
                    billing_account_id: m.req.billing_account_id,
                    year_month: m.req.year_month,
                    max_links: max,
                },
            ),
            None => after_quota(m),
        },
        CreateStage::AwaitCounter => match i {
            CreateInputView::Flag(true) => after_quota(CreateMachineView { counted: true, ..m }),
            CreateInputView::Flag(false) => (
                at_stage(m, CreateStage::AwaitCount),
                CreateActionView::ReadCounter {
                    billing_account_id: m.req.billing_account_id,
                    year_month: m.req.year_month,
                },
            ),
            _ => abort(m),
        },
        CreateStage::AwaitCount => match i {
            CreateInputView::Count(n) => refuse(
                m,
                403,
                monthly_limit_message(m.req.max_links.unwrap_or(0) as int, n as int),
            ),
            _ => abort(m),
        },
        CreateStage::AwaitBlacklist => match i {
            CreateInputView::Flag(true) => refuse(m, 403, "Destination URL is blocked"@),
            CreateInputView::Flag(false) => after_blacklist(m),
            _ => abort(m),
        },
        CreateStage::AwaitCustomCode => match i {
            CreateInputView::Flag(true) => refuse(m, 409, "Short code already in use"@),
            CreateInputView::Flag(false) => after_code(
                CreateMachineView { code: m.req.custom_code.unwrap_or(""@), ..m },
            ),
            _ => abort(m),
        },
        CreateStage::AwaitRandomCode => match i {
            CreateInputView::Code { code, taken } => if !taken {
                after_code(CreateMachineView { code, ..m })
            } else if m.attempts + 1 > MAX_REGENERATIONS {
                refuse(m, 500, "Failed to generate unique short code"@)
            } else {
                (CreateMachineView { attempts: m.attempts + 1, ..m }, CreateActionView::DrawCode)
            },
            _ => abort(m),
        },
        CreateStage::AwaitTagCount => match i {
            CreateInputView::TagCounts { current, existing } => match tag_limit_message(
                m.req.max_tags.unwrap_or(0) as int,
                current as int,
                (new_tag_count(m.req.tags, existing) as i64) as int,
            ) {
                Some(msg) => refuse(m, 403, msg),
                None => create_link(m),
            },
            _ => abort(m),
        },
        CreateStage::AwaitCreate => match i {
            CreateInputView::Done => after_create(m),
            _ => abort(m),
        },
        CreateStage::AwaitSetTags => match i {
            CreateInputView::Done => after_tags(m),
            _ => abort(m),
        },
        CreateStage::AwaitForward => (
            at_stage(m, CreateStage::AwaitMapping),
            store_mapping(
                m,
                match i {
                    CreateInputView::Forward(b) => b,
                    _ => false,
                },
            ),
        ),
        CreateStage::AwaitMapping => match i {
            CreateInputView::Done => (
                at_stage(m, CreateStage::Done),
                CreateActionView::Reply(CreateReplyView::Created { link: create_record(m.req, m.code) }),
            ),
            _ => abort(m),
        },
        CreateStage::Done => (m, CreateActionView::Idle),
    }
}

/// The machine before its first step.
pub open spec fn initial_create(req: RequestView) -> CreateMachineView {
    CreateMachineView { req, stage: CreateStage::Start, attempts: 0, code: ""@, counted: false }
}

/// The stages reached only once the quota has been dealt with.
pub open spec fn past_quota(s: CreateStage) -> bool {
    !(s == CreateStage::Start || s == CreateStage::AwaitCounter || s == CreateStage::AwaitCount
        || s == CreateStage::Done)
}

/// The stages reached only once the short code is settled.
pub open spec fn past_code(s: CreateStage) -> bool {
    s == CreateStage::AwaitTagCount || s == CreateStage::AwaitCreate || s == CreateStage::AwaitSetTags
        || s == CreateStage::AwaitForward || s == CreateStage::AwaitMapping
}

/// What holds of every reachable machine: at most ten regenerations; past the
/// quota, a tier with a monthly maximum has taken a link from the counter;
/// past the code, a chosen code is the settled one.
pub open spec fn create_inv(m: CreateMachineView) -> bool {
    &&& m.attempts <= MAX_REGENERATIONS
    &&& (m.req.max_links is Some && past_quota(m.stage) ==> m.counted)
    &&& (past_code(m.stage) && m.req.custom_code is Some ==> m.code == m.req.custom_code->0)
    &&& (m.stage == CreateStage::AwaitRandomCode ==> m.req.custom_code is None)
}

/// A copy of a refusal.
fn copy_refusal(r: &Refusal) -> (c: Refusal)
    ensures
        c@ == r@,
{
    Refusal { status: r.status, message: r.message.clone() }
}

/// How far the machine is from its reply.
pub open spec fn create_rank(m: CreateMachineView) -> nat {
    match m.stage {
        CreateStage::Start => 40,
        CreateStage::AwaitCounter => 39,
        CreateStage::AwaitCount => 38,
        CreateStage::AwaitBlacklist => 37,
        CreateStage::AwaitCustomCode => 36,
        CreateStage::AwaitRandomCode => (20 + (11 - m.attempts)) as nat,
        CreateStage::AwaitTagCount => 7,
        CreateStage::AwaitCreate => 6,
        CreateStage::AwaitSetTags => 5,
        CreateStage::AwaitForward => 4,
        CreateStage::AwaitMapping => 3,
        CreateStage::Done => 0,
    }
}

impl CreateMachine {
    /// A machine for one authenticated create request.
    pub fn new(req: CreateRequest) -> (r: Self)
        ensures
            r@ == initial_create(req@),
    {
        CreateMachine { req, stage: CreateStage::Start, attempts: 0, code: "".to_string(), counted: false }
    }

    fn refuse(&mut self, status: u16, message: String) -> (a: CreateAction)
        ensures
            (final(self)@, a@) == refuse(old(self)@, status, message@),
    {
        self.stage = CreateStage::Done;
        CreateAction::Reply(CreateReply::Refused(Refusal { status, message }))
    }

    fn abort(&mut self) -> (a: CreateAction)
        ensures
            (final(self)@, a@) == abort(old(self)@),
    {
        self.stage = CreateStage::Done;
        CreateAction::Abort
    }

    fn after_quota(&mut self) -> (a: CreateAction)
        ensures
            (final(self)@, a@) == after_quota(old(self)@),
    {
        match &self.req.early_refusal {
            Some(r) => {
                let r = copy_refusal(r);
                self.stage = CreateStage::Done;
                CreateAction::Reply(CreateReply::Refused(r))
            },
            None => {
                self.stage = CreateStage::AwaitBlacklist;
                CreateAction::CheckBlacklist { url: self.req.destination_url.clone() }
            },
        }
    }

    fn after_blacklist(&mut self) -> (a: CreateAction)
        ensures
            (final(self)@, a@) == after_blacklist(old(self)@),
    {
        match &self.req.rule_refusal {
            Some(r) => {
                let r = copy_refusal(r);
                self.stage = CreateStage::Done;
                CreateAction::Reply(CreateReply::Refused(r))
            },
            None => match &self.req.custom_code {
                Some(c) => {
                    let c = c.clone();
                    self.stage = CreateStage::AwaitCustomCode;
                    CreateAction::CheckCode { code: c }
                },
                None => {
                    self.stage = CreateStage::AwaitRandomCode;
                    self.attempts = 0;
                    CreateAction::DrawCode
                },
            },
        }
    }

    /// The link this request writes under the settled code.
    fn record(&self) -> (r: LinkRecord)
        ensures
            r@ == create_record(self.req@, self.code@),
    {
        LinkRecord {
            id: self.req.link_id.clone(),
            org_id: self.req.org_id.clone(),
            short_code: self.code.clone(),
            destination_url: self.req.destination_url.clone(),
            title: copy_opt(&self.req.title),
            created_by: self.req.created_by.clone(),
            created_at: self.req.now,
            updated_at: None,
            expires_at: self.req.expires_at,
            status: LinkStatus::Active,
            click_count: 0,
            tags: copy_texts(&self.req.tags),
            utm_params: store_utm(&self.req.utm_params),
            forward_query_params: self.req.forward_query_params,
            redirect_type: self.req.redirect_type.clone(),
        }
    }

    fn mapping_action(&self, forward: bool) -> (a: CreateAction)
        ensures
            a@ == store_mapping(self@, forward),
    {
        let link = self.record();
        CreateAction::StoreMapping {
            org_id: self.req.org_id.clone(),
            code: self.code.clone(),
            mapping: link.to_mapping(forward),
        }
    }

    fn create_link(&mut self) -> (a: CreateAction)
        ensures
            (final(self)@, a@) == create_link(old(self)@),
    {
        self.stage = CreateStage::AwaitCreate;
        CreateAction::CreateLink { link: self.record() }
    }

    fn after_code(&mut self) -> (a: CreateAction)
        ensures
            (final(self)@, a@) == after_code(old(self)@),
    {
        match &self.req.tags_refusal {
            Some(r) => {
                let r = copy_refusal(r);
                self.stage = CreateStage::Done;
                CreateAction::Reply(CreateReply::Refused(r))
            },
            None => match self.req.max_tags {
                Some(_) => {
                    self.stage = CreateStage::AwaitTagCount;
                    CreateAction::CountTags { billing_account_id: self.req.billing_account_id.clone() }
                },
                None => self.create_link(),
            },
        }
    }

    fn after_tags(&mut self) -> (a: CreateAction)
        ensures
            (final(self)@, a@) == after_tags(old(self)@),
    {
        match self.req.forward_query_params {
            Some(b) => {
                self.stage = CreateStage::AwaitMapping;
                self.mapping_action(b)
            },
            None => {
                self.stage = CreateStage::AwaitForward;
                CreateAction::LookupForward
            },
        }
    }

    /// Feeds the result of the last action and returns the next action.
    pub fn step(&mut self, input: CreateInput) -> (a: CreateAction)
        requires
            create_inv(old(self)@),
        ensures
            (final(self)@, a@) == create_step(old(self)@, input@),
    {
        match self.stage {
            CreateStage::Start => match self.req.max_links {
                Some(max) => {
                    self.stage = CreateStage::AwaitCounter;
                    CreateAction::IncrementCounter {
                        billing_account_id: self.req.billing_account_id.clone(),
                        year_month: self.req.year_month.clone(),
                        max_links: max,
                    }
                },
                None => self.after_quota(),
            },
            CreateStage::AwaitCounter => match input {
                CreateInput::Flag(true) => {
                    self.counted = true;
                    self.after_quota()
                },
                CreateInput::Flag(false) => {
                    self.stage = CreateStage::AwaitCount;
                    CreateAction::ReadCounter {
                        billing_account_id: self.req.billing_account_id.clone(),
                        year_month: self.req.year_month.clone(),
                    }
                },
                _ => self.abort(),
            },
            CreateStage::AwaitCount => match input {
                CreateInput::Count(n) => {
                    let max = match self.req.max_links {
                        Some(x) => x,
                        None => 0,
                    };
                    let msg = monthly_limit_error(max, n);
                    self.refuse(403, msg)
                },
                _ => self.abort(),
            },
            CreateStage::AwaitBlacklist => match input {
                CreateInput::Flag(true) => self.refuse(403, "Destination URL is blocked".to_string()),
                CreateInput::Flag(false) => self.after_blacklist(),
                _ => self.abort(),
            },
            CreateStage::AwaitCustomCode => match input {
                CreateInput::Flag(true) => self.refuse(409, "Short code already in use".to_string()),
                CreateInput::Flag(false) => {
                    let c = match &self.req.custom_code {
                        Some(c) => c.clone(),
                        None => "".to_string(),
                    };
                    self.code = c;
                    self.after_code()
                },
                _ => self.abort(),
            },
            CreateStage::AwaitRandomCode => match input {
                CreateInput::Code { code, taken } => {
                    if !taken {
                        self.code = code;
                        self.after_code()
                    } else if self.attempts + 1 > MAX_REGENERATIONS {
                        self.refuse(500, "Failed to generate unique short code".to_string())
                    } else {
                        self.attempts = self.attempts + 1;
                        CreateAction::DrawCode
                    }
                },
                _ => self.abort(),
            },
            CreateStage::AwaitTagCount => match input {
                CreateInput::TagCounts { current, existing } => {
                    let max = match self.req.max_tags {
                        Some(x) => x,
                        None => 0,
                    };
                    let fresh = count_new_tags(&self.req.tags, &existing);
                    match check_tag_limit(max, current, fresh as i64) {
                        Some(msg) => self.refuse(403, msg),
                        None => self.create_link(),
                    }
                },
                _ => self.abort(),
            },
            CreateStage::AwaitCreate => match input {
                CreateInput::Done => {
                    if self.req.tags.len() > 0 {
                        self.stage = CreateStage::AwaitSetTags;
                        CreateAction::SetTags {
                            link_id: self.req.link_id.clone(),
                            org_id: self.req.org_id.clone(),
                            tags: copy_texts(&self.req.tags),
                        }
                    } else {
                        self.after_tags()
                    }
                },
                _ => self.abort(),
            },
            CreateStage::AwaitSetTags => match input {
                CreateInput::Done => self.after_tags(),
                _ => self.abort(),
            },
            CreateStage::AwaitForward => {
                let forward = match input {
                    CreateInput::Forward(b) => b,
                    _ => false,
                };
                self.stage = CreateStage::AwaitMapping;
                self.mapping_action(forward)
            },
            CreateStage::AwaitMapping => match input {
                CreateInput::Done => {
                    let link = self.record();
                    self.stage = CreateStage::Done;
                    CreateAction::Reply(CreateReply::Created { link })
                },
                _ => self.abort(),
            },
            CreateStage::Done => CreateAction::Idle,
        }
    }
}

/// A new machine satisfies the invariant, and every step keeps it.
pub proof fn lemma_create_inv(req: RequestView, m: CreateMachineView, i: CreateInputView)
    ensures
        create_inv(initial_create(req)),
        create_inv(m) ==> create_inv(create_step(m, i).0),
{
}

/// Each step before the reply moves strictly closer to it; once finished the
/// machine stays put and asks for nothing.
pub proof fn lemma_create_progress(m: CreateMachineView, i: CreateInputView)
    requires
        create_inv(m),
    ensures
        m.stage != CreateStage::Done ==> create_rank(create_step(m, i).0) < create_rank(m),
        m.stage == CreateStage::Done ==> create_step(m, i) == (m, CreateActionView::Idle),
{
}

/// The quota is taken first: a tier with a monthly maximum starts by taking
/// a link from the month's counter, before the body is looked at; and every
/// refusal after that, other than the quota's own, comes from a request that
/// has already used up its unit of the quota.
pub proof fn lemma_refusals_consume_quota(m: CreateMachineView, i: CreateInputView)
    requires
        create_inv(m),
        m.req.max_links is Some,
    ensures
        m.stage == CreateStage::Start ==> create_step(m, i).1 is IncrementCounter,
        create_step(m, i).1 is Reply && m.stage != CreateStage::AwaitCount && m.stage
            != CreateStage::Done ==> create_step(m, i).0.counted,
{
}

/// A link is reported created only once its redirect entry is stored, and
/// it is the link that was written; a chosen short code is used as given or
/// the request is refused.
pub proof fn lemma_created_as_written(m: CreateMachineView, i: CreateInputView)
    requires
        create_inv(m),
    ensures
        create_step(m, i).1 matches CreateActionView::Reply(CreateReplyView::Created { link }) ==> (
        m.stage == CreateStage::AwaitMapping && i == CreateInputView::Done && link == create_record(
            m.req,
            m.code,
        ) && (m.req.custom_code matches Some(c) ==> link.short_code == c)),
{
}

/// What is written for a created link: the request's destination, title,
/// expiry, tags and redirect type, owned by the caller's organization and
/// created by the caller, active with no clicks; and its redirect entry
/// points at the same destination, with the same status and expiry.
pub proof fn lemma_written_link(m: CreateMachineView, i: CreateInputView)
    requires
        create_inv(m),
    ensures
        create_step(m, i).1 matches CreateActionView::CreateLink { link } ==> {
            &&& link.org_id == m.req.org_id
            &&& link.created_by == m.req.created_by
            &&& link.destination_url == m.req.destination_url
            &&& link.title == m.req.title
            &&& link.expires_at == m.req.expires_at
            &&& link.redirect_type == m.req.redirect_type
            &&& link.tags == m.req.tags
            &&& link.status == LinkStatus::Active
            &&& link.click_count == 0
            &&& link.updated_at is None
            &&& link.created_at == m.req.now
        },
        create_step(m, i).1 matches CreateActionView::StoreMapping { mapping, org_id, .. } ==> {
            &&& org_id == m.req.org_id
            &&& mapping.destination_url == m.req.destination_url
            &&& mapping.status == LinkStatus::Active
            &&& mapping.expires_at == m.req.expires_at
            &&& mapping.link_id == m.req.link_id
        },
{
}

} // verus!
