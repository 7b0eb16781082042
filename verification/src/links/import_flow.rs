//! The sequence of steps one row of a bulk import goes through.
//!
//! A row is checked (URL, blocklist, quota), given a short code, held to the
//! tag limit, and written. [`RowMachine`] makes the decisions; the caller
//! performs each [`RowAction`] and feeds the result back as a [`RowInput`]
//! until the row's [`RowOutcome`] comes out. The outcomes of all rows, in
//! order, make the report (`summarize_import`).
use crate::links::import::{
    duplicate_code_reason, duplicate_code_reason_of, import_title, import_title_of,
    invalid_code_reason, invalid_code_reason_of, tags_skipped_message, tags_skipped_warning,
    RowOutcome, MAX_RANDOM_TRIES,
};
use crate::links::record::{copy_texts, mapping_of, mapping_view, LinkRecord, LinkRecordView, MappingView};
use crate::links::redirect::LinkMapping;
use crate::links::status::LinkStatus;
use crate::links::create::views;
use vstd::prelude::*;

verus! {

broadcast use vstd::string::group_string_axioms;

/// One row as the machine is given it: the URL as written and the result of
/// validating it, the chosen code and the result of validating that, the
/// row's tags as normalized (invalid tags read as none), its title and
/// expiry; and the id the link gets, the importing organization and user,
/// and the time of the import.
#[derive(Debug)]
pub struct ImportRow {
    pub link_id: String,
    pub org_id: String,
    pub created_by: String,
    pub now: i64,
    pub title: Option<String>,
    pub expires_at: Option<i64>,
    pub raw_url: String,
    /// The validated URL, or the validation error.
    pub url: Result<String, String>,
    pub chosen: Option<String>,
    /// Why the chosen code is invalid, if it is.
    pub chosen_error: Option<String>,
    pub tags: Vec<String>,
}

pub struct ImportRowView {
    pub link_id: Seq<char>,
    pub org_id: Seq<char>,
    pub created_by: Seq<char>,
    pub now: i64,
    pub title: Option<Seq<char>>,
    pub expires_at: Option<i64>,
    pub raw_url: Seq<char>,
    pub url: Result<Seq<char>, Seq<char>>,
    pub chosen: Option<Seq<char>>,
    pub chosen_error: Option<Seq<char>>,
    pub tags: Seq<Seq<char>>,
}

pub open spec fn opt_view(o: Option<String>) -> Option<Seq<char>> {
    match o {
        Some(s) => Some(s@),
        None => None,
    }
}

impl View for ImportRow {
    type V = ImportRowView;

    open spec fn view(&self) -> ImportRowView {
        ImportRowView {
            link_id: self.link_id@,
            org_id: self.org_id@,
            created_by: self.created_by@,
            now: self.now,
            title: opt_view(self.title),
            expires_at: self.expires_at,
            raw_url: self.raw_url@,
            url: match self.url {
                Ok(u) => Ok(u@),
                Err(e) => Err(e@),
            },
            chosen: opt_view(self.chosen),
            chosen_error: opt_view(self.chosen_error),
            tags: views(self.tags@),
        }
    }
}

/// The result of the last action.
#[derive(Debug, Clone)]
pub enum RowInput {
    Begin,
    /// The blocklist's or the quota's refusal message, `None` when the row
    /// passes.
    Refusal(Option<String>),
    /// The quota passed: the tier's paid features and tag maximum.
    QuotaOk { is_pro: bool, max_tags: Option<i64> },
    /// Whether the chosen code exists; whether the tags stay within the limit.
    Flag(bool),
    /// A random code drawn and whether it exists.
    Code { code: String, taken: bool },
    /// A write succeeded.
    Done,
    /// The last action failed.
    Failed,
}

pub enum RowInputView {
    Begin,
    Refusal(Option<Seq<char>>),
    QuotaOk { is_pro: bool, max_tags: Option<i64> },
    Flag(bool),
    Code { code: Seq<char>, taken: bool },
    Done,
    Failed,
}

impl View for RowInput {
    type V = RowInputView;

    open spec fn view(&self) -> RowInputView {
        match self {
            RowInput::Begin => RowInputView::Begin,
            RowInput::Refusal(o) => RowInputView::Refusal(opt_view(*o)),
            RowInput::QuotaOk { is_pro, max_tags } => RowInputView::QuotaOk {
                is_pro: *is_pro,
                max_tags: *max_tags,
            },
            RowInput::Flag(b) => RowInputView::Flag(*b),
            RowInput::Code { code, taken } => RowInputView::Code { code: code@, taken: *taken },
            RowInput::Done => RowInputView::Done,
            RowInput::Failed => RowInputView::Failed,
        }
    }
}

/// A row's outcome as (kind, URL, reason or tag warning).
pub enum OutcomeView {
    Failed { destination_url: Seq<char>, reason: Seq<char> },
    InvalidCode { destination_url: Seq<char>, reason: Seq<char> },
    DuplicateCode { destination_url: Seq<char>, reason: Seq<char> },
    Created { destination_url: Seq<char>, tags_warning: Option<Seq<char>> },
}

pub open spec fn outcome_view(o: RowOutcome) -> OutcomeView {
    match o {
        RowOutcome::Failed { destination_url, reason } => OutcomeView::Failed {
            destination_url: destination_url@,
            reason: reason@,
        },
        RowOutcome::InvalidCode { destination_url, reason } => OutcomeView::InvalidCode {
            destination_url: destination_url@,
            reason: reason@,
        },
        RowOutcome::DuplicateCode { destination_url, reason } => OutcomeView::DuplicateCode {
            destination_url: destination_url@,
            reason: reason@,
        },
        RowOutcome::Created { destination_url, tags_warning } => OutcomeView::Created {
            destination_url: destination_url@,
            tags_warning: opt_view(tags_warning),
        },
    }
}

/// What the caller must do next.
#[derive(Debug, Clone)]
pub enum RowAction {
    /// The row is finished with this outcome.
    Finish(RowOutcome),
    /// Let the store error propagate: the import fails.
    Abort,
    /// Nothing further.
    Idle,
    /// Check the destination against the blocklist.
    CheckBlacklist { url: String },
    /// Check (and read) the organization's quota.
    CheckQuota,
    /// Whether the chosen code exists.
    CheckCode { code: String },
    /// Draw a random code and tell whether it exists.
    DrawCode,
    /// Whether the tags stay within `max_tags`.
    CheckTagLimit { max_tags: i64 },
    /// Write the link.
    CreateLink { link: LinkRecord },
    /// Write the tags of link `link_id` in organization `org_id`.
    SetTags { link_id: String, org_id: String, tags: Vec<String> },
    /// Store the redirect entry `mapping` of `code` for organization `org_id`.
    StoreMapping { org_id: String, code: String, mapping: LinkMapping },
}

pub enum RowActionView {
    Finish(OutcomeView),
    Abort,
    Idle,
    CheckBlacklist { url: Seq<char> },
    CheckQuota,
    CheckCode { code: Seq<char> },
    DrawCode,
    CheckTagLimit { max_tags: i64 },
    CreateLink { link: LinkRecordView },
    SetTags { link_id: Seq<char>, org_id: Seq<char>, tags: Seq<Seq<char>> },
    StoreMapping { org_id: Seq<char>, code: Seq<char>, mapping: MappingView },
}

impl View for RowAction {
    type V = RowActionView;

    open spec fn view(&self) -> RowActionView {
        match self {
            RowAction::Finish(o) => RowActionView::Finish(outcome_view(*o)),
            RowAction::Abort => RowActionView::Abort,
            RowAction::Idle => RowActionView::Idle,
            RowAction::CheckBlacklist { url } => RowActionView::CheckBlacklist { url: url@ },
            RowAction::CheckQuota => RowActionView::CheckQuota,
            RowAction::CheckCode { code } => RowActionView::CheckCode { code: code@ },
            RowAction::DrawCode => RowActionView::DrawCode,
            RowAction::CheckTagLimit { max_tags } => RowActionView::CheckTagLimit { max_tags: *max_tags },
            RowAction::CreateLink { link } => RowActionView::CreateLink { link: link@ },
            RowAction::SetTags { link_id, org_id, tags } => RowActionView::SetTags {
                link_id: link_id@,
                org_id: org_id@,
                tags: views(tags@),
            },
            RowAction::StoreMapping { org_id, code, mapping } => RowActionView::StoreMapping {
                org_id: org_id@,
                code: code@,
                mapping: mapping_view(*mapping),
            },
        }
    }
}

/// Where a row stands.
#[derive(Debug, Clone, Copy, PartialEq, Eq, Structural)]
pub enum RowStage {
    Start,
    AwaitBlacklist,
    AwaitQuota,
    AwaitChosen,
    AwaitRandom,
    AwaitTagLimit,
    AwaitCreate,
    AwaitSetTags,
    AwaitMapping,
    Done,
}

/// The decision state of one import row.
pub struct RowMachine {
    pub row: ImportRow,
    pub stage: RowStage,
    /// The validated URL (empty before).
    pub url: String,
    pub is_pro: bool,
    pub max_tags: Option<i64>,
    /// Random codes found taken so far.
    pub random_tries: u32,
    /// The settled code (empty before).
    pub code: String,
    /// The tags written with the link.
    pub tags: Vec<String>,
    pub tags_warning: Option<String>,
    /// Whether the link was written.
    pub written: bool,
}

pub struct RowMachineView {
    pub row: ImportRowView,
    pub stage: RowStage,
    pub url: Seq<char>,
    pub is_pro: bool,
    pub max_tags: Option<i64>,
    pub random_tries: nat,
    pub code: Seq<char>,
    pub tags: Seq<Seq<char>>,
    pub tags_warning: Option<Seq<char>>,
    pub written: bool,
}

impl View for RowMachine {
    type V = RowMachineView;

    open spec fn view(&self) -> RowMachineView {
        RowMachineView {
            row: self.row@,
            stage: self.stage,
            url: self.url@,
            is_pro: self.is_pro,
            max_tags: self.max_tags,
            random_tries: self.random_tries as nat,
            code: self.code@,
            tags: views(self.tags@),
            tags_warning: opt_view(self.tags_warning),
            written: self.written,
        }
    }
}

pub open spec fn at(m: RowMachineView, s: RowStage) -> RowMachineView {
    RowMachineView { stage: s, ..m }
}

pub open spec fn finish(m: RowMachineView, o: OutcomeView) -> (RowMachineView, RowActionView) {
    (at(m, RowStage::Done), RowActionView::Finish(o))
}

pub open spec fn row_abort(m: RowMachineView) -> (RowMachineView, RowActionView) {
    (at(m, RowStage::Done), RowActionView::Abort)
}

/// Whether the row uses its chosen code: a Pro row that gave one.
pub open spec fn uses_chosen(m: RowMachineView) -> bool {
    m.is_pro && m.row.chosen is Some
}

/// With the code settled: the tag limit when the tier has one, else the write.
pub open spec fn after_row_code(m: RowMachineView) -> (RowMachineView, RowActionView) {
    match m.max_tags {
        Some(mt) => (at(m, RowStage::AwaitTagLimit), RowActionView::CheckTagLimit { max_tags: mt }),
        None => write_row(m),
    }
}

/// The link a row writes: the validated destination under the settled code,
/// the title trimmed (dropped when blank or over 200 bytes), the row's expiry
/// and the tags kept, owned by the importing organization and created by the
/// importing user at the import's time; active, no clicks, never updated,
/// redirect 301, no UTM parameters and no forwarding setting of its own.
pub open spec fn row_record(m: RowMachineView) -> LinkRecordView {
    LinkRecordView {
        id: m.row.link_id,
        org_id: m.row.org_id,
        short_code: m.code,
        destination_url: m.url,
        title: import_title_of(m.row.title),
        created_by: m.row.created_by,
        created_at: m.row.now,
        updated_at: None,
        expires_at: m.row.expires_at,
        status: LinkStatus::Active,
        click_count: 0,
        tags: m.tags,
        utm_params: None,
        forward_query_params: None,
        redirect_type: "301"@,
    }
}

/// Writing the link.
pub open spec fn write_row(m: RowMachineView) -> (RowMachineView, RowActionView) {
    (
        RowMachineView { stage: RowStage::AwaitCreate, written: true, ..m },
        RowActionView::CreateLink { link: row_record(m) },
    )
}

/// Storing the row's redirect entry (the organization's forwarding default
/// is not consulted: imported links do not forward).
pub open spec fn row_mapping(m: RowMachineView) -> RowActionView {
    RowActionView::StoreMapping {
        org_id: m.row.org_id,
        code: m.code,
        mapping: mapping_of(row_record(m), false),
    }
}

/// One step of an import row.
pub open spec fn row_step(m: RowMachineView, i: RowInputView) -> (RowMachineView, RowActionView) {
    match m.stage {
        RowStage::Start => match m.row.url {
            Err(e) => finish(
                m,
                OutcomeView::Failed { destination_url: m.row.raw_url, reason: "Invalid URL: "@ + e },
            ),
            Ok(u) => (
                RowMachineView { stage: RowStage::AwaitBlacklist, url: u, ..m },
                RowActionView::CheckBlacklist { url: u },
            ),
        },
        RowStage::AwaitBlacklist => match i {
            RowInputView::Refusal(Some(msg)) => finish(
                m,
                OutcomeView::Failed { destination_url: m.url, reason: msg },
            ),
            RowInputView::Refusal(None) => (at(m, RowStage::AwaitQuota), RowActionView::CheckQuota),
            _ => row_abort(m),
        },
        RowStage::AwaitQuota => match i {
            RowInputView::Refusal(Some(msg)) => finish(
                m,
                OutcomeView::Failed { destination_url: m.url, reason: msg },
            ),
            RowInputView::QuotaOk { is_pro, max_tags } => {
                let m2 = RowMachineView { is_pro, max_tags, ..m };
                if uses_chosen(m2) {
                    match m.row.chosen_error {
                        Some(e) => finish(
                            m2,
                            OutcomeView::InvalidCode {
                                destination_url: m.url,
                                reason: invalid_code_reason_of(e),
                            },
                        ),
                        None => (
                            at(m2, RowStage::AwaitChosen),
                            RowActionView::CheckCode { code: m.row.chosen->0 },
                        ),
                    }
                } else {
                    (
                        RowMachineView { stage: RowStage::AwaitRandom, random_tries: 0, ..m2 },
                        RowActionView::DrawCode,
                    )
                }
            },
            _ => row_abort(m),
        },
        RowStage::AwaitChosen => match i {
            RowInputView::Flag(true) => finish(
                m,
                OutcomeView::DuplicateCode {
                    destination_url: m.url,
                    reason: duplicate_code_reason_of(m.row.chosen.unwrap_or(""@)),
                },
            ),
            RowInputView::Flag(false) => after_row_code(
                RowMachineView { code: m.row.chosen.unwrap_or(""@), ..m },
            ),
            _ => row_abort(m),
        },
        RowStage::AwaitRandom => match i {
            RowInputView::Code { code, taken } => if !taken {
                after_row_code(RowMachineView { code, ..m })
            } else if m.random_tries + 1 >= MAX_RANDOM_TRIES {
                finish(
                    m,
                    OutcomeView::Failed {
                        destination_url: m.url,
                        reason: "Failed to generate unique short code"@,
                    },
                )
            } else {
                (RowMachineView { random_tries: m.random_tries + 1, ..m }, RowActionView::DrawCode)
            },
            _ => row_abort(m),
        },
        RowStage::AwaitTagLimit => match i {
            RowInputView::Flag(true) => write_row(m),
            RowInputView::Flag(false) => write_row(
                RowMachineView {
                    tags: Seq::empty(),
                    tags_warning: Some(tags_skipped_warning(m.max_tags.unwrap_or(0) as int)),
                    ..m
                },
            ),
            _ => row_abort(m),
        },
        RowStage::AwaitCreate => match i {
            RowInputView::Done => if m.tags.len() > 0 {
                (
                    at(m, RowStage::AwaitSetTags),
                    RowActionView::SetTags { link_id: m.row.link_id, org_id: m.row.org_id, tags: m.tags },
                )
            } else {
                (at(m, RowStage::AwaitMapping), row_mapping(m))
            },
            _ => row_abort(m),
        },
        RowStage::AwaitSetTags => match i {
            RowInputView::Done => (at(m, RowStage::AwaitMapping), row_mapping(m)),
            _ => row_abort(m),
        },
        RowStage::AwaitMapping => match i {
            RowInputView::Done => finish(
                m,
                OutcomeView::Created { destination_url: m.url, tags_warning: m.tags_warning },
            ),
            _ => row_abort(m),
        },
        RowStage::Done => (m, RowActionView::Idle),
    }
}

/// The machine before its first step.
pub open spec fn initial_row(row: ImportRowView) -> RowMachineView {
    RowMachineView {
        row,
        stage: RowStage::Start,
        url: ""@,
        is_pro: false,
        max_tags: None,
        random_tries: 0,
        code: ""@,
        tags: row.tags,
        tags_warning: None,
        written: false,
    }
}

/// Stages in which the link has been written.
pub open spec fn after_write(s: RowStage) -> bool {
    s == RowStage::AwaitCreate || s == RowStage::AwaitSetTags || s == RowStage::AwaitMapping
}

/// Stages in which the short code is settled.
pub open spec fn code_settled(s: RowStage) -> bool {
    s == RowStage::AwaitTagLimit || after_write(s)
}

/// What holds of every reachable row machine.
pub open spec fn row_inv(m: RowMachineView) -> bool {
    &&& m.random_tries < MAX_RANDOM_TRIES
    &&& (m.stage != RowStage::Start && m.stage != RowStage::Done ==> m.row.url is Ok && m.url
        == m.row.url->Ok_0)
    &&& (m.stage == RowStage::AwaitRandom ==> !uses_chosen(m))
    &&& (m.stage == RowStage::AwaitChosen ==> uses_chosen(m))
    &&& (code_settled(m.stage) && uses_chosen(m) ==> m.code == m.row.chosen->0)
    &&& (m.written <==> after_write(m.stage) || (m.stage == RowStage::Done && m.written))
    &&& (!(after_write(m.stage) || m.stage == RowStage::Done) ==> !m.written)
}

/// How far the row is from its outcome.
pub open spec fn row_rank(m: RowMachineView) -> nat {
    match m.stage {
        RowStage::Start => 30,
        RowStage::AwaitBlacklist => 29,
        RowStage::AwaitQuota => 28,
        RowStage::AwaitChosen => 27,
        RowStage::AwaitRandom => (10 + (10 - m.random_tries)) as nat,
        RowStage::AwaitTagLimit => 5,
        RowStage::AwaitCreate => 4,
        RowStage::AwaitSetTags => 3,
        RowStage::AwaitMapping => 2,
        RowStage::Done => 0,
    }
}

impl RowMachine {
    /// A machine for one row.
    pub fn new(row: ImportRow) -> (r: Self)
        ensures
            r@ == initial_row(row@),
    {
        let tags = row.tags.clone();
        proof {
            assert(views(tags@) =~= views(row.tags@));
        }
        RowMachine {
            row,
            stage: RowStage::Start,
            url: "".to_string(),
            is_pro: false,
            max_tags: None,
            random_tries: 0,
            code: "".to_string(),
            tags,
            tags_warning: None,
            written: false,
        }
    }

    fn finish(&mut self, o: RowOutcome) -> (a: RowAction)
        ensures
            (final(self)@, a@) == finish(old(self)@, outcome_view(o)),
    {
        self.stage = RowStage::Done;
        RowAction::Finish(o)
    }

    fn abort(&mut self) -> (a: RowAction)
        ensures
            (final(self)@, a@) == row_abort(old(self)@),
    {
        self.stage = RowStage::Done;
        RowAction::Abort
    }

    /// The link this row writes.
    fn record(&self) -> (r: LinkRecord)
        ensures
            r@ == row_record(self@),
    {
        let title = match &self.row.title {
            Some(t) => import_title(Some(t.as_str())),
            None => import_title(None),
        };
        LinkRecord {
            id: self.row.link_id.clone(),
            org_id: self.row.org_id.clone(),
            short_code: self.code.clone(),
            destination_url: self.url.clone(),
            title,
            created_by: self.row.created_by.clone(),
            created_at: self.row.now,
            updated_at: None,
            expires_at: self.row.expires_at,
            status: LinkStatus::Active,
            click_count: 0,
            tags: copy_texts(&self.tags),
            utm_params: None,
            forward_query_params: None,
            redirect_type: "301".to_string(),
        }
    }

    fn mapping(&self) -> (a: RowAction)
        ensures
            a@ == row_mapping(self@),
    {
        let link = self.record();
        RowAction::StoreMapping {
            org_id: self.row.org_id.clone(),
            code: self.code.clone(),
            mapping: link.to_mapping(false),
        }
    }

    fn write(&mut self) -> (a: RowAction)
        ensures
            (final(self)@, a@) == write_row(old(self)@),
    {
        let link = self.record();
        self.stage = RowStage::AwaitCreate;
        self.written = true;
        RowAction::CreateLink { link }
    }

    fn after_code(&mut self) -> (a: RowAction)
        ensures
            (final(self)@, a@) == after_row_code(old(self)@),
    {
        match self.max_tags {
            Some(mt) => {
                self.stage = RowStage::AwaitTagLimit;
                RowAction::CheckTagLimit { max_tags: mt }
            },
            None => self.write(),
        }
    }

    /// Feeds the result of the last action and returns the next action.
    pub fn step(&mut self, input: RowInput) -> (a: RowAction)
        requires
            row_inv(old(self)@),
        ensures
            (final(self)@, a@) == row_step(old(self)@, input@),
    {
        match self.stage {
            RowStage::Start => match &self.row.url {
                Err(e) => {
                    let mut reason = "Invalid URL: ".to_string();
                    reason.append(e.as_str());
                    let o = RowOutcome::Failed { destination_url: self.row.raw_url.clone(), reason };
                    self.finish(o)
                },
                Ok(u) => {
                    let u = u.clone();
                    self.url = u.clone();
                    self.stage = RowStage::AwaitBlacklist;
                    RowAction::CheckBlacklist { url: u }
                },
            },
            RowStage::AwaitBlacklist => match input {
                RowInput::Refusal(Some(msg)) => {
                    let o = RowOutcome::Failed { destination_url: self.url.clone(), reason: msg };
                    self.finish(o)
                },
                RowInput::Refusal(None) => {
                    self.stage = RowStage::AwaitQuota;
                    RowAction::CheckQuota
                },
                _ => self.abort(),
            },
            RowStage::AwaitQuota => match input {
                RowInput::Refusal(Some(msg)) => {
                    let o = RowOutcome::Failed { destination_url: self.url.clone(), reason: msg };
                    self.finish(o)
                },
                RowInput::QuotaOk { is_pro, max_tags } => {
                    self.is_pro = is_pro;
                    self.max_tags = max_tags;
                    if is_pro && self.row.chosen.is_some() {
                        match &self.row.chosen_error {
                            Some(e) => {
                                let o = RowOutcome::InvalidCode {
                                    destination_url: self.url.clone(),
                                    reason: invalid_code_reason(e.as_str()),
                                };
                                self.finish(o)
                            },
                            None => {
                                let c = match &self.row.chosen {
                                    Some(c) => c.clone(),
                                    None => "".to_string(),
                                };
                                self.stage = RowStage::AwaitChosen;
                                RowAction::CheckCode { code: c }
                            },
                        }
                    } else {
                        self.stage = RowStage::AwaitRandom;
                        self.random_tries = 0;
                        RowAction::DrawCode
                    }
                },
                _ => self.abort(),
            },
            RowStage::AwaitChosen => {
                let c = match &self.row.chosen {
                    Some(c) => c.clone(),
                    None => "".to_string(),
                };
                match input {
                    RowInput::Flag(true) => {
                        let o = RowOutcome::DuplicateCode {
                            destination_url: self.url.clone(),
                            reason: duplicate_code_reason(c.as_str()),
                        };
                        self.finish(o)
                    },
                    RowInput::Flag(false) => {
                        self.code = c;
                        self.after_code()
                    },
                    _ => self.abort(),
                }
            },
            RowStage::AwaitRandom => match input {
                RowInput::Code { code, taken } => {
                    if !taken {
                        self.code = code;
                        self.after_code()
                    } else if self.random_tries + 1 >= MAX_RANDOM_TRIES {
                        let o = RowOutcome::Failed {
                            destination_url: self.url.clone(),
                            reason: "Failed to generate unique short code".to_string(),
                        };
                        self.finish(o)
                    } else {
                        self.random_tries = self.random_tries + 1;
                        RowAction::DrawCode
                    }
                },
                _ => self.abort(),
            },
            RowStage::AwaitTagLimit => match input {
                RowInput::Flag(true) => self.write(),
                RowInput::Flag(false) => {
                    let mt = match self.max_tags {
                        Some(x) => x,
                        None => 0,
                    };
                    self.tags = Vec::new();
                    self.tags_warning = Some(tags_skipped_message(mt));
                    proof {
                        assert(views(self.tags@) =~= Seq::<Seq<char>>::empty());
                    }
                    self.write()
                },
                _ => self.abort(),
            },
            RowStage::AwaitCreate => match input {
                RowInput::Done => {
                    if self.tags.len() > 0 {
                        self.stage = RowStage::AwaitSetTags;
                        RowAction::SetTags {
                            link_id: self.row.link_id.clone(),
                            org_id: self.row.org_id.clone(),
                            tags: copy_texts(&self.tags),
                        }
                    } else {
                        self.stage = RowStage::AwaitMapping;
                        self.mapping()
                    }
                },
                _ => self.abort(),
            },
            RowStage::AwaitSetTags => match input {
                RowInput::Done => {
                    self.stage = RowStage::AwaitMapping;
                    self.mapping()
                },
                _ => self.abort(),
            },
            RowStage::AwaitMapping => match input {
                RowInput::Done => {
                    let w = match &self.tags_warning {
                        Some(w) => Some(w.clone()),
                        None => None,
                    };
                    let o = RowOutcome::Created { destination_url: self.url.clone(), tags_warning: w };
                    self.finish(o)
                },
                _ => self.abort(),
            },
            RowStage::Done => RowAction::Idle,
        }
    }
}

/// What an imported row writes: an active link with no clicks, redirect 301
/// and no UTM parameters, at the validated destination, with the row's
/// trimmed title (none when blank or over 200 bytes) and expiry, owned by the
/// importing organization; its redirect entry points at the same destination
/// with the same status and expiry, and does not forward.
pub proof fn lemma_row_written_link(m: RowMachineView, i: RowInputView)
    requires
        row_inv(m),
    ensures
        row_step(m, i).1 matches RowActionView::CreateLink { link } ==> {
            &&& link.status == LinkStatus::Active
            &&& link.click_count == 0
            &&& link.redirect_type == "301"@
            &&& link.utm_params is None
            &&& link.destination_url == m.row.url->Ok_0
            &&& link.title == import_title_of(m.row.title)
            &&& link.expires_at == m.row.expires_at
            &&& link.org_id == m.row.org_id
            &&& link.created_by == m.row.created_by
        },
        row_step(m, i).1 matches RowActionView::StoreMapping { mapping, .. } ==> {
            &&& mapping.destination_url == m.row.url->Ok_0
            &&& mapping.status == LinkStatus::Active
            &&& mapping.expires_at == m.row.expires_at
            &&& !mapping.forward_query_params
        },
{
}

/// A new row machine satisfies the invariant, and every step keeps it.
pub proof fn lemma_row_inv(row: ImportRowView, m: RowMachineView, i: RowInputView)
    ensures
        row_inv(initial_row(row)),
        row_inv(m) ==> row_inv(row_step(m, i).0),
{
}

/// Each step before the outcome moves strictly closer to it; a finished row
/// stays put.
pub proof fn lemma_row_progress(m: RowMachineView, i: RowInputView)
    requires
        row_inv(m),
    ensures
        m.stage != RowStage::Done ==> row_rank(row_step(m, i).0) < row_rank(m),
        m.stage == RowStage::Done ==> row_step(m, i) == (m, RowActionView::Idle),
{
}

/// What an import promises of each row: a Pro row's chosen code is written
/// as given or the row is skipped, never replaced; a row that ends failed or
/// skipped wrote no link; a row is reported created only once its redirect
/// entry is stored.
pub proof fn lemma_row_outcomes(m: RowMachineView, i: RowInputView)
    requires
        row_inv(m),
    ensures
        row_step(m, i).1 matches RowActionView::CreateLink { link } ==> (uses_chosen(
            row_step(m, i).0,
        ) ==> link.short_code == m.row.chosen->0),
        row_step(m, i).1 matches RowActionView::Finish(o) ==> (!(o is Created) <==> !m.written),
        row_step(m, i).1 matches RowActionView::Finish(OutcomeView::Created { .. }) ==> m.stage
            == RowStage::AwaitMapping && i == RowInputView::Done,
        row_step(m, i).1 matches RowActionView::Finish(OutcomeView::DuplicateCode { .. }) ==> m.stage
            == RowStage::AwaitChosen && uses_chosen(m),
{
}

} // verus!
