//! The sequence of steps that deleting an organization goes through.
//!
//! The caller's role is checked, then the number of organizations they
//! belong to, then the body; the links are deleted or moved (after the
//! target's role and capacity are checked), the organization is deleted and
//! the session switches to another organization. [`DeleteMachine`] makes the
//! decisions; the caller performs each [`DeleteAction`] and feeds the result
//! back as a [`DeleteInput`].
use crate::orgs::manage::{
    capacity_message, check_migration_capacity, fallback_org, is_fallback, is_other,
    plan_org_deletion, DeleteOrgAction, DeleteOrgError, OrgMembership,
};
use crate::text::str_is;
use vstd::prelude::*;

verus! {

broadcast use vstd::string::group_string_axioms;

/// The request as the machine is given it.
#[derive(Debug, Clone)]
pub struct DeleteRequest {
    pub org_id: String,
    /// Whether the body is JSON.
    pub body_valid: bool,
    /// The body's `action`, if a string.
    pub action: Option<String>,
    /// The body's `target_org_id`, if a string.
    pub target_org_id: Option<String>,
}

pub struct DeleteRequestView {
    pub org_id: Seq<char>,
    pub body_valid: bool,
    pub action: Option<Seq<char>>,
    pub target_org_id: Option<Seq<char>>,
}

pub open spec fn opt_view(o: Option<String>) -> Option<Seq<char>> {
    match o {
        Some(s) => Some(s@),
        None => None,
    }
}

impl View for DeleteRequest {
    type V = DeleteRequestView;

    open spec fn view(&self) -> DeleteRequestView {
        DeleteRequestView {
            org_id: self.org_id@,
            body_valid: self.body_valid,
            action: opt_view(self.action),
            target_org_id: opt_view(self.target_org_id),
        }
    }
}

/// The result of the last action.
#[derive(Debug, Clone)]
pub enum DeleteInput {
    Begin,
    /// The caller's role in an organization, `None` when not a member.
    Role(Option<String>),
    /// How many organizations the caller belongs to.
    Count(i64),
    /// The target billing account's monthly maximum (if any), its counter, and
    /// the number of links to move.
    TargetQuota { max_links: Option<i64>, used: i64, moving: i64 },
    /// The caller's organizations after the deletion.
    Orgs(Vec<OrgMembership>),
    Done,
    Failed,
}

pub enum DeleteInputView {
    Begin,
    Role(Option<Seq<char>>),
    Count(i64),
    TargetQuota { max_links: Option<i64>, used: i64, moving: i64 },
    Orgs(Seq<OrgMembership>),
    Done,
    Failed,
}

impl View for DeleteInput {
    type V = DeleteInputView;

    open spec fn view(&self) -> DeleteInputView {
        match self {
            DeleteInput::Begin => DeleteInputView::Begin,
            DeleteInput::Role(r) => DeleteInputView::Role(opt_view(*r)),
            DeleteInput::Count(n) => DeleteInputView::Count(*n),
            DeleteInput::TargetQuota { max_links, used, moving } => DeleteInputView::TargetQuota {
                max_links: *max_links,
                used: *used,
                moving: *moving,
            },
            DeleteInput::Orgs(v) => DeleteInputView::Orgs(v@),
            DeleteInput::Done => DeleteInputView::Done,
            DeleteInput::Failed => DeleteInputView::Failed,
        }
    }
}

/// What the caller must do next.
#[derive(Debug, Clone)]
pub enum DeleteAction {
    /// 200: deleted, and the session now uses this organization.
    Deleted { org_id: String, name: String },
    /// Answer with this status and message.
    Refused { status: u16, message: String },
    /// The request fails with this error.
    Fail(String),
    /// Let the store error propagate.
    Abort,
    /// Nothing further.
    Idle,
    /// The caller's role in `org_id`.
    GetRole { org_id: String },
    /// Count the caller's organizations.
    CountMemberOrgs,
    /// Remove the redirect entries of the organization's links (failures
    /// ignored).
    RemoveLinkEntries { org_id: String },
    /// Delete the organization's links and their analytics.
    DeleteLinks { org_id: String },
    /// Read the target's billing limits, counter and the links to move.
    ReadTargetQuota { target_org_id: String },
    /// Add `count` to the target billing account's monthly counter.
    AddToTargetCounter { target_org_id: String, count: i64 },
    /// Move the links from `from` to `to`.
    MigrateLinks { from: String, to: String },
    /// Rewrite the redirect entries of `org_id`'s links (failures ignored).
    RewriteLinkEntries { org_id: String },
    /// Delete the organization.
    DeleteOrg { org_id: String },
    /// List the caller's organizations.
    ListOrgs,
    /// Point the session at `org_id`.
    SwitchSession { org_id: String },
}

pub enum DeleteActionView {
    Deleted { org_id: Seq<char>, name: Seq<char> },
    Refused { status: u16, message: Seq<char> },
    Fail(Seq<char>),
    Abort,
    Idle,
    GetRole { org_id: Seq<char> },
    CountMemberOrgs,
    RemoveLinkEntries { org_id: Seq<char> },
    DeleteLinks { org_id: Seq<char> },
    ReadTargetQuota { target_org_id: Seq<char> },
    AddToTargetCounter { target_org_id: Seq<char>, count: i64 },
    MigrateLinks { from: Seq<char>, to: Seq<char> },
    RewriteLinkEntries { org_id: Seq<char> },
    DeleteOrg { org_id: Seq<char> },
    ListOrgs,
    SwitchSession { org_id: Seq<char> },
}

impl View for DeleteAction {
    type V = DeleteActionView;

    open spec fn view(&self) -> DeleteActionView {
        match self {
            DeleteAction::Deleted { org_id, name } => DeleteActionView::Deleted {
                org_id: org_id@,
                name: name@,
            },
            DeleteAction::Refused { status, message } => DeleteActionView::Refused {
                status: *status,
                message: message@,
            },
            DeleteAction::Fail(m) => DeleteActionView::Fail(m@),
            DeleteAction::Abort => DeleteActionView::Abort,
            DeleteAction::Idle => DeleteActionView::Idle,
            DeleteAction::GetRole { org_id } => DeleteActionView::GetRole { org_id: org_id@ },
            DeleteAction::CountMemberOrgs => DeleteActionView::CountMemberOrgs,
            DeleteAction::RemoveLinkEntries { org_id } => DeleteActionView::RemoveLinkEntries {
                org_id: org_id@,
            },
            DeleteAction::DeleteLinks { org_id } => DeleteActionView::DeleteLinks { org_id: org_id@ },
            DeleteAction::ReadTargetQuota { target_org_id } => DeleteActionView::ReadTargetQuota {
                target_org_id: target_org_id@,
            },
            DeleteAction::AddToTargetCounter { target_org_id, count } =>
                DeleteActionView::AddToTargetCounter { target_org_id: target_org_id@, count: *count },
            DeleteAction::MigrateLinks { from, to } => DeleteActionView::MigrateLinks {
                from: from@,
                to: to@,
            },
            DeleteAction::RewriteLinkEntries { org_id } => DeleteActionView::RewriteLinkEntries {
                org_id: org_id@,
            },
            DeleteAction::DeleteOrg { org_id } => DeleteActionView::DeleteOrg { org_id: org_id@ },
            DeleteAction::ListOrgs => DeleteActionView::ListOrgs,
            DeleteAction::SwitchSession { org_id } => DeleteActionView::SwitchSession {
                org_id: org_id@,
            },
        }
    }
}

/// Where the machine stands.
#[derive(Debug, Clone, Copy, PartialEq, Eq, Structural)]
pub enum DeleteStage {
    Start,
    AwaitRole,
    AwaitCount,
    AwaitRemoveEntries,
    AwaitDeleteLinks,
    AwaitTargetRole,
    AwaitTargetQuota,
    AwaitAddCounter,
    AwaitMigrate,
    AwaitRewrite,
    AwaitDeleteOrg,
    AwaitOrgs,
    AwaitSwitch,
    Done,
}

/// The decision state of one deletion.
pub struct DeleteMachine {
    pub req: DeleteRequest,
    pub stage: DeleteStage,
    /// The migration target, once chosen.
    pub target: String,
    /// The organization the session switches to: id and name.
    pub next_id: String,
    pub next_name: String,
    /// The caller owns the organization.
    pub owner_ok: bool,
    /// How many organizations the caller belongs to (0 before it is read).
    pub member_orgs: i64,
    /// The caller owns the migration target.
    pub target_ok: bool,
}

pub struct DeleteMachineView {
    pub req: DeleteRequestView,
    pub stage: DeleteStage,
    pub target: Seq<char>,
    pub next_id: Seq<char>,
    pub next_name: Seq<char>,
    pub owner_ok: bool,
    pub member_orgs: i64,
    pub target_ok: bool,
}

impl View for DeleteMachine {
    type V = DeleteMachineView;

    open spec fn view(&self) -> DeleteMachineView {
        DeleteMachineView {
            req: self.req@,
            stage: self.stage,
            target: self.target@,
            next_id: self.next_id@,
            next_name: self.next_name@,
            owner_ok: self.owner_ok,
            member_orgs: self.member_orgs,
            target_ok: self.target_ok,
        }
    }
}

/// The plan `plan_org_deletion` gives: the links' fate, or a refusal
/// (`Ok(None)` deletes the links, `Ok(Some(t))` moves them to `t`).
pub open spec fn deletion_plan_of(
    member_orgs: i64,
    action: Option<Seq<char>>,
    target: Option<Seq<char>>,
) -> Result<Option<Seq<char>>, DeleteOrgError> {
    if member_orgs <= 1 {
        Err(DeleteOrgError::OnlyOrganization)
    } else {
        match action {
            None => Err(DeleteOrgError::ActionMissing),
            Some(a) => if a == "delete"@ {
                Ok(None)
            } else if a == "migrate"@ {
                match target {
                    Some(t) => Ok(Some(t)),
                    None => Err(DeleteOrgError::TargetMissing),
                }
            } else {
                Err(DeleteOrgError::InvalidAction)
            },
        }
    }
}

/// The first index from `k` on of an organization other than `d` (owned by
/// the caller when `owned`).
pub open spec fn first_from(v: Seq<OrgMembership>, d: Seq<char>, k: int, owned: bool) -> Option<int>
    decreases v.len() - k,
{
    if k < 0 || k >= v.len() {
        None
    } else if (if owned {
        is_fallback(v[k], d)
    } else {
        is_other(v[k], d)
    }) {
        Some(k)
    } else {
        first_from(v, d, k + 1, owned)
    }
}

/// The organization the session switches to: the first other one owned, else
/// the first other one.
pub open spec fn fallback_of(v: Seq<OrgMembership>, d: Seq<char>) -> Option<int> {
    match first_from(v, d, 0, true) {
        Some(i) => Some(i),
        None => first_from(v, d, 0, false),
    }
}

proof fn lemma_first_from(v: Seq<OrgMembership>, d: Seq<char>, k: int, owned: bool, i: int)
    requires
        0 <= k <= i < v.len(),
        if owned {
            is_fallback(v[i], d)
        } else {
            is_other(v[i], d)
        },
        forall|j: int|
            k <= j < i ==> !(if owned {
                is_fallback(#[trigger] v[j], d)
            } else {
                is_other(v[j], d)
            }),
    ensures
        first_from(v, d, k, owned) == Some(i),
    decreases i - k,
{
    if k < i {
        lemma_first_from(v, d, k + 1, owned, i);
    }
}

proof fn lemma_first_from_none(v: Seq<OrgMembership>, d: Seq<char>, k: int, owned: bool)
    requires
        0 <= k <= v.len(),
        forall|j: int|
            k <= j < v.len() ==> !(if owned {
                is_fallback(#[trigger] v[j], d)
            } else {
                is_other(v[j], d)
            }),
    ensures
        first_from(v, d, k, owned) is None,
    decreases v.len() - k,
{
    if k < v.len() {
        lemma_first_from_none(v, d, k + 1, owned);
    }
}

pub open spec fn at(m: DeleteMachineView, s: DeleteStage) -> DeleteMachineView {
    DeleteMachineView { stage: s, ..m }
}

pub open spec fn end(m: DeleteMachineView, a: DeleteActionView) -> (DeleteMachineView, DeleteActionView) {
    (at(m, DeleteStage::Done), a)
}

/// Deleting the organization itself, once its links are dealt with.
pub open spec fn delete_org(m: DeleteMachineView) -> (DeleteMachineView, DeleteActionView) {
    (at(m, DeleteStage::AwaitDeleteOrg), DeleteActionView::DeleteOrg { org_id: m.req.org_id })
}

/// One step of an organization's deletion.
pub open spec fn delete_step(m: DeleteMachineView, i: DeleteInputView) -> (
    DeleteMachineView,
    DeleteActionView,
) {
    match m.stage {
        DeleteStage::Start => (
            at(m, DeleteStage::AwaitRole),
            DeleteActionView::GetRole { org_id: m.req.org_id },
        ),
        DeleteStage::AwaitRole => match i {
            DeleteInputView::Role(None) => end(
                m,
                DeleteActionView::Refused { status: 404, message: "Organization not found"@ },
            ),
            DeleteInputView::Role(Some(r)) => if r == "owner"@ {
                (
                    DeleteMachineView { stage: DeleteStage::AwaitCount, owner_ok: true, ..m },
                    DeleteActionView::CountMemberOrgs,
                )
            } else {
                end(
                    m,
                    DeleteActionView::Refused {
                        status: 403,
                        message: "Only org owners can delete the organization"@,
                    },
                )
            },
            _ => end(m, DeleteActionView::Abort),
        },
        DeleteStage::AwaitCount => match i {
            DeleteInputView::Count(n) => {
                let m2 = DeleteMachineView { member_orgs: n, ..m };
                if n <= 1 {
                    end(
                        m2,
                        DeleteActionView::Refused {
                            status: 400,
                            message: "Cannot delete your only organization"@,
                        },
                    )
                } else if !m.req.body_valid {
                    end(m2, DeleteActionView::Fail("Invalid JSON body"@))
                } else {
                    match deletion_plan_of(n, m.req.action, m.req.target_org_id) {
                        Ok(None) => (
                            at(m2, DeleteStage::AwaitRemoveEntries),
                            DeleteActionView::RemoveLinkEntries { org_id: m.req.org_id },
                        ),
                        Ok(Some(t)) => (
                            DeleteMachineView { stage: DeleteStage::AwaitTargetRole, target: t, ..m2 },
                            DeleteActionView::GetRole { org_id: t },
                        ),
                        Err(DeleteOrgError::InvalidAction) => end(
                            m2,
                            DeleteActionView::Refused {
                                status: 400,
                                message: "Invalid action. Must be 'delete' or 'migrate'"@,
                            },
                        ),
                        Err(DeleteOrgError::TargetMissing) => end(
                            m2,
                            DeleteActionView::Fail("target_org_id is required when action is migrate"@),
                        ),
                        Err(_) => end(m2, DeleteActionView::Fail("action is required (delete or migrate)"@)),
                    }
                }
            },
            _ => end(m, DeleteActionView::Abort),
        },
        DeleteStage::AwaitRemoveEntries => match i {
            DeleteInputView::Done => (
                at(m, DeleteStage::AwaitDeleteLinks),
                DeleteActionView::DeleteLinks { org_id: m.req.org_id },
            ),
            _ => end(m, DeleteActionView::Abort),
        },
        DeleteStage::AwaitDeleteLinks => match i {
            DeleteInputView::Done => delete_org(m),
            _ => end(m, DeleteActionView::Abort),
        },
        DeleteStage::AwaitTargetRole => match i {
            DeleteInputView::Role(None) => end(
                m,
                DeleteActionView::Refused { status: 404, message: "Target organization not found"@ },
            ),
            DeleteInputView::Role(Some(r)) => if r == "owner"@ {
                (
                    DeleteMachineView { stage: DeleteStage::AwaitTargetQuota, target_ok: true, ..m },
                    DeleteActionView::ReadTargetQuota { target_org_id: m.target },
                )
            } else {
                end(
                    m,
                    DeleteActionView::Refused {
                        status: 403,
                        message: "You must be an owner of the target organization"@,
                    },
                )
            },
            _ => end(m, DeleteActionView::Abort),
        },
        DeleteStage::AwaitTargetQuota => match i {
            DeleteInputView::TargetQuota { max_links, used, moving } => match max_links {
                None => (
                    at(m, DeleteStage::AwaitMigrate),
                    DeleteActionView::MigrateLinks { from: m.req.org_id, to: m.target },
                ),
                Some(mx) => if !(i64::MIN <= mx - used <= i64::MAX) {
                    end(m, DeleteActionView::Fail("Target billing account counter out of range"@))
                } else if moving > mx - used {
                    end(
                        m,
                        DeleteActionView::Refused {
                            status: 400,
                            message: capacity_message(mx - used, moving as int),
                        },
                    )
                } else {
                    (
                        at(m, DeleteStage::AwaitAddCounter),
                        DeleteActionView::AddToTargetCounter { target_org_id: m.target, count: moving },
                    )
                },
            },
            _ => end(m, DeleteActionView::Abort),
        },
        DeleteStage::AwaitAddCounter => match i {
            DeleteInputView::Done => (
                at(m, DeleteStage::AwaitMigrate),
                DeleteActionView::MigrateLinks { from: m.req.org_id, to: m.target },
            ),
            _ => end(m, DeleteActionView::Abort),
        },
        DeleteStage::AwaitMigrate => match i {
            DeleteInputView::Done => (
                at(m, DeleteStage::AwaitRewrite),
                DeleteActionView::RewriteLinkEntries { org_id: m.target },
            ),
            _ => end(m, DeleteActionView::Abort),
        },
        DeleteStage::AwaitRewrite => match i {
            DeleteInputView::Done => delete_org(m),
            _ => end(m, DeleteActionView::Abort),
        },
        DeleteStage::AwaitDeleteOrg => match i {
            DeleteInputView::Done => (at(m, DeleteStage::AwaitOrgs), DeleteActionView::ListOrgs),
            _ => end(m, DeleteActionView::Abort),
        },
        DeleteStage::AwaitOrgs => match i {
            DeleteInputView::Orgs(v) => match fallback_of(v, m.req.org_id) {
                None => end(m, DeleteActionView::Fail("No other owned organization found"@)),
                Some(k) => (
                    DeleteMachineView {
                        stage: DeleteStage::AwaitSwitch,
                        next_id: v[k].id@,
                        next_name: v[k].name@,
                        ..m
                    },
                    DeleteActionView::SwitchSession { org_id: v[k].id@ },
                ),
            },
            _ => end(m, DeleteActionView::Abort),
        },
        DeleteStage::AwaitSwitch => match i {
            DeleteInputView::Done => end(
                m,
                DeleteActionView::Deleted { org_id: m.next_id, name: m.next_name },
            ),
            _ => end(m, DeleteActionView::Abort),
        },
        DeleteStage::Done => (m, DeleteActionView::Idle),
    }
}

/// The machine before its first step.
pub open spec fn initial_delete(req: DeleteRequestView) -> DeleteMachineView {
    DeleteMachineView {
        req,
        stage: DeleteStage::Start,
        target: ""@,
        next_id: ""@,
        next_name: ""@,
        owner_ok: false,
        member_orgs: 0,
        target_ok: false,
    }
}

/// The stages reached once the deletion was allowed.
pub open spec fn allowed_stage(s: DeleteStage) -> bool {
    !(s == DeleteStage::Start || s == DeleteStage::AwaitRole || s == DeleteStage::AwaitCount || s
        == DeleteStage::Done)
}

/// The stages of a migration after the target was checked.
pub open spec fn target_checked(s: DeleteStage) -> bool {
    s == DeleteStage::AwaitTargetQuota || s == DeleteStage::AwaitAddCounter || s
        == DeleteStage::AwaitMigrate || s == DeleteStage::AwaitRewrite
}

/// What holds of every reachable machine: past the checks the caller owns the
/// organization and belongs to another one; a migration goes on only to a
/// target the caller owns, the one the body named.
pub open spec fn delete_inv(m: DeleteMachineView) -> bool {
    &&& (allowed_stage(m.stage) ==> m.owner_ok && m.member_orgs > 1)
    &&& (m.stage == DeleteStage::AwaitCount ==> m.owner_ok)
    &&& (target_checked(m.stage) ==> m.target_ok && m.req.target_org_id == Some(m.target)
        && m.req.action == Some("migrate"@))
    &&& (m.stage == DeleteStage::AwaitTargetRole ==> m.req.target_org_id == Some(m.target)
        && m.req.action == Some("migrate"@))
    &&& (m.stage == DeleteStage::AwaitRemoveEntries || m.stage == DeleteStage::AwaitDeleteLinks
        ==> m.req.action == Some("delete"@))
}

/// How far the machine is from its answer.
pub open spec fn delete_rank(s: DeleteStage) -> nat {
    match s {
        DeleteStage::Start => 20,
        DeleteStage::AwaitRole => 19,
        DeleteStage::AwaitCount => 18,
        DeleteStage::AwaitRemoveEntries => 17,
        DeleteStage::AwaitDeleteLinks => 16,
        DeleteStage::AwaitTargetRole => 15,
        DeleteStage::AwaitTargetQuota => 14,
        DeleteStage::AwaitAddCounter => 13,
        DeleteStage::AwaitMigrate => 12,
        DeleteStage::AwaitRewrite => 11,
        DeleteStage::AwaitDeleteOrg => 5,
        DeleteStage::AwaitOrgs => 4,
        DeleteStage::AwaitSwitch => 3,
        DeleteStage::Done => 0,
    }
}

impl DeleteMachine {
    /// A machine for one deletion request.
    pub fn new(req: DeleteRequest) -> (r: Self)
        ensures
            r@ == initial_delete(req@),
    {
        DeleteMachine {
            req,
            stage: DeleteStage::Start,
            target: "".to_string(),
            next_id: "".to_string(),
            next_name: "".to_string(),
            owner_ok: false,
            member_orgs: 0,
            target_ok: false,
        }
    }

    fn end(&mut self, a: DeleteAction) -> (r: DeleteAction)
        ensures
            (final(self)@, r@) == end(old(self)@, a@),
    {
        self.stage = DeleteStage::Done;
        a
    }

    fn refuse(&mut self, status: u16, message: &str) -> (r: DeleteAction)
        ensures
            (final(self)@, r@) == end(
                old(self)@,
                DeleteActionView::Refused { status, message: message@ },
            ),
    {
        self.end(DeleteAction::Refused { status, message: message.to_string() })
    }

    fn fail(&mut self, message: &str) -> (r: DeleteAction)
        ensures
            (final(self)@, r@) == end(old(self)@, DeleteActionView::Fail(message@)),
    {
        self.end(DeleteAction::Fail(message.to_string()))
    }

    fn delete_org(&mut self) -> (r: DeleteAction)
        ensures
            (final(self)@, r@) == delete_org(old(self)@),
    {
        self.stage = DeleteStage::AwaitDeleteOrg;
        DeleteAction::DeleteOrg { org_id: self.req.org_id.clone() }
    }

    fn after_count(&mut self, n: i64) -> (r: DeleteAction)
        requires
            old(self).stage == DeleteStage::AwaitCount,
        ensures
            (final(self)@, r@) == delete_step(old(self)@, DeleteInputView::Count(n)),
    {
        self.member_orgs = n;
        if n <= 1 {
            return self.refuse(400, "Cannot delete your only organization");
        }
        if !self.req.body_valid {
            return self.fail("Invalid JSON body");
        }
        let action = match &self.req.action {
            Some(a) => Some(a.as_str()),
            None => None,
        };
        let target = match &self.req.target_org_id {
            Some(t) => Some(t.as_str()),
            None => None,
        };
        let plan = plan_org_deletion(n, action, target);
        proof {
            reveal_strlit("delete");
            reveal_strlit("migrate");
        }
        match plan {
            Ok(DeleteOrgAction::DeleteLinks) => {
                self.stage = DeleteStage::AwaitRemoveEntries;
                DeleteAction::RemoveLinkEntries { org_id: self.req.org_id.clone() }
            },
            Ok(DeleteOrgAction::Migrate { target_org_id }) => {
                self.stage = DeleteStage::AwaitTargetRole;
                self.target = target_org_id.clone();
                DeleteAction::GetRole { org_id: target_org_id }
            },
            Err(DeleteOrgError::InvalidAction) => self.refuse(
                400,
                "Invalid action. Must be 'delete' or 'migrate'",
            ),
            Err(DeleteOrgError::TargetMissing) => self.fail(
                "target_org_id is required when action is migrate",
            ),
            Err(_) => self.fail("action is required (delete or migrate)"),
        }
    }

    fn after_quota(&mut self, max_links: Option<i64>, used: i64, moving: i64) -> (r: DeleteAction)
        requires
            old(self).stage == DeleteStage::AwaitTargetQuota,
        ensures
            (final(self)@, r@) == delete_step(
                old(self)@,
                DeleteInputView::TargetQuota { max_links, used, moving },
            ),
    {
        if let Some(mx) = max_links {
            if (mx as i128) - (used as i128) > i64::MAX as i128 || (mx as i128) - (used as i128)
                < i64::MIN as i128 {
                return self.fail("Target billing account counter out of range");
            }
        }
        match check_migration_capacity(max_links, used, moving) {
            Err(d) => self.end(DeleteAction::Refused { status: d.status, message: d.message }),
            Ok(Some(n)) => {
                self.stage = DeleteStage::AwaitAddCounter;
                DeleteAction::AddToTargetCounter { target_org_id: self.target.clone(), count: n }
            },
            Ok(None) => {
                self.stage = DeleteStage::AwaitMigrate;
                DeleteAction::MigrateLinks { from: self.req.org_id.clone(), to: self.target.clone() }
            },
        }
    }

    fn after_orgs(&mut self, v: Vec<OrgMembership>) -> (r: DeleteAction)
        requires
            old(self).stage == DeleteStage::AwaitOrgs,
        ensures
            (final(self)@, r@) == delete_step(old(self)@, DeleteInputView::Orgs(v@)),
    {
        let found = fallback_org(&v, self.req.org_id.as_str());
        proof {
            let d = self.req.org_id@;
            match found {
                Some(k) => {
                    if is_fallback(v@[k as int], d) {
                        lemma_first_from(v@, d, 0, true, k as int);
                    } else {
                        lemma_first_from_none(v@, d, 0, true);
                        lemma_first_from(v@, d, 0, false, k as int);
                    }
                },
                None => {
                    assert forall|j: int| 0 <= j < v@.len() implies !is_fallback(#[trigger] v@[j], d) by {
                        assert(!is_other(v@[j], d));
                    }
                    lemma_first_from_none(v@, d, 0, true);
                    lemma_first_from_none(v@, d, 0, false);
                },
            }
        }
        match found {
            None => self.fail("No other owned organization found"),
            Some(k) => {
                self.next_id = v[k].id.clone();
                self.next_name = v[k].name.clone();
                self.stage = DeleteStage::AwaitSwitch;
                DeleteAction::SwitchSession { org_id: v[k].id.clone() }
            },
        }
    }

    /// Feeds the result of the last action and returns the next action.
    pub fn step(&mut self, input: DeleteInput) -> (a: DeleteAction)
        ensures
            (final(self)@, a@) == delete_step(old(self)@, input@),
    {
        match self.stage {
            DeleteStage::Start => {
                self.stage = DeleteStage::AwaitRole;
                DeleteAction::GetRole { org_id: self.req.org_id.clone() }
            },
            DeleteStage::AwaitRole => match input {
                DeleteInput::Role(None) => self.refuse(404, "Organization not found"),
                DeleteInput::Role(Some(r)) => if str_is(r.as_str(), "owner") {
                    self.owner_ok = true;
                    self.stage = DeleteStage::AwaitCount;
                    DeleteAction::CountMemberOrgs
                } else {
                    self.refuse(403, "Only org owners can delete the organization")
                },
                _ => self.end(DeleteAction::Abort),
            },
            DeleteStage::AwaitCount => match input {
                DeleteInput::Count(n) => self.after_count(n),
                _ => self.end(DeleteAction::Abort),
            },
            DeleteStage::AwaitRemoveEntries => match input {
                DeleteInput::Done => {
                    self.stage = DeleteStage::AwaitDeleteLinks;
                    DeleteAction::DeleteLinks { org_id: self.req.org_id.clone() }
                },
                _ => self.end(DeleteAction::Abort),
            },
            DeleteStage::AwaitDeleteLinks => match input {
                DeleteInput::Done => self.delete_org(),
                _ => self.end(DeleteAction::Abort),
            },
            DeleteStage::AwaitTargetRole => match input {
                DeleteInput::Role(None) => self.refuse(404, "Target organization not found"),
                DeleteInput::Role(Some(r)) => if str_is(r.as_str(), "owner") {
                    self.target_ok = true;
                    self.stage = DeleteStage::AwaitTargetQuota;
                    DeleteAction::ReadTargetQuota { target_org_id: self.target.clone() }
                } else {
                    self.refuse(403, "You must be an owner of the target organization")
                },
                _ => self.end(DeleteAction::Abort),
            },
            DeleteStage::AwaitTargetQuota => match input {
                DeleteInput::TargetQuota { max_links, used, moving } => self.after_quota(
                    max_links,
                    used,
                    moving,
                ),
                _ => self.end(DeleteAction::Abort),
            },
            DeleteStage::AwaitAddCounter => match input {
                DeleteInput::Done => {
                    self.stage = DeleteStage::AwaitMigrate;
                    DeleteAction::MigrateLinks { from: self.req.org_id.clone(), to: self.target.clone() }
                },
                _ => self.end(DeleteAction::Abort),
            },
            DeleteStage::AwaitMigrate => match input {
                DeleteInput::Done => {
                    self.stage = DeleteStage::AwaitRewrite;
                    DeleteAction::RewriteLinkEntries { org_id: self.target.clone() }
                },
                _ => self.end(DeleteAction::Abort),
            },
            DeleteStage::AwaitRewrite => match input {
                DeleteInput::Done => self.delete_org(),
                _ => self.end(DeleteAction::Abort),
            },
            DeleteStage::AwaitDeleteOrg => match input {
                DeleteInput::Done => {
                    self.stage = DeleteStage::AwaitOrgs;
                    DeleteAction::ListOrgs
                },
                _ => self.end(DeleteAction::Abort),
            },
            DeleteStage::AwaitOrgs => match input {
                DeleteInput::Orgs(v) => self.after_orgs(v),
                _ => self.end(DeleteAction::Abort),
            },
            DeleteStage::AwaitSwitch => match input {
                DeleteInput::Done => {
                    let a = DeleteAction::Deleted {
                        org_id: self.next_id.clone(),
                        name: self.next_name.clone(),
                    };
                    self.end(a)
                },
                _ => self.end(DeleteAction::Abort),
            },
            DeleteStage::Done => DeleteAction::Idle,
        }
    }
}

/// A new machine satisfies the invariant, and every step keeps it.
pub proof fn lemma_delete_inv(req: DeleteRequestView, m: DeleteMachineView, i: DeleteInputView)
    ensures
        delete_inv(initial_delete(req)),
        delete_inv(m) ==> delete_inv(delete_step(m, i).0),
{
    reveal_strlit("delete");
    reveal_strlit("migrate");
}

/// Each step before the answer moves strictly closer to it; a finished
/// machine stays put.
pub proof fn lemma_delete_progress(m: DeleteMachineView, i: DeleteInputView)
    ensures
        m.stage != DeleteStage::Done ==> delete_rank(delete_step(m, i).0.stage) < delete_rank(m.stage),
        m.stage == DeleteStage::Done ==> delete_step(m, i) == (m, DeleteActionView::Idle),
{
}

/// Who may delete what: an organization's links are deleted, moved, or the
/// organization itself deleted only by an owner of it who belongs to another
/// organization; links are deleted only when the body asked for `delete`,
/// and moved only to the target the body named, which the caller owns.
pub proof fn lemma_deletion_guarded(m: DeleteMachineView, i: DeleteInputView)
    requires
        delete_inv(m),
    ensures
        delete_step(m, i).1 is DeleteOrg || delete_step(m, i).1 is DeleteLinks || delete_step(m, i).1
            is MigrateLinks ==> m.owner_ok && m.member_orgs > 1,
        delete_step(m, i).1 is DeleteLinks ==> m.req.action == Some("delete"@),
        delete_step(m, i).1 matches DeleteActionView::MigrateLinks { to, .. } ==> m.target_ok
            && m.req.target_org_id == Some(to),
{
}

} // verus!
