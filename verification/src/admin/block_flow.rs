//! The sequence of steps that blocking a destination goes through.
//!
//! The request is checked (administrator, body, fields), the block is added
//! unless it exists, every candidate link is checked against the blocklist,
//! and each caught link is set to blocked, its reports resolved and its
//! redirect entry removed. [`BlockMachine`] makes the decisions; the caller
//! performs each [`BlockAction`] and feeds the result back as a
//! [`BlockInput`].
use crate::admin::blacklist::{
    block_key, block_resolution_note, domain_key_of, match_type_name, parse_match_type, MatchType,
};
use crate::orgs::roles::Denial;
use vstd::prelude::*;

verus! {

broadcast use vstd::string::group_string_axioms;

pub open spec fn opt_view(o: Option<String>) -> Option<Seq<char>> {
    match o {
        Some(s) => Some(s@),
        None => None,
    }
}

/// The request as the machine is given it.
#[derive(Debug)]
pub struct BlockRequest {
    /// The refusal of a caller who is not an administrator.
    pub admin_refusal: Option<Denial>,
    /// Why the body is not JSON, if it is not.
    pub json_error: Option<String>,
    /// The body's `destination`, `match_type` and `reason`, when strings.
    pub destination: Option<String>,
    pub match_type: Option<String>,
    pub reason: Option<String>,
    /// The destination normalized for an exact block (`None` when that
    /// failed).
    pub normalized: Option<String>,
    /// The administrator's user id.
    pub admin_id: String,
}

pub struct BlockRequestView {
    pub admin_refusal: Option<(u16, Seq<char>)>,
    pub json_error: Option<Seq<char>>,
    pub destination: Option<Seq<char>>,
    pub match_type: Option<Seq<char>>,
    pub reason: Option<Seq<char>>,
    pub normalized: Option<Seq<char>>,
    pub admin_id: Seq<char>,
}

impl View for BlockRequest {
    type V = BlockRequestView;

    open spec fn view(&self) -> BlockRequestView {
        BlockRequestView {
            admin_refusal: match self.admin_refusal {
                Some(d) => Some((d.status, d.message@)),
                None => None,
            },
            json_error: opt_view(self.json_error),
            destination: opt_view(self.destination),
            match_type: opt_view(self.match_type),
            reason: opt_view(self.reason),
            normalized: opt_view(self.normalized),
            admin_id: self.admin_id@,
        }
    }
}

/// A link the block may catch.
#[derive(Debug, Clone)]
pub struct CandidateLink {
    pub id: String,
    pub org_id: String,
    pub short_code: String,
    pub destination_url: String,
}

/// The result of the last action.
#[derive(Debug)]
pub enum BlockInput {
    Begin,
    /// Whether the block exists already; whether the blocklist catches a
    /// candidate's destination.
    Flag(bool),
    /// The links the block may catch.
    Candidates(Vec<CandidateLink>),
    Done,
    Failed,
}

pub enum BlockInputView {
    Begin,
    Flag(bool),
    Candidates(Seq<CandidateLink>),
    Done,
    Failed,
}

impl View for BlockInput {
    type V = BlockInputView;

    open spec fn view(&self) -> BlockInputView {
        match self {
            BlockInput::Begin => BlockInputView::Begin,
            BlockInput::Flag(b) => BlockInputView::Flag(*b),
            BlockInput::Candidates(v) => BlockInputView::Candidates(v@),
            BlockInput::Done => BlockInputView::Done,
            BlockInput::Failed => BlockInputView::Failed,
        }
    }
}

/// What the caller must do next.
#[derive(Debug)]
pub enum BlockAction {
    /// Answer with this status and message.
    Refused { status: u16, message: String },
    /// 200 `{"success": false, "message": "Destination is already blocked",
    /// "already_blocked": true}`.
    AlreadyBlocked,
    /// 200 `{"success": true, "message": "Destination blocked successfully",
    /// "blocked_links": count}`.
    Blocked { count: u64 },
    /// Let the store error propagate.
    Abort,
    Idle,
    /// Whether a block with this key and match type exists.
    CheckDuplicate { key: String, match_type: MatchType },
    /// Add the block.
    AddBlock { key: String, match_type: MatchType, reason: String, admin_id: String },
    /// List the links the block may catch.
    ListCandidates,
    /// Whether the blocklist now catches this destination.
    CheckBlocked { url: String },
    /// Set link `link_id`'s status to blocked.
    SetBlocked { link_id: String },
    /// Resolve the link's open reports with `note` (a failure is ignored).
    ResolveReports { link_id: String, note: String, admin_id: String },
    /// Remove the link's redirect entry (a failure is ignored).
    DeleteMapping { org_id: String, short_code: String },
}

pub enum BlockActionView {
    Refused { status: u16, message: Seq<char> },
    AlreadyBlocked,
    Blocked { count: u64 },
    Abort,
    Idle,
    CheckDuplicate { key: Seq<char>, match_type: MatchType },
    AddBlock { key: Seq<char>, match_type: MatchType, reason: Seq<char>, admin_id: Seq<char> },
    ListCandidates,
    CheckBlocked { url: Seq<char> },
    SetBlocked { link_id: Seq<char> },
    ResolveReports { link_id: Seq<char>, note: Seq<char>, admin_id: Seq<char> },
    DeleteMapping { org_id: Seq<char>, short_code: Seq<char> },
}

impl View for BlockAction {
    type V = BlockActionView;

    open spec fn view(&self) -> BlockActionView {
        match self {
            BlockAction::Refused { status, message } => BlockActionView::Refused {
                status: *status,
                message: message@,
            },
            BlockAction::AlreadyBlocked => BlockActionView::AlreadyBlocked,
            BlockAction::Blocked { count } => BlockActionView::Blocked { count: *count },
            BlockAction::Abort => BlockActionView::Abort,
            BlockAction::Idle => BlockActionView::Idle,
            BlockAction::CheckDuplicate { key, match_type } => BlockActionView::CheckDuplicate {
                key: key@,
                match_type: *match_type,
            },
            BlockAction::AddBlock { key, match_type, reason, admin_id } => BlockActionView::AddBlock {
                key: key@,
                match_type: *match_type,
                reason: reason@,
                admin_id: admin_id@,
            },
            BlockAction::ListCandidates => BlockActionView::ListCandidates,
            BlockAction::CheckBlocked { url } => BlockActionView::CheckBlocked { url: url@ },
            BlockAction::SetBlocked { link_id } => BlockActionView::SetBlocked { link_id: link_id@ },
            BlockAction::ResolveReports { link_id, note, admin_id } => BlockActionView::ResolveReports {
                link_id: link_id@,
                note: note@,
                admin_id: admin_id@,
            },
            BlockAction::DeleteMapping { org_id, short_code } => BlockActionView::DeleteMapping {
                org_id: org_id@,
                short_code: short_code@,
            },
        }
    }
}

/// Where the machine stands.
#[derive(Debug, Clone, Copy, PartialEq, Eq, Structural)]
pub enum BlockStage {
    Start,
    AwaitDuplicate,
    AwaitAdd,
    AwaitCandidates,
    AwaitCheck,
    AwaitSetBlocked,
    AwaitResolve,
    AwaitDeleteMapping,
    Done,
}

/// The decision state of one block request.
pub struct BlockMachine {
    pub req: BlockRequest,
    pub stage: BlockStage,
    pub key: String,
    pub match_type: MatchType,
    pub candidates: Vec<CandidateLink>,
    /// Candidates checked so far.
    pub checked: usize,
    /// The positions of the candidates the blocklist caught, in order.
    pub caught: Vec<usize>,
    /// Caught links dealt with so far.
    pub done: usize,
}

pub struct BlockMachineView {
    pub req: BlockRequestView,
    pub stage: BlockStage,
    pub key: Seq<char>,
    pub match_type: MatchType,
    pub candidates: Seq<CandidateLink>,
    pub checked: nat,
    pub caught: Seq<usize>,
    pub done: nat,
}

impl View for BlockMachine {
    type V = BlockMachineView;

    open spec fn view(&self) -> BlockMachineView {
        BlockMachineView {
            req: self.req@,
            stage: self.stage,
            key: self.key@,
            match_type: self.match_type,
            candidates: self.candidates@,
            checked: self.checked as nat,
            caught: self.caught@,
            done: self.done as nat,
        }
    }
}

/// `match_type` as `parse_match_type` reads it.
pub open spec fn match_type_of(field: Option<Seq<char>>) -> Result<MatchType, Seq<char>> {
    match field {
        None => Ok(MatchType::Exact),
        Some(m) => if m == "exact"@ {
            Ok(MatchType::Exact)
        } else if m == "domain"@ {
            Ok(MatchType::Domain)
        } else {
            Err("Invalid match_type. Must be 'exact' or 'domain'"@)
        },
    }
}

/// The stored key of a block, as `block_key` builds it.
pub open spec fn block_key_of(mt: MatchType, destination: Seq<char>, normalized: Option<Seq<char>>) -> Seq<char> {
    match mt {
        MatchType::Exact => match normalized {
            Some(n) => n,
            None => destination,
        },
        MatchType::Domain => domain_key_of(destination),
    }
}

pub open spec fn at(m: BlockMachineView, s: BlockStage) -> BlockMachineView {
    BlockMachineView { stage: s, ..m }
}

pub open spec fn end(m: BlockMachineView, a: BlockActionView) -> (BlockMachineView, BlockActionView) {
    (at(m, BlockStage::Done), a)
}

pub open spec fn refuse(m: BlockMachineView, status: u16, message: Seq<char>) -> (
    BlockMachineView,
    BlockActionView,
) {
    end(m, BlockActionView::Refused { status, message })
}

/// The next caught link to deal with, or the answer once all are done.
pub open spec fn next_caught(m: BlockMachineView) -> (BlockMachineView, BlockActionView) {
    if m.done < m.caught.len() {
        (
            at(m, BlockStage::AwaitSetBlocked),
            BlockActionView::SetBlocked { link_id: m.candidates[m.caught[m.done as int] as int].id@ },
        )
    } else {
        end(m, BlockActionView::Blocked { count: m.caught.len() as u64 })
    }
}

/// The next candidate to check, or on to the caught links once all are.
pub open spec fn next_candidate(m: BlockMachineView) -> (BlockMachineView, BlockActionView) {
    if m.checked < m.candidates.len() {
        (
            at(m, BlockStage::AwaitCheck),
            BlockActionView::CheckBlocked { url: m.candidates[m.checked as int].destination_url@ },
        )
    } else {
        next_caught(BlockMachineView { done: 0, ..m })
    }
}

/// The caught link being dealt with.
pub open spec fn current(m: BlockMachineView) -> CandidateLink {
    m.candidates[m.caught[m.done as int] as int]
}

/// One step of a block request.
pub open spec fn block_step(m: BlockMachineView, i: BlockInputView) -> (BlockMachineView, BlockActionView) {
    match m.stage {
        BlockStage::Start => match m.req.admin_refusal {
            Some((status, message)) => refuse(m, status, message),
            None => match m.req.json_error {
                Some(e) => refuse(m, 400, "Invalid JSON: "@ + e),
                None => match m.req.destination {
                    None => refuse(m, 400, "Missing 'destination' field"@),
                    Some(d) => match match_type_of(m.req.match_type) {
                        Err(msg) => refuse(m, 400, msg),
                        Ok(mt) => match m.req.reason {
                            None => refuse(m, 400, "Missing 'reason' field"@),
                            Some(_) => {
                                let key = block_key_of(mt, d, m.req.normalized);
                                (
                                    BlockMachineView {
                                        stage: BlockStage::AwaitDuplicate,
                                        key,
                                        match_type: mt,
                                        ..m
                                    },
                                    BlockActionView::CheckDuplicate { key, match_type: mt },
                                )
                            },
                        },
                    },
                },
            },
        },
        BlockStage::AwaitDuplicate => match i {
            BlockInputView::Flag(true) => end(m, BlockActionView::AlreadyBlocked),
            BlockInputView::Flag(false) => (
                at(m, BlockStage::AwaitAdd),
                BlockActionView::AddBlock {
                    key: m.key,
                    match_type: m.match_type,
                    reason: m.req.reason.unwrap_or(""@),
                    admin_id: m.req.admin_id,
                },
            ),
            _ => end(m, BlockActionView::Abort),
        },
        BlockStage::AwaitAdd => match i {
            BlockInputView::Done => (at(m, BlockStage::AwaitCandidates), BlockActionView::ListCandidates),
            _ => end(m, BlockActionView::Abort),
        },
        BlockStage::AwaitCandidates => match i {
            BlockInputView::Candidates(v) => next_candidate(
                BlockMachineView { candidates: v, checked: 0, caught: Seq::empty(), done: 0, ..m },
            ),
            _ => end(m, BlockActionView::Abort),
        },
        BlockStage::AwaitCheck => match i {
            BlockInputView::Flag(b) => next_candidate(
                BlockMachineView {
                    caught: if b {
                        m.caught.push(m.checked as usize)
                    } else {
                        m.caught
                    },
                    checked: m.checked + 1,
                    ..m
                },
            ),
            _ => end(m, BlockActionView::Abort),
        },
        BlockStage::AwaitSetBlocked => match i {
            BlockInputView::Done => (
                at(m, BlockStage::AwaitResolve),
                BlockActionView::ResolveReports {
                    link_id: current(m).id@,
                    note: "Action taken: Blocked "@ + match_type_name(m.match_type) + " ("@
                        + m.req.destination.unwrap_or(""@) + ")"@,
                    admin_id: m.req.admin_id,
                },
            ),
            _ => end(m, BlockActionView::Abort),
        },
        BlockStage::AwaitResolve => (
            at(m, BlockStage::AwaitDeleteMapping),
            BlockActionView::DeleteMapping {
                org_id: current(m).org_id@,
                short_code: current(m).short_code@,
            },
        ),
        BlockStage::AwaitDeleteMapping => next_caught(BlockMachineView { done: m.done + 1, ..m }),
        BlockStage::Done => (m, BlockActionView::Idle),
    }
}

/// The machine before its first step.
pub open spec fn initial_block(req: BlockRequestView) -> BlockMachineView {
    BlockMachineView {
        req,
        stage: BlockStage::Start,
        key: ""@,
        match_type: MatchType::Exact,
        candidates: Seq::empty(),
        checked: 0,
        caught: Seq::empty(),
        done: 0,
    }
}

/// What holds of every reachable machine: the caught positions are checked
/// candidates, in increasing order; past the checks a caught link is being
/// dealt with; past the start, the request had a destination and a reason.
pub open spec fn block_inv(m: BlockMachineView) -> bool {
    &&& m.candidates.len() <= usize::MAX
    &&& m.checked <= m.candidates.len()
    &&& forall|a: int| 0 <= a < m.caught.len() ==> #[trigger] m.caught[a] < m.checked
    &&& forall|a: int, b: int| 0 <= a < b < m.caught.len() ==> #[trigger] m.caught[a] < #[trigger] m.caught[b]
    &&& m.caught.len() <= m.checked
    &&& m.done <= m.caught.len()
    &&& (m.stage == BlockStage::AwaitCheck ==> m.checked < m.candidates.len())
    &&& (m.stage == BlockStage::AwaitSetBlocked || m.stage == BlockStage::AwaitResolve || m.stage
        == BlockStage::AwaitDeleteMapping ==> m.done < m.caught.len() && m.checked == m.candidates.len())
    &&& (m.stage != BlockStage::Start && m.stage != BlockStage::Done ==> m.req.destination is Some
        && m.req.reason is Some && m.req.admin_refusal is None && m.req.json_error is None)
}

/// The phase of the machine; within the check and block phases, how much is
/// left.
pub open spec fn block_phase(s: BlockStage) -> nat {
    match s {
        BlockStage::Start => 7,
        BlockStage::AwaitDuplicate => 6,
        BlockStage::AwaitAdd => 5,
        BlockStage::AwaitCandidates => 4,
        BlockStage::AwaitCheck => 3,
        BlockStage::AwaitSetBlocked | BlockStage::AwaitResolve | BlockStage::AwaitDeleteMapping => 2,
        BlockStage::Done => 0,
    }
}

pub open spec fn block_left(m: BlockMachineView) -> nat {
    match m.stage {
        BlockStage::AwaitCheck => (m.candidates.len() - m.checked) as nat,
        BlockStage::AwaitSetBlocked => (3 * (m.caught.len() - m.done) + 2) as nat,
        BlockStage::AwaitResolve => (3 * (m.caught.len() - m.done) + 1) as nat,
        BlockStage::AwaitDeleteMapping => (3 * (m.caught.len() - m.done)) as nat,
        _ => 0,
    }
}

impl BlockMachine {
    /// A machine for one block request.
    pub fn new(req: BlockRequest) -> (r: Self)
        ensures
            r@ == initial_block(req@),
    {
        BlockMachine {
            req,
            stage: BlockStage::Start,
            key: "".to_string(),
            match_type: MatchType::Exact,
            candidates: Vec::new(),
            checked: 0,
            caught: Vec::new(),
            done: 0,
        }
    }

    fn end(&mut self, a: BlockAction) -> (r: BlockAction)
        ensures
            (final(self)@, r@) == end(old(self)@, a@),
    {
        self.stage = BlockStage::Done;
        a
    }

    fn refuse(&mut self, status: u16, message: String) -> (r: BlockAction)
        ensures
            (final(self)@, r@) == refuse(old(self)@, status, message@),
    {
        self.end(BlockAction::Refused { status, message })
    }

    fn next_caught(&mut self) -> (r: BlockAction)
        requires
            old(self).done <= old(self).caught.len(),
            forall|a: int|
                0 <= a < old(self)@.caught.len() ==> #[trigger] old(self)@.caught[a] < old(
                    self,
                )@.candidates.len(),
        ensures
            (final(self)@, r@) == next_caught(old(self)@),
    {
        if self.done < self.caught.len() {
            let pos = self.caught[self.done];
            self.stage = BlockStage::AwaitSetBlocked;
            BlockAction::SetBlocked { link_id: self.candidates[pos].id.clone() }
        } else {
            let count = self.caught.len() as u64;
            self.end(BlockAction::Blocked { count })
        }
    }

    fn next_candidate(&mut self) -> (r: BlockAction)
        requires
            old(self).checked <= old(self).candidates.len(),
            old(self).caught.len() <= old(self).checked,
            forall|a: int| 0 <= a < old(self)@.caught.len() ==> #[trigger] old(self)@.caught[a] < old(
                self,
            )@.checked,
        ensures
            (final(self)@, r@) == next_candidate(old(self)@),
    {
        if self.checked < self.candidates.len() {
            self.stage = BlockStage::AwaitCheck;
            BlockAction::CheckBlocked { url: self.candidates[self.checked].destination_url.clone() }
        } else {
            self.done = 0;
            assert forall|a: int| 0 <= a < self@.caught.len() implies #[trigger] self@.caught[a]
                < self@.candidates.len() by {
                assert(old(self)@.caught[a] < old(self)@.checked);
            }
            self.next_caught()
        }
    }

    fn start(&mut self) -> (r: BlockAction)
        requires
            old(self).stage == BlockStage::Start,
        ensures
            (final(self)@, r@) == block_step(old(self)@, BlockInputView::Begin),
    {
        if let Some(d) = &self.req.admin_refusal {
            let (status, message) = (d.status, d.message.clone());
            return self.refuse(status, message);
        }
        if let Some(e) = &self.req.json_error {
            let mut message = "Invalid JSON: ".to_string();
            message.append(e.as_str());
            return self.refuse(400, message);
        }
        let destination = match &self.req.destination {
            None => return self.refuse(400, "Missing 'destination' field".to_string()),
            Some(d) => d.clone(),
        };
        let field = match &self.req.match_type {
            Some(t) => Some(t.as_str()),
            None => None,
        };
        let mt = match parse_match_type(field) {
            Err(msg) => return self.refuse(400, msg.to_string()),
            Ok(mt) => mt,
        };
        if self.req.reason.is_none() {
            return self.refuse(400, "Missing 'reason' field".to_string());
        }
        let normalized = match &self.req.normalized {
            Some(n) => Some(n.as_str()),
            None => None,
        };
        let key = block_key(mt, destination.as_str(), normalized);
        self.key = key.clone();
        self.match_type = mt;
        self.stage = BlockStage::AwaitDuplicate;
        BlockAction::CheckDuplicate { key, match_type: mt }
    }

    /// Feeds the result of the last action and returns the next action.
    pub fn step(&mut self, input: BlockInput) -> (a: BlockAction)
        requires
            block_inv(old(self)@),
        ensures
            (final(self)@, a@) == block_step(old(self)@, input@),
    {
        match self.stage {
            BlockStage::Start => self.start(),
            BlockStage::AwaitDuplicate => match input {
                BlockInput::Flag(true) => self.end(BlockAction::AlreadyBlocked),
                BlockInput::Flag(false) => {
                    let reason = match &self.req.reason {
                        Some(r) => r.clone(),
                        None => "".to_string(),
                    };
                    self.stage = BlockStage::AwaitAdd;
                    BlockAction::AddBlock {
                        key: self.key.clone(),
                        match_type: self.match_type,
                        reason,
                        admin_id: self.req.admin_id.clone(),
                    }
                },
                _ => self.end(BlockAction::Abort),
            },
            BlockStage::AwaitAdd => match input {
                BlockInput::Done => {
                    self.stage = BlockStage::AwaitCandidates;
                    BlockAction::ListCandidates
                },
                _ => self.end(BlockAction::Abort),
            },
            BlockStage::AwaitCandidates => match input {
                BlockInput::Candidates(v) => {
                    self.candidates = v;
                    self.checked = 0;
                    self.caught = Vec::new();
                    self.done = 0;
                    self.next_candidate()
                },
                _ => self.end(BlockAction::Abort),
            },
            BlockStage::AwaitCheck => match input {
                BlockInput::Flag(b) => {
                    let ghost before = self.caught@;
                    assert(self.checked < self.candidates.len());
                    if b {
                        self.caught.push(self.checked);
                    }
                    self.checked = self.checked + 1;
                    assert forall|a: int| 0 <= a < self@.caught.len() implies #[trigger] self@.caught[a] < self@.checked by {
                        if a < before.len() {
                            assert(self@.caught[a] == before[a]);
                        }
                    }
                    self.next_candidate()
                },
                _ => self.end(BlockAction::Abort),
            },
            BlockStage::AwaitSetBlocked => match input {
                BlockInput::Done => {
                    let link = &self.candidates[self.caught[self.done]];
                    let destination = match &self.req.destination {
                        Some(d) => d.clone(),
                        None => "".to_string(),
                    };
                    let note = block_resolution_note(self.match_type, destination.as_str());
                    let link_id = link.id.clone();
                    self.stage = BlockStage::AwaitResolve;
                    BlockAction::ResolveReports { link_id, note, admin_id: self.req.admin_id.clone() }
                },
                _ => self.end(BlockAction::Abort),
            },
            BlockStage::AwaitResolve => {
                let link = &self.candidates[self.caught[self.done]];
                let org_id = link.org_id.clone();
                let short_code = link.short_code.clone();
                self.stage = BlockStage::AwaitDeleteMapping;
                BlockAction::DeleteMapping { org_id, short_code }
            },
            BlockStage::AwaitDeleteMapping => {
                self.done = self.done + 1;
                assert(forall|a: int| 0 <= a < self@.caught.len() ==> #[trigger] self@.caught[a] < self@.candidates.len());
                self.next_caught()
            },
            BlockStage::Done => BlockAction::Idle,
        }
    }
}

/// The bookkeeping part of the invariant.
pub open spec fn block_data_ok(m: BlockMachineView) -> bool {
    &&& m.candidates.len() <= usize::MAX
    &&& m.checked <= m.candidates.len()
    &&& forall|a: int| 0 <= a < m.caught.len() ==> #[trigger] m.caught[a] < m.checked
    &&& forall|a: int, b: int| 0 <= a < b < m.caught.len() ==> #[trigger] m.caught[a] < #[trigger] m.caught[b]
    &&& m.caught.len() <= m.checked
    &&& m.done <= m.caught.len()
}

pub open spec fn block_req_ok(m: BlockMachineView) -> bool {
    m.req.destination is Some && m.req.reason is Some && m.req.admin_refusal is None
        && m.req.json_error is None
}

proof fn lemma_next_candidate_inv(m: BlockMachineView)
    requires
        block_data_ok(m),
        block_req_ok(m),
    ensures
        block_inv(next_candidate(m).0),
{
}

proof fn lemma_next_caught_inv(m: BlockMachineView)
    requires
        block_data_ok(m),
        block_req_ok(m),
        m.checked == m.candidates.len(),
    ensures
        block_inv(next_caught(m).0),
{
}

/// A new machine satisfies the invariant, and every step keeps it (for the
/// inputs a store can give: a list of candidates fits in memory).
pub proof fn lemma_block_inv(req: BlockRequestView, m: BlockMachineView, i: BlockInputView)
    requires
        i matches BlockInputView::Candidates(v) ==> v.len() <= usize::MAX,
    ensures
        block_inv(initial_block(req)),
        block_inv(m) ==> block_inv(block_step(m, i).0),
{
    if block_inv(m) {
        match m.stage {
            BlockStage::AwaitCandidates => {
                if let BlockInputView::Candidates(v) = i {
                    lemma_next_candidate_inv(
                        BlockMachineView { candidates: v, checked: 0, caught: Seq::empty(), done: 0, ..m },
                    );
                }
            },
            BlockStage::AwaitCheck => {
                if let BlockInputView::Flag(b) = i {
                    let m1 = BlockMachineView {
                        caught: if b {
                            m.caught.push(m.checked as usize)
                        } else {
                            m.caught
                        },
                        checked: m.checked + 1,
                        ..m
                    };
                    assert forall|a: int| 0 <= a < m1.caught.len() implies #[trigger] m1.caught[a] < m1.checked by {
                        if a < m.caught.len() {
                            assert(m1.caught[a] == m.caught[a]);
                        }
                    }
                    assert forall|a: int, c: int| 0 <= a < c < m1.caught.len() implies #[trigger] m1.caught[a]
                        < #[trigger] m1.caught[c] by {
                        assert(m1.caught[a] == m.caught[a]);
                        if c < m.caught.len() {
                            assert(m1.caught[c] == m.caught[c]);
                        } else {
                            assert(m.caught[a] < m.checked);
                        }
                    }
                    lemma_next_candidate_inv(m1);
                }
            },
            BlockStage::AwaitDeleteMapping => {
                lemma_next_caught_inv(BlockMachineView { done: m.done + 1, ..m });
            },
            _ => {},
        }
    }
}

/// Each step moves the machine to an earlier phase, or, within checking the
/// candidates or dealing with the caught links, leaves strictly less to do;
/// a finished machine stays put.
pub proof fn lemma_block_progress(m: BlockMachineView, i: BlockInputView)
    requires
        block_inv(m),
    ensures
        m.stage != BlockStage::Done ==> block_phase(block_step(m, i).0.stage) < block_phase(m.stage) || (
        block_phase(block_step(m, i).0.stage) == block_phase(m.stage) && block_left(block_step(m, i).0)
            < block_left(m)),
        m.stage == BlockStage::Done ==> block_step(m, i) == (m, BlockActionView::Idle),
{
}

/// What a block does: a refused request and an existing block change
/// nothing; a candidate is caught exactly when the blocklist catches its
/// destination; only caught links are set to blocked, each once, in order,
/// and the answer counts them.
pub proof fn lemma_block_effects(m: BlockMachineView, i: BlockInputView)
    requires
        block_inv(m),
    ensures
        m.stage == BlockStage::AwaitDuplicate && i == BlockInputView::Flag(true) ==> block_step(m, i).1
            == BlockActionView::AlreadyBlocked,
        m.stage == BlockStage::AwaitCheck ==> (i matches BlockInputView::Flag(b) ==> block_step(m, i).0.caught
            == (if b {
            m.caught.push(m.checked as usize)
        } else {
            m.caught
        })),
        block_step(m, i).1 matches BlockActionView::SetBlocked { link_id } ==> exists|k: int|
            0 <= k < block_step(m, i).0.caught.len() && link_id
                == block_step(m, i).0.candidates[#[trigger] block_step(m, i).0.caught[k] as int].id@,
        block_step(m, i).1 matches BlockActionView::Blocked { count } ==> count == block_step(m, i).0.caught.len(),
{
    let m2 = block_step(m, i).0;
    if let BlockActionView::SetBlocked { link_id } = block_step(m, i).1 {
        assert(0 <= m2.done < m2.caught.len());
        assert(link_id == m2.candidates[m2.caught[m2.done as int] as int].id@);
    }
}

} // verus!
