use rushomon::keys::revoke_reply;
use rushomon::links::create_flow::{
    CreateAction, CreateInput, CreateMachine, CreateReply, CreateRequest, Refusal,
};
use rushomon::links::import::RowOutcome;
use rushomon::links::status::LinkStatus;
use rushomon::links::import_flow::{ImportRow, RowAction, RowInput, RowMachine};

fn request() -> CreateRequest {
    CreateRequest {
        link_id: "l1".to_string(),
        org_id: "o1".to_string(),
        created_by: "u1".to_string(),
        now: 1700000000,
        title: Some("Spring sale".to_string()),
        expires_at: Some(1800000000),
        utm_params: None,
        redirect_type: "301".to_string(),
        billing_account_id: "ba1".to_string(),
        year_month: "2024-03".to_string(),
        max_links: None,
        max_tags: None,
        early_refusal: None,
        destination_url: "https://example.com/".to_string(),
        rule_refusal: None,
        custom_code: None,
        tags_refusal: None,
        tags: vec![],
        forward_query_params: Some(false),
    }
}

fn refused(a: &CreateAction) -> Option<(u16, String)> {
    match a {
        CreateAction::Reply(CreateReply::Refused(r)) => Some((r.status, r.message.clone())),
        _ => None,
    }
}

#[test]
fn refused_body_still_takes_quota() {
    let mut req = request();
    req.max_links = Some(25);
    req.early_refusal = Some(Refusal { status: 400, message: "Invalid JSON: eof".to_string() });
    let mut m = CreateMachine::new(req);
    match m.step(CreateInput::Begin) {
        CreateAction::IncrementCounter { billing_account_id, year_month, max_links } => {
            assert_eq!((billing_account_id.as_str(), year_month.as_str(), max_links), ("ba1", "2024-03", 25));
        }
        other => panic!("unexpected {:?}", other),
    }
    let a = m.step(CreateInput::Flag(true));
    assert_eq!(refused(&a), Some((400, "Invalid JSON: eof".to_string())));
    assert!(m.counted);
    assert!(matches!(m.step(CreateInput::Done), CreateAction::Idle));
}

#[test]
fn monthly_quota_used_up() {
    let mut req = request();
    req.max_links = Some(25);
    let mut m = CreateMachine::new(req);
    m.step(CreateInput::Begin);
    assert!(matches!(m.step(CreateInput::Flag(false)), CreateAction::ReadCounter { .. }));
    let a = m.step(CreateInput::Count(25));
    assert_eq!(
        refused(&a),
        Some((
            403,
            "You have reached your monthly link limit across all organizations. Upgrade your plan to create more links."
                .to_string()
        ))
    );
}

#[test]
fn create_with_chosen_code_and_tags() {
    let mut req = request();
    req.custom_code = Some("promo".to_string());
    req.tags = vec!["a".to_string(), "b".to_string()];
    req.max_tags = Some(5);
    req.forward_query_params = None;
    let mut m = CreateMachine::new(req);
    assert!(matches!(m.step(CreateInput::Begin), CreateAction::CheckBlacklist { .. }));
    match m.step(CreateInput::Flag(false)) {
        CreateAction::CheckCode { code } => assert_eq!(code, "promo"),
        other => panic!("unexpected {:?}", other),
    }
    assert!(matches!(m.step(CreateInput::Flag(false)), CreateAction::CountTags { .. }));
    match m.step(CreateInput::TagCounts { current: 1, existing: vec!["a".to_string()] }) {
        CreateAction::CreateLink { link } => {
            assert_eq!(link.short_code, "promo");
            assert_eq!(link.id, "l1");
            assert_eq!(link.org_id, "o1");
            assert_eq!(link.created_by, "u1");
            assert_eq!(link.destination_url, "https://example.com/");
            assert_eq!(link.title.as_deref(), Some("Spring sale"));
            assert_eq!(link.expires_at, Some(1800000000));
            assert_eq!(link.created_at, 1700000000);
            assert_eq!(link.updated_at, None);
            assert_eq!(link.status, LinkStatus::Active);
            assert_eq!(link.click_count, 0);
            assert_eq!(link.tags, vec!["a".to_string(), "b".to_string()]);
            assert!(link.utm_params.is_none());
            assert_eq!(link.redirect_type, "301");
        }
        other => panic!("unexpected {:?}", other),
    }
    match m.step(CreateInput::Done) {
        CreateAction::SetTags { link_id, org_id, tags } => {
            assert_eq!((link_id.as_str(), org_id.as_str(), tags.len()), ("l1", "o1", 2))
        }
        other => panic!("unexpected {:?}", other),
    }
    assert!(matches!(m.step(CreateInput::Done), CreateAction::LookupForward));
    match m.step(CreateInput::Forward(true)) {
        CreateAction::StoreMapping { org_id, code, mapping } => {
            assert_eq!((org_id.as_str(), code.as_str()), ("o1", "promo"));
            assert_eq!(mapping.link_id, "l1");
            assert_eq!(mapping.destination_url, "https://example.com/");
            assert_eq!(mapping.status, LinkStatus::Active);
            assert_eq!(mapping.expires_at, Some(1800000000));
            assert!(mapping.forward_query_params);
            assert_eq!(mapping.redirect_type, "301");
        }
        other => panic!("unexpected {:?}", other),
    }
    let reply = match m.step(CreateInput::Done) {
        CreateAction::Reply(r) => r,
        other => panic!("unexpected {:?}", other),
    };
    assert_eq!(reply.status(), 201);
    match reply {
        CreateReply::Created { link } => assert_eq!(link.short_code, "promo"),
        other => panic!("unexpected {:?}", other),
    }
}

#[test]
fn create_refusals_in_order() {
    let mut m = CreateMachine::new(request());
    m.step(CreateInput::Begin);
    assert_eq!(refused(&m.step(CreateInput::Flag(true))), Some((403, "Destination URL is blocked".to_string())));

    let mut req = request();
    req.custom_code = Some("taken".to_string());
    let mut m = CreateMachine::new(req);
    m.step(CreateInput::Begin);
    m.step(CreateInput::Flag(false));
    assert_eq!(refused(&m.step(CreateInput::Flag(true))), Some((409, "Short code already in use".to_string())));

    let mut req = request();
    req.tags = vec!["x".to_string(), "y".to_string()];
    req.max_tags = Some(2);
    let mut m = CreateMachine::new(req);
    m.step(CreateInput::Begin);
    assert!(matches!(m.step(CreateInput::Flag(false)), CreateAction::DrawCode));
    m.step(CreateInput::Code { code: "abc123".to_string(), taken: false });
    let a = m.step(CreateInput::TagCounts { current: 1, existing: vec![] });
    assert_eq!(
        refused(&a),
        Some((403, "You can create 1 more tag across all organizations. Upgrade your plan to add more tags.".to_string()))
    );
}

#[test]
fn random_code_gives_up_after_eleventh_collision() {
    let mut m = CreateMachine::new(request());
    m.step(CreateInput::Begin);
    assert!(matches!(m.step(CreateInput::Flag(false)), CreateAction::DrawCode));
    for _ in 0..10 {
        assert!(matches!(m.step(CreateInput::Code { code: "c".to_string(), taken: true }), CreateAction::DrawCode));
    }
    let a = m.step(CreateInput::Code { code: "c".to_string(), taken: true });
    assert_eq!(refused(&a), Some((500, "Failed to generate unique short code".to_string())));
}

fn row(url: Result<&str, &str>, chosen: Option<&str>, tags: &[&str]) -> ImportRow {
    ImportRow {
        link_id: "l7".to_string(),
        org_id: "o1".to_string(),
        created_by: "u1".to_string(),
        now: 1700000000,
        title: Some("  Imported  ".to_string()),
        expires_at: None,
        raw_url: "raw".to_string(),
        url: url.map(|s| s.to_string()).map_err(|s| s.to_string()),
        chosen: chosen.map(|s| s.to_string()),
        chosen_error: None,
        tags: tags.iter().map(|t| t.to_string()).collect(),
    }
}

fn outcome(a: RowAction) -> RowOutcome {
    match a {
        RowAction::Finish(o) => o,
        other => panic!("unexpected {:?}", other),
    }
}

#[test]
fn import_row_invalid_url_fails() {
    let mut m = RowMachine::new(row(Err("bad scheme"), None, &[]));
    match outcome(m.step(RowInput::Begin)) {
        RowOutcome::Failed { destination_url, reason } => {
            assert_eq!((destination_url.as_str(), reason.as_str()), ("raw", "Invalid URL: bad scheme"))
        }
        other => panic!("unexpected {:?}", other),
    }
}

#[test]
fn import_row_taken_code_is_skipped_without_a_link() {
    let mut m = RowMachine::new(row(Ok("https://a.example/"), Some("promo"), &[]));
    assert!(matches!(m.step(RowInput::Begin), RowAction::CheckBlacklist { .. }));
    assert!(matches!(m.step(RowInput::Refusal(None)), RowAction::CheckQuota));
    match m.step(RowInput::QuotaOk { is_pro: true, max_tags: None }) {
        RowAction::CheckCode { code } => assert_eq!(code, "promo"),
        other => panic!("unexpected {:?}", other),
    }
    match outcome(m.step(RowInput::Flag(true))) {
        RowOutcome::DuplicateCode { reason, .. } => {
            assert_eq!(reason, "Duplicate short code: 'promo' is already in use")
        }
        other => panic!("unexpected {:?}", other),
    }
    assert!(!m.written);
}

#[test]
fn import_row_tags_dropped_at_limit() {
    let mut m = RowMachine::new(row(Ok("https://a.example/"), None, &["t1"]));
    m.step(RowInput::Begin);
    m.step(RowInput::Refusal(None));
    assert!(matches!(m.step(RowInput::QuotaOk { is_pro: false, max_tags: Some(3) }), RowAction::DrawCode));
    assert!(matches!(m.step(RowInput::Code { code: "x".to_string(), taken: false }), RowAction::CheckTagLimit { max_tags: 3 }));
    match m.step(RowInput::Flag(false)) {
        RowAction::CreateLink { link } => {
            assert_eq!(link.short_code, "x");
            assert!(link.tags.is_empty());
            assert_eq!(link.destination_url, "https://a.example/");
            assert_eq!(link.title.as_deref(), Some("Imported"));
            assert_eq!(link.status, LinkStatus::Active);
            assert_eq!(link.redirect_type, "301");
            assert!(link.utm_params.is_none());
            assert_eq!(link.forward_query_params, None);
            assert_eq!(link.click_count, 0);
        }
        other => panic!("unexpected {:?}", other),
    }
    match m.step(RowInput::Done) {
        RowAction::StoreMapping { mapping, .. } => {
            assert_eq!(mapping.destination_url, "https://a.example/");
            assert!(!mapping.forward_query_params);
        }
        other => panic!("unexpected {:?}", other),
    }
    match outcome(m.step(RowInput::Done)) {
        RowOutcome::Created { tags_warning, .. } => assert_eq!(
            tags_warning.as_deref(),
            Some("Tags skipped: would exceed tag limit (3 max). Consider upgrading your plan.")
        ),
        other => panic!("unexpected {:?}", other),
    }
}

#[test]
fn import_row_random_codes_give_up_after_ten() {
    let mut m = RowMachine::new(row(Ok("https://a.example/"), Some("ignored"), &[]));
    m.step(RowInput::Begin);
    m.step(RowInput::Refusal(None));
    assert!(matches!(m.step(RowInput::QuotaOk { is_pro: false, max_tags: None }), RowAction::DrawCode));
    for _ in 0..9 {
        assert!(matches!(m.step(RowInput::Code { code: "c".to_string(), taken: true }), RowAction::DrawCode));
    }
    match outcome(m.step(RowInput::Code { code: "c".to_string(), taken: true })) {
        RowOutcome::Failed { reason, .. } => assert_eq!(reason, "Failed to generate unique short code"),
        other => panic!("unexpected {:?}", other),
    }
}

use rushomon::billing::webhook::{begin_delivery, WebhookData, WebhookReply};
use rushomon::links::redirect::{click_logged, RedirectPlan};
use rushomon::orgs::delete_flow::{DeleteAction, DeleteInput, DeleteMachine, DeleteRequest};
use rushomon::orgs::manage::OrgMembership;

fn empty_data() -> WebhookData {
    WebhookData {
        id: None,
        customer_id: None,
        customer_id_camel: None,
        external_id: None,
        external_id_camel: None,
        status: None,
        first_price_id: None,
        recurring_interval: None,
        amount: None,
        currency: None,
        discount_name: None,
        current_period_start: None,
        current_period_end: None,
        cancel_at_period_end: None,
        ends_at: None,
    }
}

#[test]
fn redelivered_webhook_is_a_duplicate() {
    assert!(matches!(
        begin_delivery(true, "wh_1", "subscription.updated", &empty_data(), 0),
        Err(WebhookReply::Duplicate)
    ));
    assert!(begin_delivery(false, "wh_1", "subscription.updated", &empty_data(), 0).is_ok());
}

#[test]
fn clicks_logged_only_for_active_redirects() {
    let redirect = RedirectPlan::Redirect { location: "https://a.example/".to_string(), status: 301 };
    assert!(click_logged(&redirect, Some(LinkStatus::Active)));
    assert!(!click_logged(&redirect, Some(LinkStatus::Disabled)));
    assert!(!click_logged(&redirect, None));
    assert!(!click_logged(&RedirectPlan::NotFound, Some(LinkStatus::Active)));
}

fn membership(id: &str, role: &str) -> OrgMembership {
    OrgMembership { id: id.to_string(), name: format!("Org {}", id), role: role.to_string() }
}

fn delete_request(action: Option<&str>, target: Option<&str>) -> DeleteRequest {
    DeleteRequest {
        org_id: "o1".to_string(),
        body_valid: true,
        action: action.map(|s| s.to_string()),
        target_org_id: target.map(|s| s.to_string()),
    }
}

#[test]
fn delete_org_with_links_deleted() {
    let mut m = DeleteMachine::new(delete_request(Some("delete"), None));
    assert!(matches!(m.step(DeleteInput::Begin), DeleteAction::GetRole { .. }));
    assert!(matches!(m.step(DeleteInput::Role(Some("owner".to_string()))), DeleteAction::CountMemberOrgs));
    assert!(matches!(m.step(DeleteInput::Count(2)), DeleteAction::RemoveLinkEntries { .. }));
    assert!(matches!(m.step(DeleteInput::Done), DeleteAction::DeleteLinks { .. }));
    assert!(matches!(m.step(DeleteInput::Done), DeleteAction::DeleteOrg { .. }));
    assert!(matches!(m.step(DeleteInput::Done), DeleteAction::ListOrgs));
    match m.step(DeleteInput::Orgs(vec![membership("o2", "member")])) {
        DeleteAction::SwitchSession { org_id } => assert_eq!(org_id, "o2"),
        other => panic!("unexpected {:?}", other),
    }
    match m.step(DeleteInput::Done) {
        DeleteAction::Deleted { org_id, name } => assert_eq!((org_id.as_str(), name.as_str()), ("o2", "Org o2")),
        other => panic!("unexpected {:?}", other),
    }
}

#[test]
fn delete_org_refusals() {
    let mut m = DeleteMachine::new(delete_request(Some("delete"), None));
    m.step(DeleteInput::Begin);
    assert!(matches!(m.step(DeleteInput::Role(None)), DeleteAction::Refused { status: 404, .. }));

    let mut m = DeleteMachine::new(delete_request(Some("delete"), None));
    m.step(DeleteInput::Begin);
    assert!(matches!(m.step(DeleteInput::Role(Some("admin".to_string()))), DeleteAction::Refused { status: 403, .. }));

    let mut m = DeleteMachine::new(delete_request(Some("delete"), None));
    m.step(DeleteInput::Begin);
    m.step(DeleteInput::Role(Some("owner".to_string())));
    match m.step(DeleteInput::Count(1)) {
        DeleteAction::Refused { status, message } => {
            assert_eq!((status, message.as_str()), (400, "Cannot delete your only organization"))
        }
        other => panic!("unexpected {:?}", other),
    }

    let mut m = DeleteMachine::new(delete_request(Some("archive"), None));
    m.step(DeleteInput::Begin);
    m.step(DeleteInput::Role(Some("owner".to_string())));
    assert!(matches!(m.step(DeleteInput::Count(3)), DeleteAction::Refused { status: 400, .. }));
}

#[test]
fn delete_org_migrating_links() {
    let mut m = DeleteMachine::new(delete_request(Some("migrate"), Some("o9")));
    m.step(DeleteInput::Begin);
    m.step(DeleteInput::Role(Some("owner".to_string())));
    match m.step(DeleteInput::Count(2)) {
        DeleteAction::GetRole { org_id } => assert_eq!(org_id, "o9"),
        other => panic!("unexpected {:?}", other),
    }
    assert!(matches!(m.step(DeleteInput::Role(Some("owner".to_string()))), DeleteAction::ReadTargetQuota { .. }));
    match m.step(DeleteInput::TargetQuota { max_links: Some(100), used: 40, moving: 61 }) {
        DeleteAction::Refused { status, message } => assert_eq!(
            (status, message.as_str()),
            (400, "Target billing account has insufficient capacity. Available slots: 60, Required: 61")
        ),
        other => panic!("unexpected {:?}", other),
    }

    let mut m = DeleteMachine::new(delete_request(Some("migrate"), Some("o9")));
    m.step(DeleteInput::Begin);
    m.step(DeleteInput::Role(Some("owner".to_string())));
    m.step(DeleteInput::Count(2));
    m.step(DeleteInput::Role(Some("owner".to_string())));
    match m.step(DeleteInput::TargetQuota { max_links: Some(100), used: 40, moving: 60 }) {
        DeleteAction::AddToTargetCounter { target_org_id, count } => assert_eq!((target_org_id.as_str(), count), ("o9", 60)),
        other => panic!("unexpected {:?}", other),
    }
    match m.step(DeleteInput::Done) {
        DeleteAction::MigrateLinks { from, to } => assert_eq!((from.as_str(), to.as_str()), ("o1", "o9")),
        other => panic!("unexpected {:?}", other),
    }
    assert!(matches!(m.step(DeleteInput::Done), DeleteAction::RewriteLinkEntries { .. }));
    assert!(matches!(m.step(DeleteInput::Done), DeleteAction::DeleteOrg { .. }));
    m.step(DeleteInput::Done);
    match m.step(DeleteInput::Orgs(vec![membership("o3", "member"), membership("o9", "owner")])) {
        DeleteAction::SwitchSession { org_id } => assert_eq!(org_id, "o9"),
        other => panic!("unexpected {:?}", other),
    }
}

#[test]
fn revoking_a_key_not_owned_is_not_found() {
    assert_eq!(revoke_reply(1), (204, None));
    assert_eq!(revoke_reply(0), (404, Some("Key not found or not owned by user")));
}

use rushomon::admin::blacklist::MatchType;
use rushomon::admin::block_flow::{BlockAction, BlockInput, BlockMachine, BlockRequest, CandidateLink};

fn block_request(destination: Option<&str>, match_type: Option<&str>, reason: Option<&str>) -> BlockRequest {
    BlockRequest {
        admin_refusal: None,
        json_error: None,
        destination: destination.map(|s| s.to_string()),
        match_type: match_type.map(|s| s.to_string()),
        reason: reason.map(|s| s.to_string()),
        normalized: Some("https://bad.example/x".to_string()),
        admin_id: "admin1".to_string(),
    }
}

fn candidate(id: &str, url: &str) -> CandidateLink {
    CandidateLink { id: id.to_string(), org_id: "o1".to_string(), short_code: format!("c-{}", id), destination_url: url.to_string() }
}

#[test]
fn block_request_refusals() {
    let mut m = BlockMachine::new(block_request(None, None, Some("spam")));
    assert!(matches!(m.step(BlockInput::Begin), BlockAction::Refused { status: 400, ref message } if message == "Missing 'destination' field"));
    let mut m = BlockMachine::new(block_request(Some("https://bad.example/x"), Some("regex"), Some("spam")));
    assert!(matches!(m.step(BlockInput::Begin), BlockAction::Refused { status: 400, ref message } if message == "Invalid match_type. Must be 'exact' or 'domain'"));
    let mut m = BlockMachine::new(block_request(Some("https://bad.example/x"), None, None));
    assert!(matches!(m.step(BlockInput::Begin), BlockAction::Refused { status: 400, ref message } if message == "Missing 'reason' field"));
    let mut req = block_request(Some("https://bad.example/x"), None, Some("spam"));
    req.json_error = Some("eof".to_string());
    let mut m = BlockMachine::new(req);
    assert!(matches!(m.step(BlockInput::Begin), BlockAction::Refused { status: 400, ref message } if message == "Invalid JSON: eof"));
}

#[test]
fn block_existing_destination_changes_nothing() {
    let mut m = BlockMachine::new(block_request(Some("https://bad.example/x"), Some("exact"), Some("spam")));
    match m.step(BlockInput::Begin) {
        BlockAction::CheckDuplicate { key, match_type } => {
            assert_eq!(key, "https://bad.example/x");
            assert_eq!(match_type, MatchType::Exact);
        }
        other => panic!("unexpected {:?}", other),
    }
    assert!(matches!(m.step(BlockInput::Flag(true)), BlockAction::AlreadyBlocked));
}

#[test]
fn block_catches_matching_links() {
    let mut m = BlockMachine::new(block_request(Some("https://bad.example/x"), Some("domain"), Some("spam")));
    match m.step(BlockInput::Begin) {
        BlockAction::CheckDuplicate { key, .. } => assert_eq!(key, "bad.example"),
        other => panic!("unexpected {:?}", other),
    }
    assert!(matches!(m.step(BlockInput::Flag(false)), BlockAction::AddBlock { .. }));
    assert!(matches!(m.step(BlockInput::Done), BlockAction::ListCandidates));
    let list = vec![candidate("l1", "https://bad.example/a"), candidate("l2", "https://ok.example/"), candidate("l3", "https://bad.example/b")];
    assert!(matches!(m.step(BlockInput::Candidates(list)), BlockAction::CheckBlocked { .. }));
    assert!(matches!(m.step(BlockInput::Flag(true)), BlockAction::CheckBlocked { .. }));
    assert!(matches!(m.step(BlockInput::Flag(false)), BlockAction::CheckBlocked { .. }));
    match m.step(BlockInput::Flag(true)) {
        BlockAction::SetBlocked { link_id } => assert_eq!(link_id, "l1"),
        other => panic!("unexpected {:?}", other),
    }
    match m.step(BlockInput::Done) {
        BlockAction::ResolveReports { link_id, note, .. } => {
            assert_eq!(link_id, "l1");
            assert_eq!(note, "Action taken: Blocked domain (https://bad.example/x)");
        }
        other => panic!("unexpected {:?}", other),
    }
    match m.step(BlockInput::Failed) {
        BlockAction::DeleteMapping { short_code, .. } => assert_eq!(short_code, "c-l1"),
        other => panic!("unexpected {:?}", other),
    }
    match m.step(BlockInput::Done) {
        BlockAction::SetBlocked { link_id } => assert_eq!(link_id, "l3"),
        other => panic!("unexpected {:?}", other),
    }
    m.step(BlockInput::Done);
    m.step(BlockInput::Done);
    assert!(matches!(m.step(BlockInput::Done), BlockAction::Blocked { count: 2 }));
}
