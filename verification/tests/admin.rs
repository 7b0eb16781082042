use rushomon::admin::blacklist::{block_key, block_resolution_note, domain_block_key, parse_match_type, MatchType};
use rushomon::admin::ops::{account_list_params, admin_tier, key_list_params, poll_message, tier_after_status, KeyAction};
use rushomon::admin::users::{
    admin_paging, check_role_change, check_suspension, check_user_deletion, demotes_admin,
    links_to_disable, parse_instance_role, InstanceRole, SuspensionCheck, UserDeletionRefusal,
};
use rushomon::links::status::LinkStatus;
use rushomon::tier::Tier;

fn pairs(p: &[(&str, &str)]) -> Vec<(String, String)> {
    p.iter().map(|(k, v)| (k.to_string(), v.to_string())).collect()
}

#[test]
fn blacklist_match_types() {
    assert_eq!(parse_match_type(None), Ok(MatchType::Exact));
    assert_eq!(parse_match_type(Some("domain")), Ok(MatchType::Domain));
    assert_eq!(parse_match_type(Some("regex")), Err("Invalid match_type. Must be 'exact' or 'domain'"));
}

#[test]
fn blacklist_domain_keys() {
    assert_eq!(domain_block_key("https://Evil.Example.com/path?q=1"), "evil.example.com");
    assert_eq!(domain_block_key("evil.io/landing"), "evil.io");
    assert_eq!(domain_block_key("https://"), "");
    assert_eq!(domain_block_key("mailto:someone@evil.io"), "mailto:someone@evil.io");
    assert_eq!(block_key(MatchType::Exact, "https://a.io/x", Some("https://a.io/x/")), "https://a.io/x/");
    assert_eq!(block_key(MatchType::Exact, "https://a.io/x", None), "https://a.io/x");
    assert_eq!(block_key(MatchType::Domain, "https://a.io/x", Some("ignored")), "a.io");
    assert_eq!(
        block_resolution_note(MatchType::Domain, "https://a.io/x"),
        "Action taken: Blocked domain (https://a.io/x)"
    );
}

#[test]
fn user_roles() {
    assert_eq!(parse_instance_role(Some("admin")), Ok(InstanceRole::Admin));
    assert_eq!(parse_instance_role(Some("owner")), Err("Role must be 'admin' or 'member'"));
    assert_eq!(parse_instance_role(None), Err("Missing 'role' field"));
    assert_eq!(check_role_change(true, InstanceRole::Admin, "member", 5), Err("Cannot modify your own role"));
    assert_eq!(check_role_change(false, InstanceRole::Member, "admin", 1), Err("Cannot demote the last admin user"));
    assert_eq!(check_role_change(false, InstanceRole::Member, "admin", 2), Ok(()));
    assert_eq!(check_role_change(false, InstanceRole::Admin, "member", 1), Ok(()));
    assert!(demotes_admin(InstanceRole::Member, "admin"));
    assert!(!demotes_admin(InstanceRole::Admin, "admin"));
}

#[test]
fn suspensions() {
    assert_eq!(check_suspension(true, 5, Some("member")), SuspensionCheck::SelfSuspension);
    assert_eq!(check_suspension(false, 1, Some("admin")), SuspensionCheck::LastAdmin);
    assert_eq!(check_suspension(false, 2, Some("admin")), SuspensionCheck::Proceed);
    assert_eq!(check_suspension(false, 1, None), SuspensionCheck::NotFound);
    assert_eq!(check_suspension(true, 5, Some("member")).status(), 400);
    assert_eq!(check_suspension(true, 5, Some("member")).message(), Some("Cannot suspend yourself"));
    assert_eq!(SuspensionCheck::LastAdmin.status(), 400);
    assert_eq!(SuspensionCheck::NotFound.status(), 404);
    assert_eq!(SuspensionCheck::Proceed.message(), None);
    let statuses = vec![LinkStatus::Active, LinkStatus::Blocked, LinkStatus::Disabled, LinkStatus::Active];
    assert_eq!(links_to_disable(&statuses), vec![0, 2, 3]);
}

#[test]
fn user_deletions() {
    assert_eq!(check_user_deletion(true, Some("member"), false, Some("DELETE")), Some(UserDeletionRefusal::OwnAccount));
    assert_eq!(check_user_deletion(false, None, false, Some("DELETE")), Some(UserDeletionRefusal::NotFound));
    assert_eq!(check_user_deletion(false, Some("admin"), true, Some("DELETE")), Some(UserDeletionRefusal::LastAdminInOrg));
    assert_eq!(check_user_deletion(false, Some("member"), true, Some("delete")), Some(UserDeletionRefusal::NotConfirmed));
    assert_eq!(check_user_deletion(false, Some("member"), false, None), Some(UserDeletionRefusal::NotConfirmed));
    assert_eq!(check_user_deletion(false, Some("member"), true, Some("DELETE")), None);
}

#[test]
fn admin_list_paging() {
    assert_eq!(admin_paging(""), (1, 50));
    assert_eq!(admin_paging("page=0&limit=1000"), (0, 100));
    assert_eq!(admin_paging("limit=7&page=4"), (4, 7));
}

#[test]
fn billing_admin_rules() {
    assert_eq!(admin_tier("unlimited"), Ok(Tier::Unlimited));
    assert_eq!(admin_tier("gold"), Err("Invalid tier. Must be: free, pro, business, or unlimited"));
    assert_eq!(tier_after_status("canceled"), Some(Tier::Free));
    assert_eq!(tier_after_status("active"), None);
}

#[test]
fn api_key_actions() {
    assert_eq!(KeyAction::Revoke.success_message(), "API key revoked successfully");
    assert_eq!(KeyAction::Reactivate.success_message(), "API key reactivated successfully");
    assert_eq!(KeyAction::Delete.failure_message(), "Failed to delete API key");
    assert_eq!(KeyAction::Restore.audit_event(), "admin_api_key_restored");
}

#[test]
fn admin_list_parameters() {
    let k = key_list_params(&pairs(&[("page", "0"), ("limit", "500"), ("search", "x"), ("limit", "0")]));
    assert_eq!((k.page, k.limit), (1, 1));
    assert_eq!(k.search, Some("x".to_string()));
    assert_eq!(k.status, None);
    let d = key_list_params(&vec![]);
    assert_eq!((d.page, d.limit), (1, 20));
    let a = account_list_params(&pairs(&[("page", "3"), ("page", "9"), ("tier", "pro"), ("limit", "x")]));
    assert_eq!((a.page, a.limit), (3, 50));
    assert_eq!(a.tier, Some("pro".to_string()));
}

#[test]
fn domain_poll_messages() {
    assert_eq!(poll_message(0, 0), "No pending domains found");
    assert_eq!(poll_message(3, 0), "Polled 3 domain(s), no status changes");
    assert_eq!(poll_message(3, 2), "Polled 3 domain(s), 2 status change(s)");
}
