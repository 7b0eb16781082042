use rushomon::orgs::invitations::{
    check_accept, check_member_limit, check_org_invitation, check_resend, invite_email, invite_url,
    invite_validity, inviter_display_name, same_email, InvitationState, InviteValidity,
};
use rushomon::orgs::manage::{
    check_migration_capacity, claimed_domain, fallback_org, org_name, plan_org_deletion,
    switch_target, txt_instructions, DeleteOrgAction, DeleteOrgError, OrgMembership,
};
use rushomon::orgs::roles::{check_last_owner, check_removal_rights, require_owner, require_owner_or_admin, Denial};
use rushomon::orgs::settings::{
    check_logo_file, logo_allowed, logo_key, logo_url, read_settings_change, BoolField, MAX_LOGO_BYTES,
};
use rushomon::tier::Tier;

fn denied<T: std::fmt::Debug>(r: Result<T, Denial>) -> (u16, String) {
    let d = r.expect_err("expected a refusal");
    (d.status, d.message)
}

#[test]
fn role_checks() {
    assert!(require_owner_or_admin(Some("admin"), "no").is_ok());
    assert!(require_owner_or_admin(Some("owner"), "no").is_ok());
    assert_eq!(denied(require_owner_or_admin(Some("member"), "Only admins")), (403, "Only admins".to_string()));
    assert_eq!(denied(require_owner_or_admin(None, "x")), (404, "Organization not found".to_string()));
    assert!(require_owner(Some("owner"), "x").is_ok());
    assert_eq!(
        denied(require_owner(Some("admin"), "Only org owners can delete the organization")),
        (403, "Only org owners can delete the organization".to_string())
    );
}

#[test]
fn member_removal_rights() {
    assert_eq!(check_removal_rights(Some("owner"), false, Some("admin")).unwrap(), false);
    assert_eq!(check_removal_rights(Some("owner"), false, Some("owner")).unwrap(), true);
    assert_eq!(check_removal_rights(Some("admin"), false, Some("member")).unwrap(), false);
    assert_eq!(denied(check_removal_rights(Some("admin"), false, Some("owner"))), (403, "Admins cannot remove owners".to_string()));
    assert_eq!(
        denied(check_removal_rights(Some("admin"), false, Some("admin"))),
        (403, "Admins cannot remove other admins".to_string())
    );
    assert_eq!(
        denied(check_removal_rights(Some("member"), false, Some("member"))),
        (403, "Only org owners and admins can remove members".to_string())
    );
    // Anyone may leave.
    assert_eq!(check_removal_rights(Some("member"), true, Some("member")).unwrap(), false);
    assert_eq!(check_removal_rights(Some("owner"), true, Some("owner")).unwrap(), true);
    assert_eq!(denied(check_removal_rights(None, true, Some("member"))), (404, "Organization not found".to_string()));
    assert_eq!(
        denied(check_removal_rights(Some("owner"), false, None)),
        (404, "Member not found in this organization".to_string())
    );
}

#[test]
fn last_owner_never_removed() {
    assert_eq!(
        denied(check_last_owner(1)),
        (400, "Cannot remove the last owner. Transfer ownership first.".to_string())
    );
    assert!(check_last_owner(0).is_err());
    assert!(check_last_owner(2).is_ok());
    // An owner leaving alone: rights pass, the last-owner rule refuses.
    assert!(check_removal_rights(Some("owner"), true, Some("owner")).unwrap());
    assert!(check_last_owner(1).is_err());
}

#[test]
fn invitation_addresses() {
    assert_eq!(invite_email(Some("  Bob@Example.ORG ")).unwrap(), "bob@example.org");
    assert_eq!(denied(invite_email(Some("   "))), (400, "Email is required".to_string()));
    assert_eq!(denied(invite_email(None)), (400, "Email is required".to_string()));
    assert_eq!(denied(invite_email(Some("bob.example.org"))), (400, "Invalid email address".to_string()));
    let long = format!("{}@x.io", "a".repeat(250));
    assert_eq!(denied(invite_email(Some(&long))), (400, "Invalid email address".to_string()));
    assert!(same_email("Bob@Example.org", "bob@example.ORG"));
    assert!(!same_email("bob@example.org", "rob@example.org"));
}

#[test]
fn member_limit() {
    assert!(check_member_limit(None, 100, 100).is_ok());
    assert!(check_member_limit(Some(5), 3, 1).is_ok());
    assert_eq!(
        denied(check_member_limit(Some(5), 3, 2)),
        (403, "Member limit reached (5/5). Upgrade your plan to invite more members.".to_string())
    );
}

fn inv(org: &str, accepted: bool, expires_at: i64) -> InvitationState {
    InvitationState { org_id: org.to_string(), accepted, expires_at }
}

#[test]
fn invitation_lifecycle() {
    let now = 1000;
    assert!(check_accept(Some(&inv("o1", false, 1000)), now).is_ok());
    assert_eq!(denied(check_accept(None, now)), (404, "Invitation not found".to_string()));
    assert_eq!(
        denied(check_accept(Some(&inv("o1", true, 5000)), now)),
        (409, "This invitation has already been accepted".to_string())
    );
    assert_eq!(denied(check_accept(Some(&inv("o1", false, 999)), now)), (410, "This invitation has expired".to_string()));
    assert!(check_org_invitation(Some(&inv("o1", false, 0)), "o1").is_ok());
    assert_eq!(
        denied(check_org_invitation(Some(&inv("o2", false, 0)), "o1")),
        (404, "Invitation not found in this organization".to_string())
    );
    assert_eq!(denied(check_org_invitation(None, "o1")), (404, "Invitation not found".to_string()));
    assert_eq!(denied(check_resend(&inv("o1", true, 5000), now)), (400, "Invitation has already been accepted".to_string()));
    assert_eq!(denied(check_resend(&inv("o1", false, 10), now)), (400, "Invitation has expired".to_string()));
    assert!(check_resend(&inv("o1", false, 5000), now).is_ok());
}

#[test]
fn invitation_page() {
    assert_eq!(invite_validity(None, 0), InviteValidity::NotFound);
    assert_eq!(invite_validity(Some(&inv("o", true, 10)), 0), InviteValidity::AlreadyAccepted);
    assert_eq!(invite_validity(Some(&inv("o", false, 10)), 11), InviteValidity::Expired);
    assert_eq!(invite_validity(Some(&inv("o", false, 10)), 10), InviteValidity::Valid);
    assert_eq!(InviteValidity::AlreadyAccepted.reason(), Some("already_accepted"));
    assert_eq!(InviteValidity::NotFound.reason(), Some("not_found"));
    assert_eq!(InviteValidity::Expired.reason(), Some("expired"));
    assert_eq!(InviteValidity::Valid.reason(), None);
    assert_eq!(invite_url("https://app.example", "inv_1"), "https://app.example/invite/inv_1");
    assert_eq!(inviter_display_name(Some("Ann"), "ann@x.io"), "Ann");
    assert_eq!(inviter_display_name(None, "ann@x.io"), "ann@x.io");
}

#[test]
fn organization_names() {
    assert_eq!(org_name(Some("  Acme  ")).unwrap(), "Acme");
    assert_eq!(denied(org_name(Some("  "))), (400, "Organization name is required".to_string()));
    assert_eq!(denied(org_name(None)), (400, "Organization name is required".to_string()));
    assert_eq!(
        denied(org_name(Some(&"n".repeat(101)))),
        (400, "Organization name must be 100 characters or less".to_string())
    );
    assert_eq!(org_name(Some(&"n".repeat(100))).unwrap().len(), 100);
}

#[test]
fn organization_deletion_plans() {
    assert!(matches!(plan_org_deletion(1, Some("delete"), None), Err(DeleteOrgError::OnlyOrganization)));
    assert!(matches!(plan_org_deletion(2, None, None), Err(DeleteOrgError::ActionMissing)));
    assert!(matches!(plan_org_deletion(2, Some("delete"), None), Ok(DeleteOrgAction::DeleteLinks)));
    match plan_org_deletion(3, Some("migrate"), Some("org_2")) {
        Ok(DeleteOrgAction::Migrate { target_org_id }) => assert_eq!(target_org_id, "org_2"),
        other => panic!("unexpected {:?}", other),
    }
    assert!(matches!(plan_org_deletion(2, Some("migrate"), None), Err(DeleteOrgError::TargetMissing)));
    assert!(matches!(plan_org_deletion(2, Some("archive"), None), Err(DeleteOrgError::InvalidAction)));
}

#[test]
fn migration_capacity() {
    assert_eq!(check_migration_capacity(None, 10, 1000).unwrap(), None);
    assert_eq!(check_migration_capacity(Some(100), 40, 60).unwrap(), Some(60));
    assert_eq!(
        denied(check_migration_capacity(Some(100), 40, 61)),
        (400, "Target billing account has insufficient capacity. Available slots: 60, Required: 61".to_string())
    );
}

#[test]
fn fallback_after_deletion() {
    let orgs = vec![
        OrgMembership { id: "o1".to_string(), name: "One".to_string(), role: "owner".to_string() },
        OrgMembership { id: "o2".to_string(), name: "Two".to_string(), role: "member".to_string() },
        OrgMembership { id: "o3".to_string(), name: "Three".to_string(), role: "owner".to_string() },
    ];
    assert_eq!(fallback_org(&orgs, "o1"), Some(2));
    assert_eq!(fallback_org(&orgs, "o3"), Some(0));
    assert_eq!(fallback_org(&orgs[..2].to_vec(), "o1"), Some(1));
    assert_eq!(fallback_org(&orgs[..1].to_vec(), "o1"), None);
}

#[test]
fn switching_and_domains() {
    assert_eq!(switch_target(Some("o9")), Ok("o9".to_string()));
    assert_eq!(switch_target(Some("")), Err("org_id is required"));
    assert_eq!(switch_target(None), Err("org_id is required"));
    assert_eq!(claimed_domain(Some(" Example.COM ")), Ok("example.com".to_string()));
    assert_eq!(claimed_domain(Some(" ")), Err("Domain is required"));
    assert_eq!(
        txt_instructions("example.com", "rushomon-verify=abc"),
        "Add a TXT record to example.com with the value: rushomon-verify=abc"
    );
}

#[test]
fn organization_settings_changes() {
    let c = read_settings_change(BoolField::Value(true), BoolField::Absent).unwrap();
    assert_eq!(c.forward_query_params, Some(true));
    assert_eq!(c.exclude_ambiguous_chars, None);
    assert_eq!(
        denied(read_settings_change(BoolField::NotBool, BoolField::Value(true))),
        (400, "forward_query_params must be a boolean".to_string())
    );
    assert_eq!(
        denied(read_settings_change(BoolField::Absent, BoolField::NotBool)),
        (400, "exclude_ambiguous_chars must be a boolean".to_string())
    );
    assert_eq!(
        denied(read_settings_change(BoolField::Absent, BoolField::Absent)),
        (400, "At least one setting (forward_query_params, exclude_ambiguous_chars) is required".to_string())
    );
}

#[test]
fn logos() {
    assert!(!logo_allowed(Some(Tier::Free)));
    assert!(!logo_allowed(None));
    assert!(logo_allowed(Some(Tier::Pro)));
    assert_eq!(check_logo_file("image/png", MAX_LOGO_BYTES), Ok(()));
    assert_eq!(check_logo_file("image/svg+xml", 10), Ok(()));
    assert_eq!(check_logo_file("image/png", 500 * 1024 + 1), Err("Logo file must be 500 KB or smaller"));
    assert_eq!(check_logo_file("image/gif", 10), Err("Invalid file type. Allowed: PNG, JPEG, WebP, SVG"));
    assert_eq!(logo_key("o1"), "logos/o1");
    assert_eq!(logo_url("o1"), "/api/orgs/o1/logo");
}
