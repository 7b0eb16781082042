use rushomon::auth::account::{deletion_confirmed, deletion_scheduled, deletion_status, unconfirmed_message};
use rushomon::auth::session::{
    check_refresh_session, check_refresh_token_type, cookie_scheme, enabled_providers,
    oauth_failure_location, post_login_location,
};
use rushomon::keys::{check_key_request, key_expiry, key_hash, key_hint, raw_token, KeyRefusal};
use rushomon::secrets::{padded_secrets_match, secrets_match};
use rushomon::tier::Tier;

#[test]
fn cookie_schemes() {
    assert_eq!(cookie_scheme("localhost:8787"), "http");
    assert_eq!(cookie_scheme("localhost"), "http");
    assert_eq!(cookie_scheme("rushomon.cc"), "https");
    assert_eq!(cookie_scheme("my-localhost.dev"), "https");
}

#[test]
fn refresh_checks() {
    assert!(check_refresh_token_type("refresh").is_ok());
    let d = check_refresh_token_type("access").unwrap_err();
    assert_eq!((d.status, d.message.as_str()), (401, "Invalid token type"));
    assert!(check_refresh_session(Some("user_1"), "user_1").is_ok());
    let d = check_refresh_session(Some("user_1"), "user_2").unwrap_err();
    assert_eq!((d.status, d.message.as_str()), (401, "Session mismatch"));
    let d = check_refresh_session(None, "user_1").unwrap_err();
    assert_eq!((d.status, d.message.as_str()), (401, "Session expired or invalid"));
}

#[test]
fn constant_time_comparisons() {
    assert!(secrets_match("abc", "abc"));
    assert!(!secrets_match("abc", "abd"));
    assert!(!secrets_match("abc", "abcd"));
    assert!(!secrets_match("", "x"));
    assert!(padded_secrets_match("user", "user"));
    assert!(!padded_secrets_match("user", "users"));
    // Zero-padding makes a trailing NUL indistinguishable.
    assert!(padded_secrets_match("user", "user\0"));
}

#[test]
fn oauth_redirects() {
    assert_eq!(
        oauth_failure_location("AppError(\"SIGNUPS_DISABLED\")", "https://app.io"),
        Some("https://app.io/?error=signups_disabled".to_string())
    );
    assert_eq!(
        oauth_failure_location("EMAIL_ALREADY_USED: a@b.c", "https://app.io"),
        Some("https://app.io/login?error=email_already_used".to_string())
    );
    assert_eq!(oauth_failure_location("timeout", "https://app.io"), None);
    assert_eq!(post_login_location("https://app.io", Some("/dashboard/links")), "https://app.io/dashboard/links");
    assert_eq!(post_login_location("https://app.io", None), "https://app.io/auth/callback");
}

#[test]
fn providers_listed_in_order() {
    assert_eq!(enabled_providers(true, true), vec![("github", "GitHub"), ("google", "Google")]);
    assert_eq!(enabled_providers(false, true), vec![("google", "Google")]);
    assert!(enabled_providers(false, false).is_empty());
}

#[test]
fn account_deletion() {
    assert!(deletion_confirmed(Some("DELETE")));
    assert!(!deletion_confirmed(Some("delete")));
    assert!(!deletion_confirmed(None));
    assert_eq!(unconfirmed_message(), "Must provide 'confirmation': 'DELETE' in request body");
    let r = deletion_scheduled(1_700_604_800, 604800);
    assert!(r.success);
    assert_eq!(r.message, "Account deletion scheduled. You have 7 days to cancel.");
    assert_eq!(r.grace_period_seconds, 604800);
    let now = 1_700_000_000;
    let s = deletion_status(Some(now + 604800), now);
    assert!(s.pending);
    assert_eq!(s.days_remaining, Some(7));
    assert_eq!(deletion_status(Some(now + 1), now).days_remaining, Some(1));
    assert_eq!(deletion_status(Some(now + 86401), now).days_remaining, Some(2));
    assert_eq!(deletion_status(Some(now - 5), now).days_remaining, Some(0));
    let none = deletion_status(None, now);
    assert!(!none.pending);
    assert_eq!(none.days_remaining, None);
}

#[test]
fn api_key_requests() {
    assert_eq!(check_key_request("  ", Some(Tier::Pro)), Some(KeyRefusal::EmptyName));
    assert_eq!(check_key_request("ci", Some(Tier::Free)), Some(KeyRefusal::PlanWithoutKeys));
    assert_eq!(check_key_request("ci", None), Some(KeyRefusal::PlanWithoutKeys));
    assert_eq!(check_key_request("ci", Some(Tier::Business)), None);
    assert_eq!(
        KeyRefusal::PlanWithoutKeys.message(),
        "API keys are not available on your current plan. Upgrade to Pro or higher to use API keys."
    );
    assert_eq!(key_expiry(1000, Some(30)), Some(1000 + 30 * 86400));
    assert_eq!(key_expiry(1000, None), None);
}

#[test]
fn api_key_token_hint_and_hash() {
    let token = raw_token("abc123XYZ");
    assert_eq!(token, "ro_pat_abc123XYZ");
    assert_eq!(key_hint(&token), "ro_pat_...3XYZ");
    assert_eq!(key_hash("ro_pat_test"), "05ccd05654e517d2c675c7dbbd58643be254b8583e7d4e29f2dae30438acf05f");
    assert_eq!(key_hash(""), "e3b0c44298fc1c149afbf4c8996fb92427ae41e4649b934ca495991b7852b855");
}
