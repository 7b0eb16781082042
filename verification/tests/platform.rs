use rushomon::analytics::{apply_analytics_gating, link_range_request, LinkRangeRequest, TimeRange};
use rushomon::domains::{
    already_registered_message, check_domain_limit, domain_link_key, pending_txt_records,
    read_hostname, registration_error_tolerated, status_from_provider, validate_hostname,
    DomainStatus, TxtPurpose, ValidationRecord,
};
use rushomon::notifications::{apply_preferences, NotificationPreferences, UpdateNotificationPreferencesRequest};
use rushomon::query::extract_query_param;
use rushomon::reports::{report_fields, report_list_params, report_pages};
use rushomon::router::{api_domain, get_frontend_url, is_short_code_route, ROOT_REDIRECT_STATUS};
use rushomon::settings::{setting_update, CodeLengthDefaults, Settings};
use rushomon::tier::Tier;

#[test]
fn hostnames() {
    assert_eq!(validate_hostname("go.example.com"), Ok(()));
    assert_eq!(validate_hostname(""), Err("Invalid hostname length"));
    assert_eq!(validate_hostname(&format!("{}.com", "a".repeat(250))), Err("Invalid hostname length"));
    assert_eq!(validate_hostname("-go.example.com"), Err("Hostname must not start or end with a hyphen or dot"));
    assert_eq!(validate_hostname("go.example.com."), Err("Hostname must not start or end with a hyphen or dot"));
    assert_eq!(
        validate_hostname("localhost"),
        Err("Hostname must contain at least one dot (e.g. go.example.com)")
    );
    assert_eq!(
        validate_hostname("go_link.example.com"),
        Err("Hostname contains invalid characters. Use only a-z, 0-9, hyphens, and dots.")
    );
    assert_eq!(read_hostname(Some("  Go.Example.COM ")), Some("go.example.com".to_string()));
    assert_eq!(read_hostname(Some("   ")), None);
    assert_eq!(read_hostname(None), None);
}

#[test]
fn domain_limits_and_messages() {
    let d = check_domain_limit(Some(0), 0).unwrap_err();
    assert_eq!((d.status, d.message.as_str()), (403, "Custom domains are not available on the Free plan. Upgrade to Pro or Business."));
    let d = check_domain_limit(Some(3), 3).unwrap_err();
    assert_eq!(d.message, "Custom domain limit reached (3/3). Upgrade your plan to add more domains.");
    assert!(check_domain_limit(Some(3), 2).is_ok());
    assert!(check_domain_limit(None, 1000).is_ok());
    assert_eq!(already_registered_message("go.a.io"), "'go.a.io' is already registered as a custom domain.");
    assert!(registration_error_tolerated("quota exceeded"));
    assert!(registration_error_tolerated("error 1404: not found"));
    assert!(!registration_error_tolerated("timeout"));
    assert_eq!(domain_link_key("go.a.io", "abc"), "go.a.io:abc");
}

#[test]
fn domain_status_mapping() {
    assert_eq!(status_from_provider(Some("active")), DomainStatus::Active);
    assert_eq!(status_from_provider(Some("pending_validation")), DomainStatus::Pending);
    assert_eq!(status_from_provider(Some("pending")), DomainStatus::Pending);
    assert_eq!(status_from_provider(Some("moved")), DomainStatus::Failed);
    assert_eq!(status_from_provider(None), DomainStatus::Pending);
    assert_eq!(DomainStatus::Failed.as_str(), "failed");
}

#[test]
fn dns_txt_records() {
    let records = vec![
        ValidationRecord { txt_name: Some("_acme.go.a.io".to_string()), txt_value: Some("v1".to_string()) },
        ValidationRecord { txt_name: Some("_acme2.go.a.io".to_string()), txt_value: None },
        ValidationRecord { txt_name: None, txt_value: None },
    ];
    let txt = pending_txt_records(Some(("_cf.go.a.io".to_string(), "own".to_string())), &records);
    assert_eq!(txt.len(), 2);
    assert_eq!(txt[0].purpose, TxtPurpose::Ownership);
    assert_eq!(txt[0].name, "_cf.go.a.io");
    assert_eq!(txt[1].purpose, TxtPurpose::SslValidation);
    assert_eq!(txt[1].value, "v1");
    assert!(pending_txt_records(None, &vec![]).is_empty());
}

#[test]
fn reports() {
    assert_eq!(report_fields(Some("l1"), Some("spam")), Ok(("l1".to_string(), "spam".to_string())));
    assert_eq!(report_fields(None, Some("spam")), Err("Missing 'link_id' field"));
    assert_eq!(report_fields(Some("l1"), None), Err("Missing 'reason' field"));
    let pairs = vec![
        ("page".to_string(), "0".to_string()),
        ("limit".to_string(), "5".to_string()),
        ("status".to_string(), "pending".to_string()),
        ("page".to_string(), "2".to_string()),
    ];
    let p = report_list_params(&pairs);
    assert_eq!((p.page, p.limit), (2, 10));
    assert_eq!(p.status, Some("pending".to_string()));
    let d = report_list_params(&vec![("limit".to_string(), "900".to_string())]);
    assert_eq!((d.page, d.limit, d.status.clone()), (1, 100, None));
    let bad = report_list_params(&vec![("page".to_string(), "-1".to_string())]);
    assert_eq!(bad.page, 1);
    assert_eq!(report_pages(0, 50), 0);
    assert_eq!(report_pages(1, 50), 1);
    assert_eq!(report_pages(50, 50), 1);
    assert_eq!(report_pages(51, 50), 2);
}

#[test]
fn short_code_routes() {
    assert!(is_short_code_route("abc123", true));
    assert!(!is_short_code_route("api", false));
    assert!(!is_short_code_route("apiary", false));
    assert!(!is_short_code_route("404", true));
    assert!(is_short_code_route("404", false));
    assert!(!is_short_code_route("dashboard", true));
    assert!(is_short_code_route("dashboards", true));
    assert_eq!(get_frontend_url(None), "http://localhost:5173");
    assert_eq!(get_frontend_url(Some("https://app.io")), "https://app.io");
    assert_eq!(api_domain(None), "localhost:8787");
    assert_eq!(ROOT_REDIRECT_STATUS, 301);
}

#[test]
fn public_settings() {
    let mut s = Settings::new();
    s.insert("founder_pricing_active".to_string(), "true".to_string());
    s.insert("min_random_code_length".to_string(), "4".to_string());
    s.insert("system_min_code_length".to_string(), "5".to_string());
    s.insert("min_custom_code_length".to_string(), "oops".to_string());
    s.insert("active_discount_amount_pro_monthly".to_string(), "300".to_string());
    let p = s.public_settings(CodeLengthDefaults { min_random: 6, min_custom: 3, system_min: 3 });
    assert!(p.founder_pricing_active);
    assert_eq!(p.system_min_code_length, 5);
    assert_eq!(p.min_random_code_length, 5);
    assert_eq!(p.min_custom_code_length, 5);
    assert_eq!(p.active_discount_amount_pro_monthly, 300);
    assert_eq!(p.active_discount_amount_business_annual, 0);
    let empty = Settings::new().public_settings(CodeLengthDefaults { min_random: 6, min_custom: 3, system_min: 3 });
    assert!(!empty.founder_pricing_active);
    assert_eq!((empty.min_random_code_length, empty.min_custom_code_length), (6, 3));
    assert_eq!(setting_update(Some("k"), Some("v")), Ok(("k".to_string(), "v".to_string())));
    assert_eq!(setting_update(None, Some("v")), Err("Missing 'key' field"));
    assert_eq!(setting_update(Some("k"), None), Err("Missing 'value' field"));
}

#[test]
fn notification_preferences() {
    let cur = NotificationPreferences { email_monthly_stats: true };
    assert_eq!(apply_preferences(cur, UpdateNotificationPreferencesRequest { email_monthly_stats: None }), cur);
    assert_eq!(
        apply_preferences(cur, UpdateNotificationPreferencesRequest { email_monthly_stats: Some(false) }),
        NotificationPreferences { email_monthly_stats: false }
    );
}

#[test]
fn query_parameters_are_decoded() {
    assert_eq!(extract_query_param("code=abc&state=x%2Fy", "state"), Ok("x/y".to_string()));
    assert_eq!(extract_query_param("code=a=b", "code"), Ok("a=b".to_string()));
    assert_eq!(extract_query_param("codes=1&code=2", "code"), Ok("2".to_string()));
    assert_eq!(extract_query_param("code", "code"), Err("Missing code parameter".to_string()));
    // A value that does not decode is passed over.
    assert_eq!(extract_query_param("state=%FF&state=ok", "state"), Ok("ok".to_string()));
    assert_eq!(extract_query_param("q=a%20b+c", "q"), Ok("a b+c".to_string()));
    assert_eq!(extract_query_param("q=plain", "q"), Ok("plain".to_string()));
    assert_eq!(extract_query_param("q=%FF", "q"), Err("Missing q parameter".to_string()));
}

#[test]
fn link_analytics_ranges() {
    let now = 1_640_995_200;
    match link_range_request("time_range=%7B%22type%22%3A%22days%22%7D&days=3", now) {
        LinkRangeRequest::Json(j) => assert_eq!(j, "{\"type\":\"days\"}"),
        other => panic!("unexpected {:?}", other),
    }
    match link_range_request("days=30", now) {
        LinkRangeRequest::Range(r) => assert_eq!(r, TimeRange::Days { value: 30 }),
        other => panic!("unexpected {:?}", other),
    }
    match link_range_request("days=abc", now) {
        LinkRangeRequest::Range(r) => assert_eq!(r, TimeRange::Days { value: 7 }),
        other => panic!("unexpected {:?}", other),
    }
    match link_range_request("start=100", now) {
        LinkRangeRequest::Range(r) => assert_eq!(r, TimeRange::Custom { start: 100, end: now }),
        other => panic!("unexpected {:?}", other),
    }
}

#[test]
fn gating_never_widens_and_is_stable() {
    let now = 1_640_995_200;
    for tier in [Tier::Free, Tier::Pro, Tier::Business, Tier::Unlimited] {
        for start in [-86400, 0, now - 400 * 86400, now - 10 * 86400, now] {
            let g = apply_analytics_gating(tier, start, now, now);
            assert!(g.adjusted_start >= start);
            let again = apply_analytics_gating(tier, g.adjusted_start, now, now);
            assert!(!again.gated);
            assert_eq!(again.adjusted_start, g.adjusted_start);
        }
    }
    let start = now - 100 * 86400;
    assert!(apply_analytics_gating(Tier::Free, start, now, now).gated);
    assert!(!apply_analytics_gating(Tier::Pro, start, now, now).gated);
}
