use rushomon::links::create::{
    check_link_rules, check_tag_limit, count_new_tags, first_unknown_field, is_create_field,
    monthly_limit_error, next_code_attempt, resolve_forward, unknown_field_error, LinkRequestFeatures,
    LinkRuleError,
};
use rushomon::links::export::{csv_escape, export_csv, export_filename, export_row, ExportLink};
use rushomon::links::import::{
    check_import_batch, duplicate_code_reason, import_title, invalid_code_reason, summarize_import,
    tags_skipped_message, BatchDecision, RowOutcome,
};
use rushomon::links::list::{list_offset, parse_link_list_query};
use rushomon::links::redirect::{
    client_ip, not_found_url, plan_redirect, utm_pairs, visitor_query_pairs, LinkMapping,
    RedirectPlan, UtmParams,
};
use rushomon::links::status::{parse_admin_status, status_updated_message, LinkStatus};
use rushomon::links::update::{check_update, update_paid_features, UpdateRuleError};
use rushomon::tier::Tier;

fn features(title: Option<&str>, custom: bool, utm: bool, forward: bool, redirect: &str) -> LinkRequestFeatures {
    LinkRequestFeatures {
        title: title.map(|s| s.to_string()),
        custom_short_code: custom,
        has_utm: utm,
        forward_query_params_set: forward,
        redirect_type: redirect.to_string(),
    }
}

#[test]
fn create_fields_checked() {
    assert!(is_create_field("destination_url"));
    assert!(is_create_field("redirect_type"));
    assert!(!is_create_field("url"));
    let keys = vec!["destination_url".to_string(), "tags".to_string(), "colour".to_string(), "x".to_string()];
    assert_eq!(first_unknown_field(&keys), Some(2));
    assert_eq!(first_unknown_field(&vec!["title".to_string()]), None);
    assert_eq!(
        unknown_field_error("colour"),
        "Unknown field 'colour'. Expected fields: destination_url, short_code (optional), title (optional), expires_at (optional), tags (optional), utm_params (optional, Pro+), forward_query_params (optional, Pro+), redirect_type (optional, defaults to 301)"
    );
}

#[test]
fn monthly_limit_messages() {
    assert_eq!(monthly_limit_error(100, 97), "You can create 3 more short links this month across all organizations.");
    let reached = "You have reached your monthly link limit across all organizations. Upgrade your plan to create more links.";
    assert_eq!(monthly_limit_error(100, 100), reached);
    assert_eq!(monthly_limit_error(100, 150), reached);
}

#[test]
fn link_rules_by_tier() {
    assert_eq!(check_link_rules(&features(None, false, false, false, "301"), Some(Tier::Free)), None);
    let long = "x".repeat(201);
    let e = check_link_rules(&features(Some(&long), true, true, true, "307"), Some(Tier::Pro)).unwrap();
    assert_eq!(e, LinkRuleError::TitleTooLong);
    assert_eq!(e.status(), 400);
    assert_eq!(check_link_rules(&features(Some(&"x".repeat(200)), false, false, false, "301"), None), None);
    let e = check_link_rules(&features(None, true, false, false, "301"), Some(Tier::Free)).unwrap();
    assert_eq!(e.message(), "Custom short codes are not available on the free tier. Upgrade to Pro.");
    assert_eq!(e.status(), 403);
    let e = check_link_rules(&features(None, false, true, false, "307"), Some(Tier::Free)).unwrap();
    assert_eq!(e.message(), "Custom redirect types (307) require a Pro plan or above.");
    let e = check_link_rules(&features(None, false, false, true, "301"), None).unwrap();
    assert_eq!(e.message(), "UTM parameters and query parameter forwarding require a Pro plan or above.");
    assert_eq!(check_link_rules(&features(None, true, true, true, "307"), Some(Tier::Business)), None);
}

#[test]
fn code_regeneration_gives_up_after_ten() {
    let mut attempts = 0;
    let mut regenerated = 0;
    while let Some(next) = next_code_attempt(attempts) {
        attempts = next;
        regenerated += 1;
    }
    assert_eq!(regenerated, 10);
    assert_eq!(next_code_attempt(10), None);
    assert_eq!(next_code_attempt(0), Some(1));
}

#[test]
fn new_tags_and_tag_limit() {
    let tags = vec!["a".to_string(), "b".to_string(), "c".to_string()];
    assert_eq!(count_new_tags(&tags, &vec!["b".to_string(), "z".to_string()]), 2);
    assert_eq!(count_new_tags(&tags, &vec![]), 3);
    assert_eq!(
        check_tag_limit(10, 9, 2),
        Some("You can create 1 more tag across all organizations. Upgrade your plan to add more tags.".to_string())
    );
    assert_eq!(
        check_tag_limit(10, 7, 5),
        Some("You can create 3 more tags across all organizations. Upgrade your plan to add more tags.".to_string())
    );
    assert_eq!(
        check_tag_limit(10, 10, 1),
        Some("You have reached your tag limit across all organizations. Upgrade your plan to create more tags.".to_string())
    );
    assert_eq!(check_tag_limit(10, 8, 2), None);
}

#[test]
fn forwarding_resolution() {
    assert!(resolve_forward(Some(true), Some(false)));
    assert!(!resolve_forward(Some(false), Some(true)));
    assert!(resolve_forward(None, Some(true)));
    assert!(!resolve_forward(None, None));
}

#[test]
fn import_batches() {
    assert_eq!(check_import_batch(0), BatchDecision::Empty);
    assert_eq!(check_import_batch(1), BatchDecision::Proceed);
    assert_eq!(check_import_batch(50), BatchDecision::Proceed);
    assert_eq!(check_import_batch(51), BatchDecision::TooMany);
}

#[test]
fn import_titles() {
    assert_eq!(import_title(Some("  Hello  ")), Some("Hello".to_string()));
    assert_eq!(import_title(Some("   ")), None);
    assert_eq!(import_title(None), None);
    assert_eq!(import_title(Some(&"a".repeat(201))), None);
    assert_eq!(import_title(Some(&"é".repeat(100))), Some("é".repeat(100)));
    assert_eq!(import_title(Some(&"é".repeat(101))), None);
}

#[test]
fn import_messages() {
    assert_eq!(invalid_code_reason("too short"), "Invalid short code: too short");
    assert_eq!(duplicate_code_reason("x1"), "Duplicate short code: 'x1' is already in use");
    assert_eq!(
        tags_skipped_message(25),
        "Tags skipped: would exceed tag limit (25 max). Consider upgrading your plan."
    );
}

#[test]
fn import_report_tally() {
    let rows = vec![
        RowOutcome::Created { destination_url: "https://a".to_string(), tags_warning: None },
        RowOutcome::Failed { destination_url: "bad".to_string(), reason: "Invalid URL: x".to_string() },
        RowOutcome::InvalidCode { destination_url: "https://b".to_string(), reason: "Invalid short code: y".to_string() },
        RowOutcome::Created { destination_url: "https://c".to_string(), tags_warning: Some("w2".to_string()) },
        RowOutcome::DuplicateCode {
            destination_url: "https://d".to_string(),
            reason: "Duplicate short code: 'z' is already in use".to_string(),
        },
    ];
    let r = summarize_import(&rows);
    assert_eq!(r.created, 2);
    assert_eq!(r.failed, 1);
    assert_eq!(r.skipped, 3);
    let errors: Vec<(usize, &str, &str)> =
        r.errors.iter().map(|n| (n.row, n.destination_url.as_str(), n.reason.as_str())).collect();
    assert_eq!(
        errors,
        vec![
            (2, "bad", "Invalid URL: x"),
            (3, "https://b", "Invalid short code: y"),
            (5, "https://d", "Duplicate short code: 'z' is already in use"),
        ]
    );
    assert_eq!(r.warnings.len(), 1);
    assert_eq!(r.warnings[0].row, 4);
    assert_eq!(r.warnings[0].destination_url, "https://c");
    assert_eq!(r.warnings[0].reason, "w2");
}

#[test]
fn client_address() {
    assert_eq!(client_ip(Some("1.1.1.1"), Some("2.2.2.2"), Some("3.3.3.3")), "1.1.1.1");
    assert_eq!(client_ip(None, Some(" 2.2.2.2 , 9.9.9.9"), Some("3.3.3.3")), "2.2.2.2");
    assert_eq!(client_ip(None, Some("4.4.4.4"), None), "4.4.4.4");
    assert_eq!(client_ip(None, None, Some("3.3.3.3")), "3.3.3.3");
    assert_eq!(client_ip(None, None, None), "unknown");
}

fn mapping(dest: &str, status: LinkStatus, expires_at: Option<i64>, forward: bool, redirect: &str) -> LinkMapping {
    LinkMapping {
        link_id: "l1".to_string(),
        destination_url: dest.to_string(),
        status,
        expires_at,
        utm_params: Some(UtmParams {
            utm_source: Some("news".to_string()),
            utm_medium: Some(String::new()),
            utm_campaign: Some("spring".to_string()),
            utm_term: None,
            utm_content: None,
            utm_ref: None,
        }),
        forward_query_params: forward,
        redirect_type: redirect.to_string(),
    }
}

#[test]
fn utm_pairs_skip_empty() {
    let m = mapping("https://example.com", LinkStatus::Active, None, false, "301");
    let pairs = utm_pairs(m.utm_params.as_ref().unwrap());
    assert_eq!(pairs, vec![("utm_source".to_string(), "news".to_string()), ("utm_campaign".to_string(), "spring".to_string())]);
}

#[test]
fn redirects_append_utm_and_visitor_query() {
    let m = mapping("https://example.com/page?x=1", LinkStatus::Active, None, true, "307");
    let visitor = Some(vec![("ref".to_string(), "tw".to_string())]);
    match plan_redirect(Some(&m), 100, visitor) {
        RedirectPlan::Redirect { location, status } => {
            assert_eq!(location, "https://example.com/page?x=1&utm_source=news&utm_campaign=spring&ref=tw");
            assert_eq!(status, 307);
        }
        other => panic!("unexpected {:?}", other),
    }
    let no_forward = mapping("https://example.com/page", LinkStatus::Active, Some(100), false, "abc");
    match plan_redirect(Some(&no_forward), 100, Some(vec![("ref".to_string(), "tw".to_string())])) {
        RedirectPlan::Redirect { location, status } => {
            assert_eq!(location, "https://example.com/page?utm_source=news&utm_campaign=spring");
            assert_eq!(status, 301);
        }
        other => panic!("unexpected {:?}", other),
    }
}

#[test]
fn redirect_normalizes_plain_destination() {
    let mut m = mapping("https://example.com", LinkStatus::Active, None, false, "302");
    m.utm_params = None;
    match plan_redirect(Some(&m), 0, None) {
        RedirectPlan::Redirect { location, status } => {
            assert_eq!(location, "https://example.com/");
            assert_eq!(status, 302);
        }
        other => panic!("unexpected {:?}", other),
    }
}

#[test]
fn dead_links_go_to_not_found() {
    assert!(matches!(plan_redirect(None, 0, None), RedirectPlan::NotFound));
    let disabled = mapping("https://example.com", LinkStatus::Disabled, None, false, "301");
    assert!(matches!(plan_redirect(Some(&disabled), 0, None), RedirectPlan::NotFound));
    let blocked = mapping("https://example.com", LinkStatus::Blocked, None, false, "301");
    assert!(matches!(plan_redirect(Some(&blocked), 0, None), RedirectPlan::NotFound));
    let expired = mapping("https://example.com", LinkStatus::Active, Some(99), false, "301");
    assert!(matches!(plan_redirect(Some(&expired), 100, None), RedirectPlan::NotFound));
    assert!(matches!(plan_redirect(Some(&expired), 99, None), RedirectPlan::Redirect { .. }));
    let bad = mapping("not a url", LinkStatus::Active, None, false, "301");
    assert!(matches!(plan_redirect(Some(&bad), 0, None), RedirectPlan::BadDestination));
    assert_eq!(not_found_url("https://app.example"), "https://app.example/404");
}

#[test]
fn visitor_pairs_are_decoded() {
    assert_eq!(
        visitor_query_pairs("https://s.io/abc?a=1&b=two%20words&c=x+y"),
        Some(vec![
            ("a".to_string(), "1".to_string()),
            ("b".to_string(), "two words".to_string()),
            ("c".to_string(), "x y".to_string()),
        ])
    );
    assert_eq!(visitor_query_pairs("no url"), None);
}

#[test]
fn list_query_parsing() {
    let q = parse_link_list_query("page=0&limit=500&search=hello%20world&status=disabled&sort=clicks&tags=a,+b+c,,d");
    assert_eq!(q.page, 1);
    assert_eq!(q.limit, 100);
    assert_eq!(q.search, Some("hello world".to_string()));
    assert_eq!(q.status, Some("disabled"));
    assert_eq!(q.sort, "clicks");
    assert_eq!(q.tags, vec!["a".to_string(), "b c".to_string(), "d".to_string()]);
    let d = parse_link_list_query("");
    assert_eq!((d.page, d.limit, d.search.clone(), d.status, d.sort), (1, 50, None, None, "created"));
    assert!(d.tags.is_empty());
    let e = parse_link_list_query("limit=-5&search=%20%20&status=blocked&sort=bogus&page=3");
    assert_eq!(e.limit, -5);
    assert_eq!(e.page, 3);
    assert_eq!(e.search, None);
    assert_eq!(e.status, None);
    assert_eq!(e.sort, "created");
    assert_eq!(list_offset(3, 20), 40);
    assert_eq!(list_offset(1, 20), 0);
}

#[test]
fn update_rules() {
    let now = 1_000_000;
    assert_eq!(check_update(None, None, Some(now + 30), now), Err(UpdateRuleError::ExpiryTooSoon));
    assert_eq!(check_update(None, None, Some(now), now), Err(UpdateRuleError::ExpiryNotInFuture));
    assert_eq!(check_update(None, None, Some(now + 60), now), Ok(Some(Some(now + 60))));
    assert_eq!(check_update(None, Some(true), Some(now - 5), now), Ok(Some(None)));
    assert_eq!(check_update(None, Some(false), None, now), Ok(None));
    assert_eq!(check_update(Some(&"t".repeat(201)), Some(true), None, now), Err(UpdateRuleError::TitleTooLong));
    assert_eq!(UpdateRuleError::ExpiryTooSoon.message(), "Expiration must be at least 60 seconds in the future");
    assert_eq!(update_paid_features(Some("301"), false, false), (false, false));
    assert_eq!(update_paid_features(Some("307"), false, true), (true, true));
    assert_eq!(update_paid_features(None, true, false), (false, true));
}

#[test]
fn csv_escaping() {
    assert_eq!(csv_escape("plain"), "plain");
    assert_eq!(csv_escape("a,b"), "\"a,b\"");
    assert_eq!(csv_escape("say \"hi\""), "\"say \"\"hi\"\"\"");
    assert_eq!(csv_escape("line\nbreak"), "\"line\nbreak\"");
    assert_eq!(csv_escape("cr\r"), "\"cr\r\"");
    assert_eq!(csv_escape(""), "");
}

fn export_link() -> ExportLink {
    ExportLink {
        short_code: "abc".to_string(),
        destination_url: "https://example.com/?a=1,2".to_string(),
        title: Some("Hello".to_string()),
        tags: vec!["x".to_string(), "y".to_string()],
        status: LinkStatus::Active,
        click_count: 42,
        created_at: 1704067200,
        expires_at: None,
        utm_params: Some(UtmParams {
            utm_source: Some("n,ews".to_string()),
            utm_medium: None,
            utm_campaign: None,
            utm_term: None,
            utm_content: None,
            utm_ref: None,
        }),
        forward_query_params: Some(true),
    }
}

#[test]
fn export_lines() {
    assert_eq!(
        export_row(&export_link()),
        "abc,\"https://example.com/?a=1,2\",Hello,x|y,active,42,2024-01-01T00:00:00Z,,\"n,ews\",,,,,,true\n"
    );
    let csv = export_csv(&vec![export_link()]);
    assert!(csv.starts_with("short_code,destination_url,title,tags,status,click_count,created_at,expires_at,utm_source,utm_medium,utm_campaign,utm_term,utm_content,utm_ref,forward_query_params\n"));
    assert!(csv.ends_with(",true\n"));
    assert_eq!(export_csv(&vec![]).lines().count(), 1);
    assert_eq!(export_filename(1710504000), "rushomon-links-2024-03-15.csv");
}

#[test]
fn link_status_names() {
    assert_eq!(parse_admin_status(None), Err("Missing 'status' field"));
    assert_eq!(parse_admin_status(Some("blocked")), Ok(LinkStatus::Blocked));
    assert_eq!(
        parse_admin_status(Some("deleted")),
        Err("Invalid status. Must be 'active', 'disabled', or 'blocked'")
    );
    assert_eq!(status_updated_message(LinkStatus::Disabled), "Link status updated to disabled");
    for s in [LinkStatus::Active, LinkStatus::Disabled, LinkStatus::Blocked] {
        assert_eq!(LinkStatus::parse(s.as_str()), Some(s));
    }
}
