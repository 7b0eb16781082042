use rushomon::domains::links_to_sync;
use rushomon::links::export::csv_escape;
use rushomon::links::status::LinkStatus;
use rushomon::tier::{tier_or_free, Tier};

/// Reads one CSV field back the way a CSV reader does.
fn read_field(f: &str) -> String {
    let chars: Vec<char> = f.chars().collect();
    if chars.len() >= 2 && chars[0] == '"' && chars[chars.len() - 1] == '"' {
        let inner: String = chars[1..chars.len() - 1].iter().collect();
        inner.replace("\"\"", "\"")
    } else {
        f.to_string()
    }
}

#[test]
fn stored_tier_names_are_read() {
    assert_eq!(tier_or_free(Some("pro")), Tier::Pro);
    assert_eq!(tier_or_free(Some("business")), Tier::Business);
    assert_eq!(tier_or_free(Some("unlimited")), Tier::Unlimited);
    assert_eq!(tier_or_free(Some("free")), Tier::Free);
}

#[test]
fn unknown_or_missing_tier_is_free() {
    assert_eq!(tier_or_free(Some("enterprise")), Tier::Free);
    assert_eq!(tier_or_free(Some("Pro")), Tier::Free);
    assert_eq!(tier_or_free(Some("")), Tier::Free);
    assert_eq!(tier_or_free(None), Tier::Free);
}

#[test]
fn only_active_links_are_synced_in_order() {
    let statuses = vec![
        LinkStatus::Active,
        LinkStatus::Disabled,
        LinkStatus::Active,
        LinkStatus::Blocked,
        LinkStatus::Active,
    ];
    assert_eq!(links_to_sync(&statuses), vec![0, 2, 4]);
    assert_eq!(links_to_sync(&vec![LinkStatus::Blocked]), Vec::<usize>::new());
    assert_eq!(links_to_sync(&Vec::new()), Vec::<usize>::new());
}

#[test]
fn csv_fields_read_back_unchanged() {
    for value in ["plain", "a,b", "say \"hi\"", "line\nbreak", "\"", "", "x\"\"y", "cr\r,\""] {
        assert_eq!(read_field(&csv_escape(value)), value);
    }
}
