//! The rules a new link must pass before it is stored.
use crate::text::{i64_decimal_chars, int_decimal, string_from_chars, str_is, utf8_len, utf8_len_exceeds, chars_of};
use crate::tier::{pro_or_above, Tier};
use vstd::prelude::*;

verus! {

broadcast use vstd::string::group_string_axioms;

/// The fields a create request may carry.
pub open spec fn create_fields() -> Seq<Seq<char>> {
    seq![
        "destination_url"@,
        "short_code"@,
        "title"@,
        "expires_at"@,
        "tags"@,
        "utm_params"@,
        "forward_query_params"@,
        "redirect_type"@,
    ]
}

/// Whether `name` is one of the create request's fields.
pub fn is_create_field(name: &str) -> (r: bool)
    ensures
        r == create_fields().contains(name@),
{
    proof {
        reveal_strlit("destination_url");
        reveal_strlit("short_code");
        reveal_strlit("title");
        reveal_strlit("expires_at");
        reveal_strlit("tags");
        reveal_strlit("utm_params");
        reveal_strlit("forward_query_params");
        reveal_strlit("redirect_type");
    }
    let r = str_is(name, "destination_url") || str_is(name, "short_code") || str_is(name, "title")
        || str_is(name, "expires_at") || str_is(name, "tags") || str_is(name, "utm_params")
        || str_is(name, "forward_query_params") || str_is(name, "redirect_type");
    proof {
        if create_fields().contains(name@) {
            let j = choose|j: int| 0 <= j < create_fields().len() && create_fields()[j] == name@;
            assert(0 <= j < 8);
        }
        if r {
            if name@ == "destination_url"@ {
                assert(create_fields()[0] == name@);
            } else if name@ == "short_code"@ {
                assert(create_fields()[1] == name@);
            } else if name@ == "title"@ {
                assert(create_fields()[2] == name@);
            } else if name@ == "expires_at"@ {
                assert(create_fields()[3] == name@);
            } else if name@ == "tags"@ {
                assert(create_fields()[4] == name@);
            } else if name@ == "utm_params"@ {
                assert(create_fields()[5] == name@);
            } else if name@ == "forward_query_params"@ {
                assert(create_fields()[6] == name@);
            } else {
                assert(create_fields()[7] == name@);
            }
        }
    }
    r
}

/// The position of the first key that is not a create field.
pub fn first_unknown_field(keys: &Vec<String>) -> (r: Option<usize>)
    ensures
        match r {
            Some(i) => i < keys.len() && !create_fields().contains(keys@[i as int]@) && forall|
                j: int,
            |
                0 <= j < i ==> create_fields().contains(#[trigger] keys@[j]@),
            None => forall|j: int|
                0 <= j < keys.len() ==> create_fields().contains(#[trigger] keys@[j]@),
        },
{
    let mut i: usize = 0;
    while i < keys.len()
        invariant
            i <= keys.len(),
            forall|j: int| 0 <= j < i ==> create_fields().contains(#[trigger] keys@[j]@),
        decreases keys.len() - i,
    {
        if !is_create_field(keys[i].as_str()) {
            return Some(i);
        }
        i = i + 1;
    }
    None
}

/// The 400 message for an unknown field.
pub open spec fn unknown_field_message(name: Seq<char>) -> Seq<char> {
    "Unknown field '"@ + name
        + "'. Expected fields: destination_url, short_code (optional), title (optional), expires_at (optional), tags (optional), utm_params (optional, Pro+), forward_query_params (optional, Pro+), redirect_type (optional, defaults to 301)"@
}

/// The 400 message for an unknown field.
pub fn unknown_field_error(name: &str) -> (r: String)
    ensures
        r@ == unknown_field_message(name@),
{
    let mut s = "Unknown field '".to_string();
    s.append(name);
    s.append(
        "'. Expected fields: destination_url, short_code (optional), title (optional), expires_at (optional), tags (optional), utm_params (optional, Pro+), forward_query_params (optional, Pro+), redirect_type (optional, defaults to 301)",
    );
    s
}

/// `a.saturating_sub(b)` for `i64`.
pub open spec fn sat_sub_i64(a: int, b: int) -> int {
    if a - b > i64::MAX {
        i64::MAX as int
    } else if a - b < i64::MIN {
        i64::MIN as int
    } else {
        a - b
    }
}

fn saturating_sub_i64(a: i64, b: i64) -> (r: i64)
    ensures
        r == sat_sub_i64(a as int, b as int),
{
    let d: i128 = a as i128 - b as i128;
    if d > i64::MAX as i128 {
        i64::MAX
    } else if d < i64::MIN as i128 {
        i64::MIN
    } else {
        d as i64
    }
}

/// `prefix`, the decimal form of `n`, `suffix`.
fn message_with_number(prefix: &str, n: i64, suffix: &str) -> (r: String)
    ensures
        r@ == prefix@ + int_decimal(n as int) + suffix@,
{
    let digits = i64_decimal_chars(n);
    let number = string_from_chars(digits.as_slice());
    let mut s = prefix.to_string();
    s.append(number.as_str());
    s.append(suffix);
    s
}

/// The 403 message when the monthly link quota is used up: how many links
/// remain, or that none do.
pub open spec fn monthly_limit_message(max_links: int, current: int) -> Seq<char> {
    let remaining = sat_sub_i64(max_links, current);
    if remaining > 0 {
        "You can create "@ + int_decimal(remaining)
            + " more short links this month across all organizations."@
    } else {
        "You have reached your monthly link limit across all organizations. Upgrade your plan to create more links."@
    }
}

/// The 403 message when the monthly link quota is used up.
pub fn monthly_limit_error(max_links: i64, current: i64) -> (r: String)
    ensures
        r@ == monthly_limit_message(max_links as int, current as int),
{
    let remaining = saturating_sub_i64(max_links, current);
    if remaining > 0 {
        message_with_number(
            "You can create ",
            remaining,
            " more short links this month across all organizations.",
        )
    } else {
        "You have reached your monthly link limit across all organizations. Upgrade your plan to create more links.".to_string()
    }
}

/// Why a create request is refused by the link rules.
#[derive(Debug, Clone, Copy, PartialEq, Eq, Structural)]
pub enum LinkRuleError {
    /// 400: the title is longer than 200 bytes.
    TitleTooLong,
    /// 403: a chosen short code on a tier without them.
    CustomCodeNotAllowed,
    /// 403: redirect type other than 301 below Pro.
    RedirectTypeNeedsPro,
    /// 403: UTM parameters or query forwarding below Pro.
    UtmOrForwardNeedsPro,
}

impl LinkRuleError {
    pub open spec fn status_spec(self) -> u16 {
        match self {
            LinkRuleError::TitleTooLong => 400,
            _ => 403,
        }
    }

    pub open spec fn message_spec(self) -> Seq<char> {
        match self {
            LinkRuleError::TitleTooLong => "Title must be 200 characters or less"@,
            LinkRuleError::CustomCodeNotAllowed => "Custom short codes are not available on the free tier. Upgrade to Pro."@,
            LinkRuleError::RedirectTypeNeedsPro => "Custom redirect types (307) require a Pro plan or above."@,
            LinkRuleError::UtmOrForwardNeedsPro => "UTM parameters and query parameter forwarding require a Pro plan or above."@,
        }
    }

    /// The HTTP status of the refusal.
    pub fn status(&self) -> (r: u16)
        ensures
            r == self.status_spec(),
    {
        match self {
            LinkRuleError::TitleTooLong => 400,
            _ => 403,
        }
    }

    /// The message of the refusal.
    pub fn message(&self) -> (r: &'static str)
        ensures
            r@ == self.message_spec(),
    {
        match self {
            LinkRuleError::TitleTooLong => "Title must be 200 characters or less",
            LinkRuleError::CustomCodeNotAllowed => "Custom short codes are not available on the free tier. Upgrade to Pro.",
            LinkRuleError::RedirectTypeNeedsPro => "Custom redirect types (307) require a Pro plan or above.",
            LinkRuleError::UtmOrForwardNeedsPro => "UTM parameters and query parameter forwarding require a Pro plan or above.",
        }
    }
}

/// What a create request asks for that the tier rules look at.
pub struct LinkRequestFeatures {
    /// The title, if given.
    pub title: Option<String>,
    /// Whether a short code was chosen.
    pub custom_short_code: bool,
    /// Whether non-empty UTM parameters were given.
    pub has_utm: bool,
    /// Whether `forward_query_params` was given at all.
    pub forward_query_params_set: bool,
    /// The redirect type (`301` by default).
    pub redirect_type: String,
}

/// Whether a paid feature is asked for: UTM parameters, query forwarding, or
/// a redirect type other than 301.
pub open spec fn wants_pro_features(f: LinkRequestFeatures) -> bool {
    f.has_utm || f.forward_query_params_set || f.redirect_type@ != "301"@
}

/// The first rule a request breaks, in the handler's order: title length,
/// chosen short code, paid features. An unknown tier allows no paid feature.
pub open spec fn link_rule_violation(f: LinkRequestFeatures, tier: Option<Tier>) -> Option<
    LinkRuleError,
> {
    let paid = match tier {
        Some(t) => pro_or_above(t),
        None => false,
    };
    if f.title matches Some(t) && utf8_len(t@) > 200 {
        Some(LinkRuleError::TitleTooLong)
    } else if f.custom_short_code && !paid {
        Some(LinkRuleError::CustomCodeNotAllowed)
    } else if wants_pro_features(f) && !paid {
        if f.redirect_type@ != "301"@ {
            Some(LinkRuleError::RedirectTypeNeedsPro)
        } else {
            Some(LinkRuleError::UtmOrForwardNeedsPro)
        }
    } else {
        None
    }
}

/// Paid features are refused only to the free tier or an unknown one: on
/// any other tier a request whose title fits (200 bytes or fewer) breaks no
/// rule, whatever it asks for; on the free tier (or an unknown one) a chosen
/// short code, UTM parameters, query forwarding or a redirect type other than
/// 301 is refused with 403; and a title over 200 bytes is refused with 400 on
/// every tier.
pub proof fn lemma_paid_features_by_tier(f: LinkRequestFeatures, tier: Option<Tier>)
    ensures
        (tier matches Some(t) && t != Tier::Free) && (f.title matches Some(x) ==> utf8_len(x@) <= 200)
            ==> link_rule_violation(f, tier) is None,
        (tier is None || tier == Some(Tier::Free)) && (f.title matches Some(x) ==> utf8_len(x@) <= 200)
            && (f.custom_short_code || f.has_utm || f.forward_query_params_set || f.redirect_type@
            != "301"@) ==> (link_rule_violation(f, tier) matches Some(e) && e.status_spec() == 403),
        (f.title matches Some(x) && utf8_len(x@) > 200) ==> link_rule_violation(f, tier) == Some(
            LinkRuleError::TitleTooLong,
        ),
{
}

/// Checks a create request against the tier rules.
pub fn check_link_rules(f: &LinkRequestFeatures, tier: Option<Tier>) -> (r: Option<LinkRuleError>)
    ensures
        r == link_rule_violation(*f, tier),
{
    let paid = match tier {
        Some(t) => t.limits().allow_custom_short_code,
        None => false,
    };
    if let Some(t) = &f.title {
        let chars = chars_of(t.as_str());
        if utf8_len_exceeds(chars.as_slice(), 200) {
            return Some(LinkRuleError::TitleTooLong);
        }
    }
    if f.custom_short_code && !paid {
        return Some(LinkRuleError::CustomCodeNotAllowed);
    }
    let default_redirect = str_is(f.redirect_type.as_str(), "301");
    let wants = f.has_utm || f.forward_query_params_set || !default_redirect;
    let pro = match tier {
        Some(t) => t.is_pro_or_above(),
        None => false,
    };
    if wants && !pro {
        if !default_redirect {
            Some(LinkRuleError::RedirectTypeNeedsPro)
        } else {
            Some(LinkRuleError::UtmOrForwardNeedsPro)
        }
    } else {
        None
    }
}

/// Regenerations allowed after the first random code collides.
pub const MAX_CODE_REGENERATIONS: u32 = 10;

/// After `attempts` regenerations the last code collided too: the number of
/// the next regeneration, or `None` when the handler gives up (500, "Failed to
/// generate unique short code").
pub fn next_code_attempt(attempts: u32) -> (r: Option<u32>)
    requires
        attempts <= MAX_CODE_REGENERATIONS,
    ensures
        attempts < MAX_CODE_REGENERATIONS ==> r == Some((attempts + 1) as u32),
        attempts == MAX_CODE_REGENERATIONS ==> r is None,
{
    if attempts < MAX_CODE_REGENERATIONS {
        Some(attempts + 1)
    } else {
        None
    }
}

/// How many of `tags` are not among `existing`.
pub open spec fn new_tag_count(tags: Seq<Seq<char>>, existing: Seq<Seq<char>>) -> nat
    decreases tags.len(),
{
    if tags.len() == 0 {
        0
    } else {
        new_tag_count(tags.drop_last(), existing) + if existing.contains(tags.last()) {
            0nat
        } else {
            1nat
        }
    }
}

pub open spec fn views(v: Seq<String>) -> Seq<Seq<char>> {
    v.map_values(|s: String| s@)
}

fn contains_string(v: &Vec<String>, s: &str) -> (r: bool)
    ensures
        r == views(v@).contains(s@),
{
    let mut i: usize = 0;
    while i < v.len()
        invariant
            i <= v.len(),
            forall|j: int| 0 <= j < i ==> v@[j]@ != s@,
        decreases v.len() - i,
    {
        if str_is(v[i].as_str(), s) {
            assert(views(v@)[i as int] == s@);
            return true;
        }
        i = i + 1;
    }
    proof {
        if views(v@).contains(s@) {
            let j = choose|j: int| 0 <= j < views(v@).len() && views(v@)[j] == s@;
            assert(v@[j]@ == s@);
        }
    }
    false
}

/// Counts the tags of a new link that the billing account does not use yet.
pub fn count_new_tags(tags: &Vec<String>, existing: &Vec<String>) -> (r: usize)
    ensures
        r == new_tag_count(views(tags@), views(existing@)),
{
    let mut n: usize = 0;
    let mut i: usize = 0;
    while i < tags.len()
        invariant
            i <= tags.len(),
            n == new_tag_count(views(tags@).subrange(0, i as int), views(existing@)),
            n <= i,
        decreases tags.len() - i,
    {
        assert(views(tags@).subrange(0, i + 1).drop_last() =~= views(tags@).subrange(0, i as int));
        if !contains_string(existing, tags[i].as_str()) {
            n = n + 1;
        }
        i = i + 1;
    }
    assert(views(tags@).subrange(0, i as int) =~= views(tags@));
    n
}

/// The 403 message when new tags would pass the tier's tag limit, or `None`
/// when they fit.
pub open spec fn tag_limit_message(max_tags: int, current: int, new_tags: int) -> Option<Seq<char>> {
    if current + new_tags > max_tags {
        let remaining = sat_sub_i64(max_tags, current);
        if remaining > 0 {
            Some(
                "You can create "@ + int_decimal(remaining) + " more tag"@ + (if remaining == 1 {
                    ""@
                } else {
                    "s"@
                }) + " across all organizations. Upgrade your plan to add more tags."@,
            )
        } else {
            Some(
                "You have reached your tag limit across all organizations. Upgrade your plan to create more tags."@,
            )
        }
    } else {
        None
    }
}

/// Checks the tag limit for a new link.
pub fn check_tag_limit(max_tags: i64, current: i64, new_tags: i64) -> (r: Option<String>)
    ensures
        match r {
            Some(m) => tag_limit_message(max_tags as int, current as int, new_tags as int) == Some(
                m@,
            ),
            None => tag_limit_message(max_tags as int, current as int, new_tags as int) is None,
        },
{
    if (current as i128) + (new_tags as i128) > max_tags as i128 {
        let remaining = saturating_sub_i64(max_tags, current);
        if remaining > 0 {
            let suffix = if remaining == 1 {
                " more tag across all organizations. Upgrade your plan to add more tags."
            } else {
                " more tags across all organizations. Upgrade your plan to add more tags."
            };
            let r = message_with_number("You can create ", remaining, suffix);
            proof {
                reveal_strlit(" more tag across all organizations. Upgrade your plan to add more tags.");
                reveal_strlit(" more tags across all organizations. Upgrade your plan to add more tags.");
                reveal_strlit(" more tag");
                reveal_strlit("s");
                reveal_strlit("");
                reveal_strlit(" across all organizations. Upgrade your plan to add more tags.");
                if remaining == 1 {
                    assert(suffix@ =~= " more tag"@ + ""@
                        + " across all organizations. Upgrade your plan to add more tags."@);
                } else {
                    assert(suffix@ =~= " more tag"@ + "s"@
                        + " across all organizations. Upgrade your plan to add more tags."@);
                }
            }
            Some(r)
        } else {
            Some(
                "You have reached your tag limit across all organizations. Upgrade your plan to create more tags.".to_string(),
            )
        }
    } else {
        None
    }
}

/// Whether the stored mapping forwards the visitor's query: the link's own
/// setting, else the organization's default (`None` when it could not be
/// read), else off.
pub fn resolve_forward(link_setting: Option<bool>, org_default: Option<bool>) -> (r: bool)
    ensures
        r == match link_setting {
            Some(b) => b,
            None => match org_default {
                Some(d) => d,
                None => false,
            },
        },
{
    match link_setting {
        Some(b) => b,
        None => match org_default {
            Some(d) => d,
            None => false,
        },
    }
}

} // verus!
