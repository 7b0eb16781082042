//! Custom domains: hostname rules, plan limits, provider status and DNS records.
use crate::links::status::LinkStatus;
use crate::orgs::roles::{denial, Denial};
use crate::text::{
    chars_of, contains_char, contains_chars, contains_seq, i64_decimal_chars, int_decimal,
    lowercase_of, str_is, string_from_chars, to_lowercase, trim, trim_chars, utf8_len,
    utf8_len_exceeds,
};
use vstd::prelude::*;

verus! {

broadcast use vstd::string::group_string_axioms;

/// `char::is_ascii_alphanumeric`.
pub open spec fn ascii_alnum(c: char) -> bool {
    ('0' <= c <= '9') || ('a' <= c <= 'z') || ('A' <= c <= 'Z')
}

/// A character allowed in a hostname.
pub open spec fn hostname_char(c: char) -> bool {
    ascii_alnum(c) || c == '-' || c == '.'
}

/// The first rule a hostname breaks (all 400): length 1 to 253 bytes, no
/// leading or trailing hyphen or dot, at least one dot, only ASCII letters,
/// digits, hyphens and dots.
pub open spec fn hostname_violation(h: Seq<char>) -> Option<Seq<char>> {
    if h.len() == 0 || utf8_len(h) > 253 {
        Some("Invalid hostname length"@)
    } else if h[0] == '-' || h.last() == '-' || h[0] == '.' || h.last() == '.' {
        Some("Hostname must not start or end with a hyphen or dot"@)
    } else if !h.contains('.') {
        Some("Hostname must contain at least one dot (e.g. go.example.com)"@)
    } else if !(forall|i: int| 0 <= i < h.len() ==> hostname_char(#[trigger] h[i])) {
        Some("Hostname contains invalid characters. Use only a-z, 0-9, hyphens, and dots."@)
    } else {
        None
    }
}

fn is_hostname_char(c: char) -> (r: bool)
    ensures
        r == hostname_char(c),
{
    ('0' <= c && c <= '9') || ('a' <= c && c <= 'z') || ('A' <= c && c <= 'Z') || c == '-' || c
        == '.'
}

/// Checks a custom hostname.
pub fn validate_hostname(hostname: &str) -> (r: Result<(), &'static str>)
    ensures
        match hostname_violation(hostname@) {
            Some(m) => r matches Err(e) && e@ == m,
            None => r is Ok,
        },
{
    let h = chars_of(hostname);
    if h.len() == 0 || utf8_len_exceeds(h.as_slice(), 253) {
        return Err("Invalid hostname length");
    }
    let first = h[0];
    let last = h[h.len() - 1];
    if first == '-' || last == '-' || first == '.' || last == '.' {
        return Err("Hostname must not start or end with a hyphen or dot");
    }
    if !contains_char(h.as_slice(), '.') {
        return Err("Hostname must contain at least one dot (e.g. go.example.com)");
    }
    let mut i: usize = 0;
    while i < h.len()
        invariant
            i <= h.len(),
            h@ == hostname@,
            h@.len() > 0,
            utf8_len(h@) <= 253,
            h@[0] != '-' && h@.last() != '-' && h@[0] != '.' && h@.last() != '.',
            h@.contains('.'),
            forall|k: int| 0 <= k < i ==> hostname_char(#[trigger] h@[k]),
        decreases h.len() - i,
    {
        if !is_hostname_char(h[i]) {
            assert(!hostname_char(hostname@[i as int]));
            return Err(
                "Hostname contains invalid characters. Use only a-z, 0-9, hyphens, and dots.",
            );
        }
        i = i + 1;
    }
    Ok(())
}

/// The hostname of a request: the body's `hostname`, trimmed and lowercased;
/// missing or empty: `None` (400 "hostname is required").
pub fn read_hostname(raw: Option<&str>) -> (r: Option<String>)
    ensures
        match raw {
            None => r is None,
            Some(h) => if lowercase_of(trim(h@)).len() == 0 {
                r is None
            } else {
                r matches Some(v) && v@ == lowercase_of(trim(h@))
            },
        },
{
    match raw {
        None => None,
        Some(h) => {
            let c = chars_of(h);
            let t = trim_chars(c.as_slice());
            let l = to_lowercase(string_from_chars(t.as_slice()).as_str());
            if l.as_str().is_empty() {
                None
            } else {
                Some(l)
            }
        },
    }
}

/// The plan limit on custom domains (403 when refused): a maximum of 0 means
/// the plan has none; otherwise the organization's domains that have not
/// failed must stay below the maximum; `None` is no limit.
pub open spec fn domain_limit_refusal(max: Option<i64>, current: i64) -> Option<Seq<char>> {
    match max {
        Some(m) => if m == 0 {
            Some("Custom domains are not available on the Free plan. Upgrade to Pro or Business."@)
        } else if current >= m {
            Some(
                "Custom domain limit reached ("@ + int_decimal(current as int) + "/"@ + int_decimal(
                    m as int,
                ) + "). Upgrade your plan to add more domains."@,
            )
        } else {
            None
        },
        None => None,
    }
}

/// Checks the plan limit on custom domains.
pub fn check_domain_limit(max: Option<i64>, current: i64) -> (r: Result<(), Denial>)
    ensures
        match domain_limit_refusal(max, current) {
            Some(m) => r matches Err(d) && denial(d, 403, m),
            None => r is Ok,
        },
{
    match max {
        None => Ok(()),
        Some(m) => if m == 0 {
            Err(
                Denial {
                    status: 403,
                    message: "Custom domains are not available on the Free plan. Upgrade to Pro or Business.".to_string(),
                },
            )
        } else if current >= m {
            let mut s = "Custom domain limit reached (".to_string();
            s.append(string_from_chars(i64_decimal_chars(current).as_slice()).as_str());
            s.append("/");
            s.append(string_from_chars(i64_decimal_chars(m).as_slice()).as_str());
            s.append("). Upgrade your plan to add more domains.");
            Err(Denial { status: 403, message: s })
        } else {
            Ok(())
        },
    }
}

/// The refusal of a hostname already registered (400).
pub fn already_registered_message(hostname: &str) -> (r: String)
    ensures
        r@ == "'"@ + hostname@ + "' is already registered as a custom domain."@,
{
    let mut s = "'".to_string();
    s.append(hostname);
    s.append("' is already registered as a custom domain.");
    s
}

/// Whether a provider error on registration is tolerated (the domain is then
/// stored without a provider record): quota errors, code 1404.
pub fn registration_error_tolerated(error: &str) -> (r: bool)
    ensures
        r == (contains_seq(error@, "quota"@) || contains_seq(error@, "1404"@)),
{
    let e = chars_of(error);
    contains_chars(e.as_slice(), chars_of("quota").as_slice()) || contains_chars(
        e.as_slice(),
        chars_of("1404").as_slice(),
    )
}

/// The state of a custom domain.
#[derive(Debug, Clone, Copy, PartialEq, Eq, Structural)]
pub enum DomainStatus {
    Pending,
    Active,
    Failed,
}

pub open spec fn domain_status_name(s: DomainStatus) -> Seq<char> {
    match s {
        DomainStatus::Pending => "pending"@,
        DomainStatus::Active => "active"@,
        DomainStatus::Failed => "failed"@,
    }
}

impl DomainStatus {
    /// The stored name.
    pub fn as_str(&self) -> (r: &'static str)
        ensures
            r@ == domain_status_name(*self),
    {
        match self {
            DomainStatus::Pending => "pending",
            DomainStatus::Active => "active",
            DomainStatus::Failed => "failed",
        }
    }
}

/// The domain's state from the provider's hostname status (`None` when the
/// provider has no record): `active`; `pending` or `pending_validation`; any
/// other status is a failure; no record counts as pending.
pub fn status_from_provider(provider_status: Option<&str>) -> (r: DomainStatus)
    ensures
        r == match provider_status {
            None => DomainStatus::Pending,
            Some(s) => if s@ == "active"@ {
                DomainStatus::Active
            } else if s@ == "pending"@ || s@ == "pending_validation"@ {
                DomainStatus::Pending
            } else {
                DomainStatus::Failed
            },
        },
{
    match provider_status {
        None => DomainStatus::Pending,
        Some(s) => if str_is(s, "active") {
            DomainStatus::Active
        } else if str_is(s, "pending") || str_is(s, "pending_validation") {
            DomainStatus::Pending
        } else {
            DomainStatus::Failed
        },
    }
}

/// Why a TXT record is needed.
#[derive(Debug, Clone, Copy, PartialEq, Eq, Structural)]
pub enum TxtPurpose {
    Ownership,
    SslValidation,
}

/// One TXT record to create.
#[derive(Debug, Clone)]
pub struct TxtRecord {
    pub name: String,
    pub value: String,
    pub purpose: TxtPurpose,
}

/// A validation record as the provider reports it.
#[derive(Debug, Clone)]
pub struct ValidationRecord {
    pub txt_name: Option<String>,
    pub txt_value: Option<String>,
}

/// The TXT records a pending domain needs: the ownership record when the
/// provider gives one, then each SSL validation record that has both a name
/// and a value.
pub fn pending_txt_records(
    ownership: Option<(String, String)>,
    validation: &Vec<ValidationRecord>,
) -> (r: Vec<TxtRecord>)
    ensures
        r.len() <= validation.len() + 1,
        match ownership {
            Some((n, v)) => r.len() >= 1 && r@[0].name@ == n@ && r@[0].value@ == v@ && r@[0].purpose
                == TxtPurpose::Ownership,
            None => true,
        },
        forall|k: int|
            (if ownership is Some {
                1int
            } else {
                0int
            }) <= k < r.len() ==> #[trigger] r@[k].purpose == TxtPurpose::SslValidation,
        (ownership is None && forall|j: int|
            0 <= j < validation.len() ==> (#[trigger] validation@[j]).txt_name is None) ==> r.len() == 0,
{
    let mut out: Vec<TxtRecord> = Vec::new();
    let base: usize = match ownership {
        Some((n, v)) => {
            out.push(TxtRecord { name: n, value: v, purpose: TxtPurpose::Ownership });
            1
        },
        None => 0,
    };
    let mut i: usize = 0;
    while i < validation.len()
        invariant
            i <= validation.len(),
            base == (if ownership is Some {
                1int
            } else {
                0int
            }),
            base <= out.len() <= base + i,
            match ownership {
                Some((n, v)) => out@[0].name@ == n@ && out@[0].value@ == v@ && out@[0].purpose
                    == TxtPurpose::Ownership,
                None => true,
            },
            forall|k: int| base <= k < out.len() ==> #[trigger] out@[k].purpose == TxtPurpose::SslValidation,
            (forall|j: int| 0 <= j < i ==> (#[trigger] validation@[j]).txt_name is None) ==> out.len()
                == base,
        decreases validation.len() - i,
    {
        match (&validation[i].txt_name, &validation[i].txt_value) {
            (Some(n), Some(v)) => {
                out.push(
                    TxtRecord { name: n.clone(), value: v.clone(), purpose: TxtPurpose::SslValidation },
                );
            },
            _ => {},
        }
        i = i + 1;
    }
    out
}

/// The redirect store key of a link served on a custom hostname.
pub fn domain_link_key(hostname: &str, short_code: &str) -> (r: String)
    ensures
        r@ == hostname@ + ":"@ + short_code@,
{
    let mut s = hostname.to_string();
    s.append(":");
    s.append(short_code);
    s
}

/// The positions of the links whose redirect entry is written for a newly
/// active custom hostname: the active ones, in order.
pub fn links_to_sync(statuses: &Vec<LinkStatus>) -> (r: Vec<usize>)
    ensures
        forall|k: int| 0 <= k < r.len() ==> r@[k] < statuses.len() && statuses@[r@[k] as int]
            == LinkStatus::Active,
        forall|i: int|
            0 <= i < statuses.len() && statuses@[i] == LinkStatus::Active ==> r@.contains(i as usize),
        forall|a: int, b: int| 0 <= a < b < r.len() ==> r@[a] < r@[b],
{
    let mut out: Vec<usize> = Vec::new();
    let mut i: usize = 0;
    while i < statuses.len()
        invariant
            i <= statuses.len(),
            forall|k: int| 0 <= k < out.len() ==> out@[k] < i && statuses@[out@[k] as int]
                == LinkStatus::Active,
            forall|j: int|
                0 <= j < i && statuses@[j] == LinkStatus::Active ==> out@.contains(j as usize),
            forall|a: int, b: int| 0 <= a < b < out.len() ==> out@[a] < out@[b],
        decreases statuses.len() - i,
    {
        let ghost old_out = out@;
        if statuses[i] == LinkStatus::Active {
            out.push(i);
            assert(out@[out.len() - 1] == i);
        }
        proof {
            assert forall|j: int|
                0 <= j < i + 1 && statuses@[j] == LinkStatus::Active implies out@.contains(
                j as usize,
            ) by {
                if j == i {
                    assert(out@[out.len() - 1] == i);
                } else {
                    assert(old_out.contains(j as usize));
                    let k = choose|k: int| 0 <= k < old_out.len() && old_out[k] == j as usize;
                    assert(out@[k] == j as usize);
                }
            }
        }
        i = i + 1;
    }
    out
}

} // verus!
