//! Blocking destinations: what is stored for a block, and how links are matched.
use crate::query::until_char;
use crate::text::{chars_of, seq_starts_with, starts_with_at, str_is, string_from_chars};
use vstd::prelude::*;

verus! {

broadcast use vstd::string::group_string_axioms;

/// How a blocked destination matches links.
#[derive(Debug, Clone, Copy, PartialEq, Eq, Structural)]
pub enum MatchType {
    /// The normalized URL.
    Exact,
    /// Every URL on the host.
    Domain,
}

pub open spec fn match_type_name(m: MatchType) -> Seq<char> {
    match m {
        MatchType::Exact => "exact"@,
        MatchType::Domain => "domain"@,
    }
}

impl MatchType {
    /// The stored name.
    pub fn as_str(&self) -> (r: &'static str)
        ensures
            r@ == match_type_name(*self),
    {
        match self {
            MatchType::Exact => "exact",
            MatchType::Domain => "domain",
        }
    }
}

/// Reads `match_type`: absent means `exact`; anything but `exact` or
/// `domain` is refused (400).
pub fn parse_match_type(field: Option<&str>) -> (r: Result<MatchType, &'static str>)
    ensures
        match field {
            None => r == Ok::<MatchType, &'static str>(MatchType::Exact),
            Some(m) => if m@ == "exact"@ {
                r == Ok::<MatchType, &'static str>(MatchType::Exact)
            } else if m@ == "domain"@ {
                r == Ok::<MatchType, &'static str>(MatchType::Domain)
            } else {
                r == Err::<MatchType, &'static str>("Invalid match_type. Must be 'exact' or 'domain'")
            },
        },
{
    match field {
        None => Ok(MatchType::Exact),
        Some(m) => if str_is(m, "exact") {
            Ok(MatchType::Exact)
        } else if str_is(m, "domain") {
            Ok(MatchType::Domain)
        } else {
            Err("Invalid match_type. Must be 'exact' or 'domain'")
        },
    }
}

/// What `url::Url::parse(s)` gives: `None` when it fails, else its
/// `host_str()` (itself `None` for URLs without a host).
pub uninterp spec fn url_host(s: Seq<char>) -> Option<Option<Seq<char>>>;

/// `url::Url::parse(s)` and, when it parses, `host_str()` owned. The result
/// is named, not described.
#[verifier::external_body]
fn parse_host(s: &str) -> (r: Option<Option<String>>)
    ensures
        match r {
            None => url_host(s@) is None,
            Some(None) => url_host(s@) == Some(None::<Seq<char>>),
            Some(Some(h)) => url_host(s@) == Some(Some(h@)),
        },
{
    match url::Url::parse(s) {
        Ok(u) => Some(u.host_str().map(|h| h.to_string())),
        Err(_) => None,
    }
}

/// `str::trim_start_matches(p)`: every leading repetition of `p` removed.
pub open spec fn strip_all_prefix(s: Seq<char>, p: Seq<char>) -> Seq<char>
    decreases s.len(),
{
    if p.len() > 0 && seq_starts_with(s, p) {
        strip_all_prefix(s.skip(p.len() as int), p)
    } else {
        s
    }
}

/// The host of a destination that does not parse as a URL: leading
/// `http://` then `https://` removed, up to the first `/`.
pub open spec fn fallback_host(d: Seq<char>) -> Seq<char> {
    until_char(strip_all_prefix(strip_all_prefix(d, "http://"@), "https://"@), '/')
}

/// The stored key of a domain block: the URL's host; the destination itself
/// when it parses but has no host; [`fallback_host`] when it does not parse.
pub open spec fn domain_key_of(d: Seq<char>) -> Seq<char> {
    match url_host(d) {
        Some(Some(h)) => h,
        Some(None) => d,
        None => fallback_host(d),
    }
}

fn strip_prefixes(s: Vec<char>, p: &str) -> (r: Vec<char>)
    ensures
        r@ == strip_all_prefix(s@, p@),
    decreases s@.len(),
{
    let pc = chars_of(p);
    if pc.len() > 0 && pc.len() <= s.len() && starts_with_at(s.as_slice(), 0, pc.as_slice()) {
        proof {
            assert(s@.skip(0) =~= s@);
        }
        let mut rest: Vec<char> = Vec::new();
        let mut i = pc.len();
        while i < s.len()
            invariant
                pc.len() <= i <= s.len(),
                rest@ == s@.subrange(pc@.len() as int, i as int),
            decreases s.len() - i,
        {
            rest.push(s[i]);
            assert(rest@ =~= s@.subrange(pc@.len() as int, i + 1));
            i = i + 1;
        }
        assert(rest@ =~= s@.skip(pc@.len() as int));
        strip_prefixes(rest, p)
    } else {
        proof {
            if pc@.len() > 0 && seq_starts_with(s@, p@) {
                assert(s@.skip(0) =~= s@);
            }
        }
        s
    }
}

fn until_slash(s: &[char]) -> (r: Vec<char>)
    ensures
        r@ == until_char(s@, '/'),
{
    let mut r: Vec<char> = Vec::new();
    let mut i: usize = 0;
    assert(s@.subrange(0, s@.len() as int) =~= s@);
    while i < s.len() && s[i] != '/'
        invariant
            i <= s.len(),
            until_char(s@, '/') == r@ + until_char(s@.subrange(i as int, s@.len() as int), '/'),
        decreases s.len() - i,
    {
        assert(s@.subrange(i as int, s@.len() as int).drop_first() =~= s@.subrange(
            i + 1,
            s@.len() as int,
        ));
        assert(r@.push(s[i as int]) =~= r@ + seq![s@[i as int]]);
        r.push(s[i]);
        i = i + 1;
    }
    assert(until_char(s@.subrange(i as int, s@.len() as int), '/') =~= Seq::<char>::empty());
    assert(r@ + Seq::<char>::empty() =~= r@);
    r
}

/// The stored key of a domain block.
pub fn domain_block_key(destination: &str) -> (r: String)
    ensures
        r@ == domain_key_of(destination@),
{
    match parse_host(destination) {
        Some(Some(h)) => h,
        Some(None) => destination.to_string(),
        None => {
            let s = strip_prefixes(chars_of(destination), "http://");
            let s = strip_prefixes(s, "https://");
            let host = until_slash(s.as_slice());
            string_from_chars(host.as_slice())
        },
    }
}

/// The stored key of a block: for `exact`, the normalized URL (`normalized`,
/// `None` when normalizing failed, in which case the destination as given);
/// for `domain`, [`domain_key_of`].
pub fn block_key(match_type: MatchType, destination: &str, normalized: Option<&str>) -> (r: String)
    ensures
        r@ == match match_type {
            MatchType::Exact => match normalized {
                Some(n) => n@,
                None => destination@,
            },
            MatchType::Domain => domain_key_of(destination@),
        },
{
    match match_type {
        MatchType::Exact => match normalized {
            Some(n) => n.to_string(),
            None => destination.to_string(),
        },
        MatchType::Domain => domain_block_key(destination),
    }
}

/// The resolution note written on the reports of links a block catches.
pub fn block_resolution_note(match_type: MatchType, destination: &str) -> (r: String)
    ensures
        r@ == "Action taken: Blocked "@ + match_type_name(match_type) + " ("@ + destination@ + ")"@,
{
    let mut s = "Action taken: Blocked ".to_string();
    s.append(match_type.as_str());
    s.append(" (");
    s.append(destination);
    s.append(")");
    s
}

} // verus!
