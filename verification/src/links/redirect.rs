//! Following a short link: which visitors are sent where, with which status.
use crate::links::status::LinkStatus;
use crate::query::until_char;
use crate::settings::pairs_view;
use crate::text::{chars_of, parse_u16, parse_u16_spec, string_from_chars, trim, trim_chars};
use vstd::prelude::*;

verus! {

broadcast use vstd::string::group_string_axioms;

/// The visitor's address: `CF-Connecting-IP`, else the first entry of
/// `X-Forwarded-For` (trimmed), else `X-Real-IP`, else `unknown`.
pub open spec fn client_ip_of(
    cf_connecting_ip: Option<Seq<char>>,
    forwarded_for: Option<Seq<char>>,
    real_ip: Option<Seq<char>>,
) -> Seq<char> {
    match cf_connecting_ip {
        Some(ip) => ip,
        None => match forwarded_for {
            Some(f) => trim(until_char(f, ',')),
            None => match real_ip {
                Some(ip) => ip,
                None => "unknown"@,
            },
        },
    }
}

pub open spec fn opt_str_view(o: Option<&str>) -> Option<Seq<char>> {
    match o {
        Some(s) => Some(s@),
        None => None,
    }
}

/// The visitor's address from the request headers.
pub fn client_ip(
    cf_connecting_ip: Option<&str>,
    forwarded_for: Option<&str>,
    real_ip: Option<&str>,
) -> (r: String)
    ensures
        r@ == client_ip_of(
            opt_str_view(cf_connecting_ip),
            opt_str_view(forwarded_for),
            opt_str_view(real_ip),
        ),
{
    match cf_connecting_ip {
        Some(ip) => ip.to_string(),
        None => match forwarded_for {
            Some(f) => {
                let chars = chars_of(f);
                let mut head: Vec<char> = Vec::new();
                let mut i: usize = 0;
                assert(f@.subrange(0, 0) + f@.subrange(0, f@.len() as int) =~= f@);
                while i < chars.len()
                    invariant
                        i <= chars.len(),
                        chars@ == f@,
                        head@ == f@.subrange(0, i as int),
                        until_char(f@, ',') == f@.subrange(0, i as int) + until_char(
                            f@.subrange(i as int, f@.len() as int),
                            ',',
                        ),
                    ensures
                        i <= chars.len(),
                        chars@ == f@,
                        head@ == f@.subrange(0, i as int),
                        until_char(f@, ',') == f@.subrange(0, i as int) + until_char(
                            f@.subrange(i as int, f@.len() as int),
                            ',',
                        ),
                        i == chars.len() || chars@[i as int] == ',',
                    decreases chars.len() - i,
                {
                    if chars[i] == ',' {
                        break;
                    }
                    proof {
                        let rest = f@.subrange(i as int, f@.len() as int);
                        assert(rest.drop_first() =~= f@.subrange(i + 1, f@.len() as int));
                        assert(f@.subrange(0, i + 1) =~= f@.subrange(0, i as int).push(
                            chars@[i as int],
                        ));
                        assert(seq![rest[0]] =~= seq![chars@[i as int]]);
                        assert(f@.subrange(0, i as int) + (seq![rest[0]] + until_char(
                            rest.drop_first(),
                            ',',
                        )) =~= f@.subrange(0, i + 1) + until_char(rest.drop_first(), ','));
                    }
                    head.push(chars[i]);
                    i = i + 1;
                }
                proof {
                    let rest = f@.subrange(i as int, f@.len() as int);
                    if i == chars.len() {
                        assert(rest.len() == 0);
                    } else {
                        assert(rest[0] == ',');
                    }
                    assert(f@.subrange(0, i as int) + Seq::<char>::empty() =~= f@.subrange(
                        0,
                        i as int,
                    ));
                }
                let first = trim_chars(head.as_slice());
                string_from_chars(first.as_slice())
            },
            None => match real_ip {
                Some(ip) => ip.to_string(),
                None => "unknown".to_string(),
            },
        },
    }
}

/// A link's UTM parameters.
#[derive(Debug, Clone)]
pub struct UtmParams {
    pub utm_source: Option<String>,
    pub utm_medium: Option<String>,
    pub utm_campaign: Option<String>,
    pub utm_term: Option<String>,
    pub utm_content: Option<String>,
    pub utm_ref: Option<String>,
}

/// `[(name, value)]` when the value is present and non-empty, else nothing.
pub open spec fn utm_pair(name: Seq<char>, value: Option<String>) -> Seq<(Seq<char>, Seq<char>)> {
    match value {
        Some(v) => if v@.len() > 0 {
            seq![(name, v@)]
        } else {
            seq![]
        },
        None => seq![],
    }
}

/// The UTM pairs appended to the destination, in this order: source, medium,
/// campaign, term, content, ref; empty values are left out.
pub open spec fn utm_pairs_of(u: UtmParams) -> Seq<(Seq<char>, Seq<char>)> {
    utm_pair("utm_source"@, u.utm_source) + utm_pair("utm_medium"@, u.utm_medium) + utm_pair(
        "utm_campaign"@,
        u.utm_campaign,
    ) + utm_pair("utm_term"@, u.utm_term) + utm_pair("utm_content"@, u.utm_content) + utm_pair(
        "utm_ref"@,
        u.utm_ref,
    )
}

/// The position of a UTM parameter's name in the order source, medium,
/// campaign, term, content, ref (`-1` for any other name).
pub open spec fn utm_rank(name: Seq<char>) -> int {
    if name == "utm_source"@ {
        0
    } else if name == "utm_medium"@ {
        1
    } else if name == "utm_campaign"@ {
        2
    } else if name == "utm_term"@ {
        3
    } else if name == "utm_content"@ {
        4
    } else if name == "utm_ref"@ {
        5
    } else {
        -1
    }
}

/// The link's value of the UTM parameter with this name.
pub open spec fn utm_value(u: UtmParams, name: Seq<char>) -> Option<String> {
    if name == "utm_source"@ {
        u.utm_source
    } else if name == "utm_medium"@ {
        u.utm_medium
    } else if name == "utm_campaign"@ {
        u.utm_campaign
    } else if name == "utm_term"@ {
        u.utm_term
    } else if name == "utm_content"@ {
        u.utm_content
    } else if name == "utm_ref"@ {
        u.utm_ref
    } else {
        None
    }
}

/// What the pairs appended for a link's UTM parameters are: every one of the
/// six parameters set to a non-empty value appears, under its own name with
/// its own value; nothing else appears; and they come in the order source,
/// medium, campaign, term, content, ref, so each appears once.
pub proof fn lemma_utm_pairs_complete(u: UtmParams)
    ensures
        forall|i: int|
            0 <= i < utm_pairs_of(u).len() ==> {
                let (n, v) = #[trigger] utm_pairs_of(u)[i];
                &&& utm_rank(n) >= 0
                &&& v.len() > 0
                &&& utm_value(u, n) matches Some(x) && x@ == v
            },
        forall|i: int, j: int|
            0 <= i < j < utm_pairs_of(u).len() ==> utm_rank(#[trigger] utm_pairs_of(u)[i].0) < utm_rank(
                #[trigger] utm_pairs_of(u)[j].0,
            ),
        forall|n: Seq<char>|
            utm_rank(n) >= 0 && (#[trigger] utm_value(u, n) matches Some(x) && x@.len() > 0) ==> exists|i: int|
                0 <= i < utm_pairs_of(u).len() && utm_pairs_of(u)[i] == (n, utm_value(u, n)->0@),
{
    reveal_strlit("utm_source");
    reveal_strlit("utm_medium");
    reveal_strlit("utm_campaign");
    reveal_strlit("utm_term");
    reveal_strlit("utm_content");
    reveal_strlit("utm_ref");
    let p0 = utm_pair("utm_source"@, u.utm_source);
    let p1 = utm_pair("utm_medium"@, u.utm_medium);
    let p2 = utm_pair("utm_campaign"@, u.utm_campaign);
    let p3 = utm_pair("utm_term"@, u.utm_term);
    let p4 = utm_pair("utm_content"@, u.utm_content);
    let p5 = utm_pair("utm_ref"@, u.utm_ref);
    let a1 = p0 + p1;
    let a2 = a1 + p2;
    let a3 = a2 + p3;
    let a4 = a3 + p4;
    let all = a4 + p5;
    assert(utm_pairs_of(u) == all);
    lemma_utm_names(u);
    lemma_utm_piece(u, "utm_source"@);
    lemma_utm_piece(u, "utm_medium"@);
    lemma_utm_piece(u, "utm_campaign"@);
    lemma_utm_piece(u, "utm_term"@);
    lemma_utm_piece(u, "utm_content"@);
    lemma_utm_piece(u, "utm_ref"@);
    // The rank of the entry at each position, piece by piece.
    assert forall|i: int| 0 <= i < all.len() implies {
        let (n, v) = #[trigger] all[i];
        &&& utm_rank(n) >= 0
        &&& v.len() > 0
        &&& utm_value(u, n) matches Some(x) && x@ == v
        &&& (i < a1.len() ==> utm_rank(n) <= 1)
        &&& (i < a2.len() ==> utm_rank(n) <= 2)
        &&& (i < a3.len() ==> utm_rank(n) <= 3)
        &&& (i < a4.len() ==> utm_rank(n) <= 4)
        &&& (i >= p0.len() ==> utm_rank(n) >= 1)
        &&& (i >= a1.len() ==> utm_rank(n) >= 2)
        &&& (i >= a2.len() ==> utm_rank(n) >= 3)
        &&& (i >= a3.len() ==> utm_rank(n) >= 4)
        &&& (i >= a4.len() ==> utm_rank(n) >= 5)
    } by {
        if i >= a4.len() {
            assert(all[i] == p5[i - a4.len()]);
        } else {
            assert(all[i] == a4[i]);
            if i >= a3.len() {
                assert(a4[i] == p4[i - a3.len()]);
            } else {
                assert(a4[i] == a3[i]);
                if i >= a2.len() {
                    assert(a3[i] == p3[i - a2.len()]);
                } else {
                    assert(a3[i] == a2[i]);
                    if i >= a1.len() {
                        assert(a2[i] == p2[i - a1.len()]);
                    } else {
                        assert(a2[i] == a1[i]);
                        if i >= p0.len() {
                            assert(a1[i] == p1[i - p0.len()]);
                        } else {
                            assert(a1[i] == p0[i]);
                        }
                    }
                }
            }
        }
    }
    assert forall|i: int, j: int| 0 <= i < j < all.len() implies utm_rank(#[trigger] all[i].0) < utm_rank(
        #[trigger] all[j].0,
    ) by {
        let (ni, vi) = all[i];
        let (nj, vj) = all[j];
    }
    assert forall|n: Seq<char>|
        utm_rank(n) >= 0 && (#[trigger] utm_value(u, n) matches Some(x) && x@.len() > 0) implies exists|i: int|
        0 <= i < all.len() && all[i] == (n, utm_value(u, n)->0@) by {
        if n == "utm_source"@ {
            assert(all[0] == p0[0]);
        } else if n == "utm_medium"@ {
            assert(all[p0.len() as int] == p1[0]);
        } else if n == "utm_campaign"@ {
            assert(all[a1.len() as int] == p2[0]);
        } else if n == "utm_term"@ {
            assert(all[a2.len() as int] == p3[0]);
        } else if n == "utm_content"@ {
            assert(all[a3.len() as int] == p4[0]);
        } else {
            assert(all[a4.len() as int] == p5[0]);
        }
    }
}

/// The six names are told apart by their fifth and sixth characters.
proof fn lemma_utm_names(u: UtmParams)
    ensures
        utm_rank("utm_source"@) == 0 && utm_value(u, "utm_source"@) == u.utm_source,
        utm_rank("utm_medium"@) == 1 && utm_value(u, "utm_medium"@) == u.utm_medium,
        utm_rank("utm_campaign"@) == 2 && utm_value(u, "utm_campaign"@) == u.utm_campaign,
        utm_rank("utm_term"@) == 3 && utm_value(u, "utm_term"@) == u.utm_term,
        utm_rank("utm_content"@) == 4 && utm_value(u, "utm_content"@) == u.utm_content,
        utm_rank("utm_ref"@) == 5 && utm_value(u, "utm_ref"@) == u.utm_ref,
{
    reveal_strlit("utm_source");
    reveal_strlit("utm_medium");
    reveal_strlit("utm_campaign");
    reveal_strlit("utm_term");
    reveal_strlit("utm_content");
    reveal_strlit("utm_ref");
    let s = "utm_source"@;
    let m = "utm_medium"@;
    let c = "utm_campaign"@;
    let t = "utm_term"@;
    let o = "utm_content"@;
    let r = "utm_ref"@;
    assert(s[4] == 's' && m[4] == 'm' && c[4] == 'c' && t[4] == 't' && o[4] == 'c' && r[4] == 'r');
    assert(c[5] == 'a' && o[5] == 'o');
    assert(m != s);
    assert(c != s && c != m);
    assert(t != s && t != m && t != c);
    assert(o != s && o != m && o != c && o != t);
    assert(r != s && r != m && r != c && r != t && r != o);
}

/// One UTM parameter's piece: empty, or its own name with its non-empty value.
proof fn lemma_utm_piece(u: UtmParams, n: Seq<char>)
    requires
        utm_rank(n) >= 0,
    ensures
        utm_pair(n, utm_value(u, n)).len() <= 1,
        utm_pair(n, utm_value(u, n)).len() == 1 <==> (utm_value(u, n) matches Some(x) && x@.len() > 0),
        utm_pair(n, utm_value(u, n)).len() == 1 ==> utm_pair(n, utm_value(u, n))[0] == (n, utm_value(u, n)->0@),
{
}

fn push_utm(out: &mut Vec<(String, String)>, name: &str, value: &Option<String>)
    ensures
        pairs_view(final(out)@) == pairs_view(old(out)@) + utm_pair(name@, *value),
{
    let ghost before = pairs_view(out@);
    match value {
        Some(v) => {
            if !v.as_str().is_empty() {
                out.push((name.to_string(), v.clone()));
                assert(pairs_view(out@) =~= before + utm_pair(name@, *value));
            } else {
                assert(pairs_view(out@) =~= before + utm_pair(name@, *value));
            }
        },
        None => {
            assert(pairs_view(out@) =~= before + utm_pair(name@, *value));
        },
    }
}

/// The UTM pairs appended to the destination.
pub fn utm_pairs(u: &UtmParams) -> (r: Vec<(String, String)>)
    ensures
        pairs_view(r@) == utm_pairs_of(*u),
{
    let mut out: Vec<(String, String)> = Vec::new();
    assert(pairs_view(out@) =~= Seq::<(Seq<char>, Seq<char>)>::empty());
    push_utm(&mut out, "utm_source", &u.utm_source);
    push_utm(&mut out, "utm_medium", &u.utm_medium);
    push_utm(&mut out, "utm_campaign", &u.utm_campaign);
    push_utm(&mut out, "utm_term", &u.utm_term);
    push_utm(&mut out, "utm_content", &u.utm_content);
    push_utm(&mut out, "utm_ref", &u.utm_ref);
    assert(pairs_view(out@) =~= utm_pairs_of(*u));
    out
}

/// The serialization of `url` after appending each group of pairs to its
/// query, one `query_pairs_mut` session per group, as the `url` crate does;
/// `None` when `url` does not parse.
pub uninterp spec fn url_with_query_groups(
    url: Seq<char>,
    groups: Seq<Seq<(Seq<char>, Seq<char>)>>,
) -> Option<Seq<char>>;

pub open spec fn groups_view(g: Seq<Vec<(String, String)>>) -> Seq<Seq<(Seq<char>, Seq<char>)>> {
    g.map_values(|v: Vec<(String, String)>| pairs_view(v@))
}

pub open spec fn opt_string_view(o: Option<String>) -> Option<Seq<char>> {
    match o {
        Some(s) => Some(s@),
        None => None,
    }
}

/// `url::Url::parse`, then for each group one `query_pairs_mut` session that
/// appends its pairs with `append_pair`, then the serialization. The result
/// is named, not described: it is whatever the `url` crate produces for these
/// arguments.
#[verifier::external_body]
fn append_query_groups(url: &str, groups: &Vec<Vec<(String, String)>>) -> (r: Option<String>)
    ensures
        opt_string_view(r) == url_with_query_groups(url@, groups_view(groups@)),
{
    let mut parsed = url::Url::parse(url).ok()?;
    for group in groups {
        let mut q = parsed.query_pairs_mut();
        for (k, v) in group {
            q.append_pair(k, v);
        }
    }
    Some(parsed.to_string())
}

/// The query pairs of a URL, percent- and form-decoded by the `url` crate, or
/// `None` when it does not parse.
pub uninterp spec fn url_query_pairs(url: Seq<char>) -> Option<Seq<(Seq<char>, Seq<char>)>>;

/// `url::Url::parse` followed by `query_pairs`, each pair owned.
#[verifier::external_body]
fn query_pairs_of_url(url: &str) -> (r: Option<Vec<(String, String)>>)
    ensures
        match r {
            Some(v) => url_query_pairs(url@) == Some(pairs_view(v@)),
            None => url_query_pairs(url@) is None,
        },
{
    let parsed = url::Url::parse(url).ok()?;
    Some(parsed.query_pairs().map(|(k, v)| (k.into_owned(), v.into_owned())).collect())
}

/// The visitor's query pairs, read from the request URL.
pub fn visitor_query_pairs(request_url: &str) -> (r: Option<Vec<(String, String)>>)
    ensures
        match r {
            Some(v) => url_query_pairs(request_url@) == Some(pairs_view(v@)),
            None => url_query_pairs(request_url@) is None,
        },
{
    query_pairs_of_url(request_url)
}

/// What the redirect store holds for a short code.
#[derive(Debug, Clone)]
pub struct LinkMapping {
    pub link_id: String,
    pub destination_url: String,
    pub status: LinkStatus,
    pub expires_at: Option<i64>,
    pub utm_params: Option<UtmParams>,
    pub forward_query_params: bool,
    pub redirect_type: String,
}

/// How a visitor is answered.
#[derive(Debug, Clone)]
pub enum RedirectPlan {
    /// Send the visitor to the frontend's 404 page (302).
    NotFound,
    /// The stored destination does not parse; the request fails.
    BadDestination,
    /// Redirect to `location` with `status`.
    Redirect { location: String, status: u16 },
}

pub enum RedirectPlanView {
    NotFound,
    BadDestination,
    Redirect { location: Seq<char>, status: u16 },
}

impl View for RedirectPlan {
    type V = RedirectPlanView;

    open spec fn view(&self) -> RedirectPlanView {
        match self {
            RedirectPlan::NotFound => RedirectPlanView::NotFound,
            RedirectPlan::BadDestination => RedirectPlanView::BadDestination,
            RedirectPlan::Redirect { location, status } => RedirectPlanView::Redirect {
                location: location@,
                status: *status,
            },
        }
    }
}

/// Whether a link is live at `now`: active, and not past its expiry.
pub open spec fn link_live(m: LinkMapping, now: int) -> bool {
    m.status == LinkStatus::Active && match m.expires_at {
        Some(e) => now <= e,
        None => true,
    }
}

/// The link's UTM pairs (none without UTM parameters).
pub open spec fn utm_of(m: LinkMapping) -> Seq<(Seq<char>, Seq<char>)> {
    match m.utm_params {
        Some(u) => utm_pairs_of(u),
        None => seq![],
    }
}

/// The visitor's pairs when the link forwards them.
pub open spec fn forwarded_of(m: LinkMapping, visitor: Option<Seq<(Seq<char>, Seq<char>)>>) -> Seq<
    (Seq<char>, Seq<char>),
> {
    if m.forward_query_params {
        match visitor {
            Some(v) => v,
            None => seq![],
        }
    } else {
        seq![]
    }
}

/// `[g]` when `g` is non-empty, else nothing.
pub open spec fn nonempty_group(g: Seq<(Seq<char>, Seq<char>)>) -> Seq<Seq<(Seq<char>, Seq<char>)>> {
    if g.len() > 0 {
        seq![g]
    } else {
        seq![]
    }
}

/// The query groups appended: the link's UTM pairs, then the visitor's pairs
/// when the link forwards them; empty groups are left out.
pub open spec fn query_groups_of(m: LinkMapping, visitor: Option<Seq<(Seq<char>, Seq<char>)>>) -> Seq<
    Seq<(Seq<char>, Seq<char>)>,
> {
    nonempty_group(utm_of(m)) + nonempty_group(forwarded_of(m, visitor))
}

/// The status of a redirect: the link's redirect type as a number, 301 when it
/// is not one.
pub open spec fn redirect_status_of(redirect_type: Seq<char>) -> u16 {
    match parse_u16_spec(redirect_type) {
        Some(s) => s,
        None => 301,
    }
}

/// How a visitor to a short code is answered at `now`.
pub open spec fn redirect_plan_of(
    mapping: Option<LinkMapping>,
    now: int,
    visitor: Option<Seq<(Seq<char>, Seq<char>)>>,
) -> RedirectPlanView {
    match mapping {
        None => RedirectPlanView::NotFound,
        Some(m) => if !link_live(m, now) {
            RedirectPlanView::NotFound
        } else {
            match url_with_query_groups(m.destination_url@, query_groups_of(m, visitor)) {
                None => RedirectPlanView::BadDestination,
                Some(loc) => RedirectPlanView::Redirect {
                    location: loc,
                    status: redirect_status_of(m.redirect_type@),
                },
            }
        },
    }
}

pub open spec fn opt_pairs_view(o: Option<Vec<(String, String)>>) -> Option<
    Seq<(Seq<char>, Seq<char>)>,
> {
    match o {
        Some(v) => Some(pairs_view(v@)),
        None => None,
    }
}

/// Decides how a visitor to a short code is answered. `visitor` holds the
/// visitor's query pairs (`None` when the request URL could not be read).
pub fn plan_redirect(
    mapping: Option<&LinkMapping>,
    now: i64,
    visitor: Option<Vec<(String, String)>>,
) -> (r: RedirectPlan)
    ensures
        r@ == redirect_plan_of(
            match mapping {
                Some(m) => Some(*m),
                None => None,
            },
            now as int,
            opt_pairs_view(visitor),
        ),
{
    let m = match mapping {
        None => return RedirectPlan::NotFound,
        Some(m) => m,
    };
    if !matches!(m.status, LinkStatus::Active) {
        return RedirectPlan::NotFound;
    }
    if let Some(e) = m.expires_at {
        if now > e {
            return RedirectPlan::NotFound;
        }
    }
    let mut groups: Vec<Vec<(String, String)>> = Vec::new();
    let ghost utm_spec = utm_of(*m);
    let utm = match &m.utm_params {
        Some(u) => utm_pairs(u),
        None => Vec::new(),
    };
    assert(pairs_view(utm@) =~= utm_spec);
    if utm.len() > 0 {
        groups.push(utm);
    }
    let ghost after_utm = groups_view(groups@);
    assert(after_utm =~= nonempty_group(utm_spec));
    let ghost vis_spec = forwarded_of(*m, opt_pairs_view(visitor));
    if m.forward_query_params {
        if let Some(v) = visitor {
            if v.len() > 0 {
                groups.push(v);
            }
        }
    }
    assert(groups_view(groups@) =~= after_utm + nonempty_group(vis_spec));
    let status = {
        let chars = chars_of(m.redirect_type.as_str());
        match parse_u16(chars.as_slice()) {
            Some(s) => s,
            None => 301,
        }
    };
    match append_query_groups(m.destination_url.as_str(), &groups) {
        None => RedirectPlan::BadDestination,
        Some(location) => RedirectPlan::Redirect { location, status },
    }
}

/// Whatever the store or the clock say, an inactive link and an expired link
/// never redirect anywhere but the 404 page.
pub proof fn lemma_dead_links_not_followed(
    m: LinkMapping,
    now: int,
    visitor: Option<Seq<(Seq<char>, Seq<char>)>>,
)
    ensures
        m.status != LinkStatus::Active ==> redirect_plan_of(Some(m), now, visitor)
            == RedirectPlanView::NotFound,
        (m.expires_at matches Some(e) && now > e) ==> redirect_plan_of(Some(m), now, visitor)
            == RedirectPlanView::NotFound,
{
}

/// Whether a visit is counted: only a redirect made is followed by the
/// deferred analytics work, and that work logs the click only when the link
/// is still found in the database (`stored_status`) and is active there.
pub open spec fn click_logged_of(plan: RedirectPlanView, stored_status: Option<LinkStatus>) -> bool {
    plan is Redirect && stored_status == Some(LinkStatus::Active)
}

/// Whether this visit's click is logged, given the plan the visitor was
/// answered with and the link's status as the database gives it (`None` when
/// the link is not found there or the lookup failed).
pub fn click_logged(plan: &RedirectPlan, stored_status: Option<LinkStatus>) -> (r: bool)
    ensures
        r == click_logged_of(plan@, stored_status),
{
    match plan {
        RedirectPlan::Redirect { .. } => match stored_status {
            Some(LinkStatus::Active) => true,
            _ => false,
        },
        _ => false,
    }
}

/// Clicks are logged only for existing, live, active links: a logged click
/// means the short code was found, its link was active and unexpired when
/// visited, and the database still holds it as active.
pub proof fn lemma_clicks_only_for_live_links(
    mapping: Option<LinkMapping>,
    now: int,
    visitor: Option<Seq<(Seq<char>, Seq<char>)>>,
    stored_status: Option<LinkStatus>,
)
    ensures
        click_logged_of(redirect_plan_of(mapping, now, visitor), stored_status) ==> (mapping matches Some(
            m,
        ) && link_live(m, now) && stored_status == Some(LinkStatus::Active)),
{
}

/// The frontend page a dead or unknown short code leads to.
pub fn not_found_url(frontend: &str) -> (r: String)
    ensures
        r@ == frontend@ + "/404"@,
{
    let mut s = frontend.to_string();
    s.append("/404");
    s
}

} // verus!
