//! The link list's query string: paging, search, filters and sort order.
use crate::query::{
    lemma_until_char_len, opt_string_view, param_i64, param_i64_exec, percent_decode, query_param_raw,
    raw_param, until_char, url_decode,
};
use crate::text::{chars_of, str_is, string_from_chars, trim, trim_chars, utf8_len, utf8_len_exceeds};
use vstd::prelude::*;

verus! {

broadcast use vstd::string::group_string_axioms;

/// Page number: `page=`, at least 1, 1 by default.
pub open spec fn list_page_of(query: Seq<char>) -> i64 {
    let p = match param_i64(query, "page="@) {
        Some(p) => p,
        None => 1,
    };
    if p < 1 {
        1
    } else {
        p
    }
}

/// Page size: `limit=`, at most 100, 50 by default.
pub open spec fn list_limit_of(query: Seq<char>) -> i64 {
    let l = match param_i64(query, "limit="@) {
        Some(l) => l,
        None => 50,
    };
    if l > 100 {
        100
    } else {
        l
    }
}

/// Search text: `search=` decoded (an undecodable value reads as empty), kept
/// when it is not blank and at most 100 bytes long.
pub open spec fn list_search_of(query: Seq<char>) -> Option<Seq<char>> {
    match raw_param(query, "search="@) {
        Some(raw) => {
            let d = match percent_decode(raw) {
                Some(d) => d,
                None => ""@,
            };
            if trim(d).len() > 0 && utf8_len(d) <= 100 {
                Some(d)
            } else {
                None
            }
        },
        None => None,
    }
}

/// Status filter: `status=active` or `status=disabled`; anything else is no
/// filter.
pub open spec fn list_status_of(query: Seq<char>) -> Option<Seq<char>> {
    match raw_param(query, "status="@) {
        Some(s) => if s == "active"@ || s == "disabled"@ {
            Some(s)
        } else {
            None
        },
        None => None,
    }
}

/// Sort order: `clicks`, `updated`, `title` or `code`; `created` otherwise.
pub open spec fn list_sort_of(query: Seq<char>) -> Seq<char> {
    match raw_param(query, "sort="@) {
        Some(s) => if s == "clicks"@ || s == "updated"@ || s == "title"@ || s == "code"@ {
            s
        } else {
            "created"@
        },
        None => "created"@,
    }
}

/// The sort orders a link list can be asked for besides the default.
pub open spec fn is_sort_word(w: Seq<char>) -> bool {
    w =~= "clicks"@ || w =~= "updated"@ || w =~= "title"@ || w =~= "code"@
}

/// The sort order is what `sort=` asks for when it names one of `clicks`,
/// `updated`, `title` and `code`, and `created` for any other value or none.
pub proof fn lemma_sort_order(query: Seq<char>)
    ensures
        raw_param(query, "sort="@) == Some("clicks"@) ==> list_sort_of(query) == "clicks"@,
        raw_param(query, "sort="@) == Some("updated"@) ==> list_sort_of(query) == "updated"@,
        raw_param(query, "sort="@) == Some("title"@) ==> list_sort_of(query) == "title"@,
        raw_param(query, "sort="@) == Some("code"@) ==> list_sort_of(query) == "code"@,
        (raw_param(query, "sort="@) matches Some(w) && !is_sort_word(w)) ==> list_sort_of(query)
            == "created"@,
        raw_param(query, "sort="@) is None ==> list_sort_of(query) == "created"@,
{
}

/// `s` with every `+` read as a space.
pub open spec fn plus_to_space(s: Seq<char>) -> Seq<char> {
    s.map_values(|c: char| if c == '+' { ' ' } else { c })
}

/// The comma-separated entries of `s`, trimmed, without the empty ones.
pub open spec fn comma_tags(s: Seq<char>) -> Seq<Seq<char>>
    decreases s.len(),
{
    let head = until_char(s, ',');
    let t = trim(head);
    let first = if t.len() > 0 {
        seq![t]
    } else {
        seq![]
    };
    if head.len() < s.len() {
        proof {
            lemma_until_char_len(s, ',');
        }
        first + comma_tags(s.subrange(head.len() + 1int, s.len() as int))
    } else {
        first
    }
}

/// Tag filter: `tags=` with `+` as space, decoded (an undecodable value reads
/// as empty), split on commas.
pub open spec fn list_tags_of(query: Seq<char>) -> Seq<Seq<char>> {
    match raw_param(query, "tags="@) {
        Some(raw) => comma_tags(
            match percent_decode(plus_to_space(raw)) {
                Some(d) => d,
                None => ""@,
            },
        ),
        None => seq![],
    }
}

/// The list request read from the query string.
#[derive(Debug, Clone)]
pub struct LinkListQuery {
    pub page: i64,
    pub limit: i64,
    pub search: Option<String>,
    pub status: Option<&'static str>,
    pub sort: &'static str,
    pub tags: Vec<String>,
}

pub open spec fn strings_view(v: Seq<String>) -> Seq<Seq<char>> {
    v.map_values(|s: String| s@)
}

fn plus_as_space(s: &[char]) -> (r: String)
    ensures
        r@ == plus_to_space(s@),
{
    let mut v: Vec<char> = Vec::new();
    let mut i: usize = 0;
    while i < s.len()
        invariant
            i <= s.len(),
            v@ == plus_to_space(s@.subrange(0, i as int)),
        decreases s.len() - i,
    {
        let c = if s[i] == '+' {
            ' '
        } else {
            s[i]
        };
        v.push(c);
        assert(v@ =~= plus_to_space(s@.subrange(0, i + 1)));
        i = i + 1;
    }
    assert(s@.subrange(0, i as int) =~= s@);
    string_from_chars(v.as_slice())
}

/// Splits on commas, trims, drops empty entries.
pub fn split_tags(s: &[char]) -> (r: Vec<String>)
    ensures
        strings_view(r@) == comma_tags(s@),
{
    let mut out: Vec<String> = Vec::new();
    let mut start: usize = 0;
    assert(s@.subrange(0, s@.len() as int) =~= s@);
    loop
        invariant
            start <= s.len(),
            comma_tags(s@) == strings_view(out@) + comma_tags(
                s@.subrange(start as int, s@.len() as int),
            ),
        decreases s.len() - start,
    {
        let ghost rest = s@.subrange(start as int, s@.len() as int);
        let mut e = start;
        while e < s.len() && s[e] != ','
            invariant
                start <= e <= s.len(),
                rest == s@.subrange(start as int, s@.len() as int),
                forall|k: int| start <= k < e ==> s@[k] != ',',
            decreases s.len() - e,
        {
            e = e + 1;
        }
        let mut head: Vec<char> = Vec::new();
        let mut k = start;
        while k < e
            invariant
                start <= k <= e <= s.len(),
                head@ == s@.subrange(start as int, k as int),
            decreases e - k,
        {
            head.push(s[k]);
            assert(head@ =~= s@.subrange(start as int, k + 1));
            k = k + 1;
        }
        proof {
            lemma_until_char_len(rest, ',');
            let u = until_char(rest, ',');
            let hlen = (e - start) as int;
            if hlen < u.len() {
                assert(rest[hlen] == ',');
                assert(u[hlen] == ',');
                assert(u.contains(','));
            }
            if u.len() < hlen {
                assert(rest[u.len() as int] == s@[start + u.len()]);
            }
            assert(u.len() == hlen);
            assert(u =~= head@);
        }
        let t = trim_chars(head.as_slice());
        let ghost before = strings_view(out@);
        if t.len() > 0 {
            out.push(string_from_chars(t.as_slice()));
            assert(strings_view(out@) =~= before + seq![trim(head@)]);
        } else {
            assert(strings_view(out@) =~= before);
        }
        if e >= s.len() {
            proof {
                assert(strings_view(out@) =~= before + (if trim(head@).len() > 0 {
                    seq![trim(head@)]
                } else {
                    Seq::<Seq<char>>::empty()
                }));
            }
            return out;
        }
        proof {
            let u = until_char(rest, ',');
            assert(rest.subrange(u.len() + 1int, rest.len() as int) =~= s@.subrange(
                e + 1,
                s@.len() as int,
            ));
            assert(strings_view(out@) + comma_tags(s@.subrange(e + 1, s@.len() as int))
                =~= before + comma_tags(rest));
        }
        start = e + 1;
    }
}

fn decoded_or_empty(raw: &str) -> (r: String)
    ensures
        r@ == match percent_decode(raw@) {
            Some(d) => d,
            None => ""@,
        },
{
    match url_decode(raw) {
        Some(d) => d,
        None => "".to_string(),
    }
}

/// Reads the list request from the query string.
pub fn parse_link_list_query(query: &str) -> (r: LinkListQuery)
    ensures
        r.page == list_page_of(query@),
        r.limit == list_limit_of(query@),
        opt_string_view(r.search) == list_search_of(query@),
        match r.status {
            Some(s) => list_status_of(query@) == Some(s@),
            None => list_status_of(query@) is None,
        },
        r.sort@ == list_sort_of(query@),
        strings_view(r.tags@) == list_tags_of(query@),
{
    let q = chars_of(query);
    let page = match param_i64_exec(q.as_slice(), "page=") {
        Some(p) => p,
        None => 1,
    };
    let page = if page < 1 {
        1
    } else {
        page
    };
    let limit = match param_i64_exec(q.as_slice(), "limit=") {
        Some(l) => l,
        None => 50,
    };
    let limit = if limit > 100 {
        100
    } else {
        limit
    };
    let search = match query_param_raw(q.as_slice(), chars_of("search=").as_slice()) {
        Some(raw) => {
            let d = decoded_or_empty(string_from_chars(raw.as_slice()).as_str());
            let dc = chars_of(d.as_str());
            let t = trim_chars(dc.as_slice());
            if t.len() > 0 && !utf8_len_exceeds(dc.as_slice(), 100) {
                Some(d)
            } else {
                None
            }
        },
        None => None,
    };
    let status: Option<&'static str> = match query_param_raw(
        q.as_slice(),
        chars_of("status=").as_slice(),
    ) {
        Some(raw) => {
            let s = string_from_chars(raw.as_slice());
            if str_is(s.as_str(), "active") {
                Some("active")
            } else if str_is(s.as_str(), "disabled") {
                Some("disabled")
            } else {
                None
            }
        },
        None => None,
    };
    let sort: &'static str = match query_param_raw(q.as_slice(), chars_of("sort=").as_slice()) {
        Some(raw) => {
            let s = string_from_chars(raw.as_slice());
            if str_is(s.as_str(), "clicks") {
                "clicks"
            } else if str_is(s.as_str(), "updated") {
                "updated"
            } else if str_is(s.as_str(), "title") {
                "title"
            } else if str_is(s.as_str(), "code") {
                "code"
            } else {
                "created"
            }
        },
        None => "created",
    };
    let tags = match query_param_raw(q.as_slice(), chars_of("tags=").as_slice()) {
        Some(raw) => {
            let spaced = plus_as_space(raw.as_slice());
            let d = decoded_or_empty(spaced.as_str());
            let dc = chars_of(d.as_str());
            split_tags(dc.as_slice())
        },
        None => {
            let v: Vec<String> = Vec::new();
            assert(strings_view(v@) =~= Seq::<Seq<char>>::empty());
            v
        },
    };
    LinkListQuery { page, limit, search, status, sort, tags }
}

/// The rows skipped before the page: `(page - 1) * limit`.
pub fn list_offset(page: i64, limit: i64) -> (r: i64)
    requires
        page >= 1,
        i64::MIN <= (page - 1) * limit <= i64::MAX,
    ensures
        r == (page - 1) * limit,
{
    (page - 1) * limit
}

} // verus!
