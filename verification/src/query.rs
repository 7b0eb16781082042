//! Query-string parameter lookup as the handlers do it: the query is split on
//! `&`, the first segment that starts with `name=` is taken, and its value is
//! the text after that `=` up to the next `=` (`split('=').nth(1)`).
use crate::text::{chars_of, parse_i64, parse_i64_spec, seq_starts_with, starts_with_at, string_from_chars, str_is};
use vstd::prelude::*;

verus! {

/// Index of the first `&` at or after `i`, or the length of `s` if there is none.
pub open spec fn segment_end(s: Seq<char>, i: int) -> int
    decreases s.len() - i,
{
    if i >= s.len() {
        s.len() as int
    } else if s[i] == '&' {
        i
    } else {
        segment_end(s, i + 1)
    }
}

pub proof fn lemma_segment_end(s: Seq<char>, i: int)
    requires
        0 <= i <= s.len(),
    ensures
        i <= segment_end(s, i) <= s.len(),
        segment_end(s, i) < s.len() ==> s[segment_end(s, i)] == '&',
        forall|k: int| i <= k < segment_end(s, i) ==> s[k] != '&',
    decreases s.len() - i,
{
    if i < s.len() && s[i] != '&' {
        lemma_segment_end(s, i + 1);
    }
}

/// The first `&`-separated segment of `s`, starting at or after index `i` (a
/// segment boundary), that begins with `prefix`: its start and end indices.
pub open spec fn find_segment_from(s: Seq<char>, prefix: Seq<char>, i: int) -> Option<(int, int)>
    decreases s.len() - i,
    when 0 <= i <= s.len()
{
    let e = segment_end(s, i);
    if seq_starts_with(s.subrange(i, e), prefix) {
        Some((i, e))
    } else if e >= s.len() {
        None
    } else {
        proof {
            lemma_segment_end(s, i);
        }
        find_segment_from(s, prefix, e + 1)
    }
}

pub proof fn lemma_find_segment(s: Seq<char>, prefix: Seq<char>, i: int)
    requires
        0 <= i <= s.len(),
        i == 0 || s[i - 1] == '&',
    ensures
        find_segment_from(s, prefix, i) matches Some((a, e)) ==> {
            &&& i <= a <= e <= s.len()
            &&& e == segment_end(s, a)
            &&& seq_starts_with(s.subrange(a, e), prefix)
            &&& (a == 0 || s[a - 1] == '&')
        },
    decreases s.len() - i,
{
    lemma_segment_end(s, i);
    let e = segment_end(s, i);
    if !seq_starts_with(s.subrange(i, e), prefix) && e < s.len() {
        lemma_find_segment(s, prefix, e + 1);
    }
}

/// `s` up to (not including) the first occurrence of `c`.
pub open spec fn until_char(s: Seq<char>, c: char) -> Seq<char>
    decreases s.len(),
{
    if s.len() == 0 {
        s
    } else if s[0] == c {
        Seq::empty()
    } else {
        seq![s[0]] + until_char(s.drop_first(), c)
    }
}

/// The raw value of the first segment that starts with `prefix`:
/// `query.split('&').find(|s| s.starts_with(prefix)).and_then(|s| s.split('=').nth(1))`.
pub open spec fn raw_param(query: Seq<char>, prefix: Seq<char>) -> Option<Seq<char>> {
    match find_segment_from(query, prefix, 0) {
        Some((a, e)) => Some(until_char(query.subrange(a + prefix.len(), e), '=')),
        None => None,
    }
}

/// The end of the segment that starts at `i`.
fn find_segment_end(s: &[char], i: usize) -> (e: usize)
    requires
        i <= s@.len(),
    ensures
        e == segment_end(s@, i as int),
{
    proof {
        lemma_segment_end(s@, i as int);
    }
    let mut e = i;
    while e < s.len() && s[e] != '&'
        invariant
            i <= e <= s@.len(),
            segment_end(s@, i as int) == segment_end(s@, e as int),
        decreases s@.len() - e,
    {
        e = e + 1;
    }
    e
}

/// Characters of `s[a..e]` up to the first `=`.
fn until_eq(s: &[char], a: usize, e: usize) -> (r: Vec<char>)
    requires
        a <= e <= s@.len(),
    ensures
        r@ == until_char(s@.subrange(a as int, e as int), '='),
{
    let mut r: Vec<char> = Vec::new();
    let mut i = a;
    while i < e && s[i] != '='
        invariant
            a <= i <= e <= s@.len(),
            until_char(s@.subrange(a as int, e as int), '=') == r@ + until_char(
                s@.subrange(i as int, e as int),
                '=',
            ),
        decreases e - i,
    {
        assert(s@.subrange(i as int, e as int).drop_first() =~= s@.subrange(i + 1, e as int));
        assert(r@.push(s@[i as int]) =~= r@ + seq![s@[i as int]]);
        r.push(s[i]);
        i = i + 1;
    }
    assert(until_char(s@.subrange(i as int, e as int), '=') =~= Seq::<char>::empty());
    assert(r@ + Seq::<char>::empty() =~= r@);
    r
}

/// The first segment of `s` that begins with `prefix`.
pub fn find_segment(s: &[char], prefix: &[char]) -> (r: Option<(usize, usize)>)
    ensures
        match r {
            Some((a, e)) => find_segment_from(s@, prefix@, 0) == Some((a as int, e as int)),
            None => find_segment_from(s@, prefix@, 0) is None,
        },
{
    let mut i: usize = 0;
    loop
        invariant
            i <= s@.len(),
            find_segment_from(s@, prefix@, 0) == find_segment_from(s@, prefix@, i as int),
        decreases s@.len() - i,
    {
        let e = find_segment_end(s, i);
        proof {
            lemma_segment_end(s@, i as int);
        }
        let hit = starts_with_at(s, i, prefix) && prefix.len() <= e - i;
        assert(hit == seq_starts_with(s@.subrange(i as int, e as int), prefix@)) by {
            if prefix@.len() <= e - i {
                assert(s@.skip(i as int).take(prefix@.len() as int) =~= s@.subrange(
                    i as int,
                    e as int,
                ).take(prefix@.len() as int));
            }
        }
        if hit {
            return Some((i, e));
        }
        if e >= s.len() {
            return None;
        }
        i = e + 1;
    }
}

/// The raw value of the first segment that starts with `prefix` (see [`raw_param`]).
pub fn query_param_raw(query: &[char], prefix: &[char]) -> (r: Option<Vec<char>>)
    ensures
        match r {
            Some(v) => raw_param(query@, prefix@) == Some(v@),
            None => raw_param(query@, prefix@) is None,
        },
{
    match find_segment(query, prefix) {
        Some((a, e)) => {
            proof {
                lemma_find_segment(query@, prefix@, 0);
            }
            Some(until_eq(query, a + prefix.len(), e))
        },
        None => None,
    }
}


/// What `urlencoding::decode` gives for `s`: the percent-decoded text, or
/// `None` when the decoded bytes are not UTF-8.
pub uninterp spec fn percent_decode(s: Seq<char>) -> Option<Seq<char>>;

pub open spec fn opt_string_view(o: Option<String>) -> Option<Seq<char>> {
    match o {
        Some(s) => Some(s@),
        None => None,
    }
}

/// `urlencoding::decode`, owned; an invalid UTF-8 result becomes `None`. Its
/// source hands the input back unchanged when it holds no `%` (a `+` stays a
/// `+`); the rest of the decoding is named, not described.
#[verifier::external_body]
pub(crate) fn url_decode(s: &str) -> (r: Option<String>)
    ensures
        opt_string_view(r) == percent_decode(s@),
        !s@.contains('%') ==> opt_string_view(r) == Some(s@),
{
    urlencoding::decode(s).ok().map(|c| c.into_owned())
}

/// The value of the first `name=value` segment, from the segment starting at
/// `i` on, whose value decodes: each segment is split at its first `=`, a
/// segment whose name matches but whose value does not decode is passed over.
pub open spec fn named_param_from(s: Seq<char>, name: Seq<char>, i: int) -> Option<Seq<char>>
    decreases s.len() - i,
    when 0 <= i <= s.len()
{
    let e = segment_end(s, i);
    let seg = s.subrange(i, e);
    let key = until_char(seg, '=');
    let found = if key.len() < seg.len() && key == name {
        percent_decode(seg.subrange(key.len() + 1int, seg.len() as int))
    } else {
        None
    };
    if found is Some {
        found
    } else if e >= s.len() {
        None
    } else {
        proof {
            lemma_segment_end(s, i);
        }
        named_param_from(s, name, e + 1)
    }
}

pub proof fn lemma_until_char_len(s: Seq<char>, c: char)
    ensures
        until_char(s, c).len() <= s.len(),
        until_char(s, c) == s.take(until_char(s, c).len() as int),
        until_char(s, c).len() < s.len() ==> s[until_char(s, c).len() as int] == c,
        !until_char(s, c).contains(c),
    decreases s.len(),
{
    if s.len() > 0 && s[0] != c {
        lemma_until_char_len(s.drop_first(), c);
        let t = until_char(s.drop_first(), c);
        assert(until_char(s, c) =~= seq![s[0]] + t);
        assert(s.take(t.len() + 1int) =~= seq![s[0]] + s.drop_first().take(t.len() as int));
        if until_char(s, c).contains(c) {
            let j = choose|j: int| 0 <= j < until_char(s, c).len() && until_char(s, c)[j] == c;
            if j > 0 {
                assert(t[j - 1] == c);
            }
        }
    } else if s.len() > 0 {
        assert(until_char(s, c) =~= Seq::<char>::empty());
        assert(s.take(0) =~= Seq::<char>::empty());
    } else {
        assert(s.take(0) =~= s);
    }
}

fn subrange_string(s: &[char], a: usize, e: usize) -> (r: String)
    requires
        a <= e <= s@.len(),
    ensures
        r@ == s@.subrange(a as int, e as int),
{
    let mut v: Vec<char> = Vec::new();
    let mut i = a;
    while i < e
        invariant
            a <= i <= e <= s@.len(),
            v@ == s@.subrange(a as int, i as int),
        decreases e - i,
    {
        v.push(s[i]);
        assert(v@ =~= s@.subrange(a as int, i + 1));
        i = i + 1;
    }
    string_from_chars(v.as_slice())
}

/// The decoded value of the first `name=value` segment of `query` whose value
/// decodes, or the 400 message `Missing <name> parameter`.
pub fn extract_query_param(query: &str, name: &str) -> (r: Result<String, String>)
    ensures
        match r {
            Ok(v) => named_param_from(query@, name@, 0) == Some(v@),
            Err(m) => named_param_from(query@, name@, 0) is None && m@ == "Missing "@ + name@
                + " parameter"@,
        },
{
    let s = chars_of(query);
    let mut i: usize = 0;
    loop
        invariant
            i <= s@.len(),
            s@ == query@,
            named_param_from(query@, name@, 0) == named_param_from(query@, name@, i as int),
        decreases s@.len() - i,
    {
        let e = find_segment_end(s.as_slice(), i);
        proof {
            lemma_segment_end(s@, i as int);
        }
        let key = until_eq(s.as_slice(), i, e);
        let ghost seg = s@.subrange(i as int, e as int);
        proof {
            lemma_until_char_len(seg, '=');
        }
        let key_str = string_from_chars(key.as_slice());
        if key.len() < e - i && str_is(key_str.as_str(), name) {
            let value = subrange_string(s.as_slice(), i + key.len() + 1, e);
            assert(value@ =~= seg.subrange(key@.len() + 1int, seg.len() as int));
            match url_decode(value.as_str()) {
                Some(d) => return Ok(d),
                None => {},
            }
        }
        if e >= s.len() {
            let mut m = "Missing ".to_string();
            m.append(name);
            m.append(" parameter");
            return Err(m);
        }
        i = e + 1;
    }
}

/// The first `prefix` parameter, parsed as an `i64`.
pub open spec fn param_i64(query: Seq<char>, prefix: Seq<char>) -> Option<i64> {
    match raw_param(query, prefix) {
        Some(v) => parse_i64_spec(v),
        None => None,
    }
}

/// The first `prefix` parameter, parsed as an `i64`.
pub fn param_i64_exec(query: &[char], prefix: &str) -> (r: Option<i64>)
    ensures
        r == param_i64(query@, prefix@),
{
    let p = chars_of(prefix);
    match query_param_raw(query, p.as_slice()) {
        Some(v) => parse_i64(v.as_slice()),
        None => None,
    }
}

} // verus!
