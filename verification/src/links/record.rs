//! The stored link and its redirect entry.
use crate::links::create::views;
use crate::links::redirect::{utm_pairs, utm_pairs_of, LinkMapping, UtmParams};
use crate::links::status::LinkStatus;
use vstd::prelude::*;

verus! {

broadcast use vstd::string::group_string_axioms;

/// A link as it is written to the database and returned to its creator.
#[derive(Debug, Clone)]
pub struct LinkRecord {
    pub id: String,
    pub org_id: String,
    pub short_code: String,
    pub destination_url: String,
    pub title: Option<String>,
    pub created_by: String,
    pub created_at: i64,
    pub updated_at: Option<i64>,
    pub expires_at: Option<i64>,
    pub status: LinkStatus,
    pub click_count: i64,
    pub tags: Vec<String>,
    pub utm_params: Option<UtmParams>,
    pub forward_query_params: Option<bool>,
    pub redirect_type: String,
}

pub struct LinkRecordView {
    pub id: Seq<char>,
    pub org_id: Seq<char>,
    pub short_code: Seq<char>,
    pub destination_url: Seq<char>,
    pub title: Option<Seq<char>>,
    pub created_by: Seq<char>,
    pub created_at: i64,
    pub updated_at: Option<i64>,
    pub expires_at: Option<i64>,
    pub status: LinkStatus,
    pub click_count: i64,
    pub tags: Seq<Seq<char>>,
    pub utm_params: Option<UtmParams>,
    pub forward_query_params: Option<bool>,
    pub redirect_type: Seq<char>,
}

pub open spec fn opt_text(o: Option<String>) -> Option<Seq<char>> {
    match o {
        Some(s) => Some(s@),
        None => None,
    }
}

impl View for LinkRecord {
    type V = LinkRecordView;

    open spec fn view(&self) -> LinkRecordView {
        LinkRecordView {
            id: self.id@,
            org_id: self.org_id@,
            short_code: self.short_code@,
            destination_url: self.destination_url@,
            title: opt_text(self.title),
            created_by: self.created_by@,
            created_at: self.created_at,
            updated_at: self.updated_at,
            expires_at: self.expires_at,
            status: self.status,
            click_count: self.click_count,
            tags: views(self.tags@),
            utm_params: self.utm_params,
            forward_query_params: self.forward_query_params,
            redirect_type: self.redirect_type@,
        }
    }
}

/// A redirect entry as (link id, destination, status, expiry, UTM
/// parameters, forwarding, redirect type).
pub struct MappingView {
    pub link_id: Seq<char>,
    pub destination_url: Seq<char>,
    pub status: LinkStatus,
    pub expires_at: Option<i64>,
    pub utm_params: Option<UtmParams>,
    pub forward_query_params: bool,
    pub redirect_type: Seq<char>,
}

pub open spec fn mapping_view(m: LinkMapping) -> MappingView {
    MappingView {
        link_id: m.link_id@,
        destination_url: m.destination_url@,
        status: m.status,
        expires_at: m.expires_at,
        utm_params: m.utm_params,
        forward_query_params: m.forward_query_params,
        redirect_type: m.redirect_type@,
    }
}

/// The redirect entry of a link, with query forwarding settled to `forward`.
pub open spec fn mapping_of(r: LinkRecordView, forward: bool) -> MappingView {
    MappingView {
        link_id: r.id,
        destination_url: r.destination_url,
        status: r.status,
        expires_at: r.expires_at,
        utm_params: r.utm_params,
        forward_query_params: forward,
        redirect_type: r.redirect_type,
    }
}

/// A copy of an optional text.
pub fn copy_opt(o: &Option<String>) -> (r: Option<String>)
    ensures
        r == *o,
{
    match o {
        Some(s) => Some(s.clone()),
        None => None,
    }
}

/// A copy of UTM parameters.
pub fn copy_utm(u: &UtmParams) -> (r: UtmParams)
    ensures
        r == *u,
{
    UtmParams {
        utm_source: copy_opt(&u.utm_source),
        utm_medium: copy_opt(&u.utm_medium),
        utm_campaign: copy_opt(&u.utm_campaign),
        utm_term: copy_opt(&u.utm_term),
        utm_content: copy_opt(&u.utm_content),
        utm_ref: copy_opt(&u.utm_ref),
    }
}

/// UTM parameters as stored: kept only when at least one of them is set to a
/// non-empty value.
pub open spec fn stored_utm(u: Option<UtmParams>) -> Option<UtmParams> {
    match u {
        Some(p) => if utm_pairs_of(p).len() > 0 {
            Some(p)
        } else {
            None
        },
        None => None,
    }
}

/// UTM parameters as stored.
pub fn store_utm(u: &Option<UtmParams>) -> (r: Option<UtmParams>)
    ensures
        r == stored_utm(*u),
{
    match u {
        Some(p) => {
            let pairs = utm_pairs(p);
            if pairs.len() > 0 {
                Some(copy_utm(p))
            } else {
                None
            }
        },
        None => None,
    }
}

/// A copy of a list of texts.
pub fn copy_texts(v: &Vec<String>) -> (r: Vec<String>)
    ensures
        views(r@) == views(v@),
{
    let mut out: Vec<String> = Vec::new();
    let mut i: usize = 0;
    while i < v.len()
        invariant
            i <= v.len(),
            out.len() == i,
            forall|k: int| 0 <= k < i ==> out@[k]@ == #[trigger] v@[k]@,
        decreases v.len() - i,
    {
        let s = v[i].clone();
        assert(s == v@[i as int]);
        out.push(s);
        i = i + 1;
    }
    assert(views(out@) =~= views(v@));
    out
}

impl LinkRecord {
    /// The redirect entry of this link, forwarding the visitor's query when
    /// `forward`.
    pub fn to_mapping(&self, forward: bool) -> (m: LinkMapping)
        ensures
            mapping_view(m) == mapping_of(self@, forward),
    {
        LinkMapping {
            link_id: self.id.clone(),
            destination_url: self.destination_url.clone(),
            status: self.status,
            expires_at: self.expires_at,
            utm_params: match &self.utm_params {
                Some(u) => Some(copy_utm(u)),
                None => None,
            },
            forward_query_params: forward,
            redirect_type: self.redirect_type.clone(),
        }
    }
}

} // verus!
