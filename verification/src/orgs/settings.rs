//! Organization settings and logos.
use crate::orgs::roles::{denial, Denial};
use crate::text::str_is;
use crate::tier::{pro_or_above, Tier};
use vstd::prelude::*;

verus! {

broadcast use vstd::string::group_string_axioms;

/// A body field that must be a boolean when present.
#[derive(Debug, Clone, Copy, PartialEq, Eq, Structural)]
pub enum BoolField {
    Absent,
    Value(bool),
    /// Present but not a boolean.
    NotBool,
}

/// The settings change a request asks for.
#[derive(Debug, Clone, Copy, PartialEq, Eq, Structural)]
pub struct OrgSettingsChange {
    pub forward_query_params: Option<bool>,
    pub exclude_ambiguous_chars: Option<bool>,
}

/// Reads the settings change: each field absent or a boolean, and at least
/// one of them present.
pub fn read_settings_change(forward: BoolField, exclude: BoolField) -> (r: Result<
    OrgSettingsChange,
    Denial,
>)
    ensures
        forward == BoolField::NotBool ==> (r matches Err(d) && denial(
            d,
            400,
            "forward_query_params must be a boolean"@,
        )),
        forward != BoolField::NotBool && exclude == BoolField::NotBool ==> (r matches Err(d)
            && denial(d, 400, "exclude_ambiguous_chars must be a boolean"@)),
        forward == BoolField::Absent && exclude == BoolField::Absent ==> (r matches Err(d)
            && denial(
            d,
            400,
            "At least one setting (forward_query_params, exclude_ambiguous_chars) is required"@,
        )),
        forward matches BoolField::Value(f) ==> (exclude != BoolField::NotBool ==> (r matches Ok(c)
            && c.forward_query_params == Some(f))),
        exclude matches BoolField::Value(e) ==> (forward != BoolField::NotBool ==> (r matches Ok(c)
            && c.exclude_ambiguous_chars == Some(e))),
        r matches Ok(c) ==> (forward == BoolField::Absent ==> c.forward_query_params is None) && (
        exclude == BoolField::Absent ==> c.exclude_ambiguous_chars is None),
{
    let f = match forward {
        BoolField::Absent => None,
        BoolField::Value(b) => Some(b),
        BoolField::NotBool => return Err(
            Denial { status: 400, message: "forward_query_params must be a boolean".to_string() },
        ),
    };
    let e = match exclude {
        BoolField::Absent => None,
        BoolField::Value(b) => Some(b),
        BoolField::NotBool => return Err(
            Denial { status: 400, message: "exclude_ambiguous_chars must be a boolean".to_string() },
        ),
    };
    if f.is_none() && e.is_none() {
        return Err(
            Denial {
                status: 400,
                message: "At least one setting (forward_query_params, exclude_ambiguous_chars) is required".to_string(),
            },
        );
    }
    Ok(OrgSettingsChange { forward_query_params: f, exclude_ambiguous_chars: e })
}

/// Largest logo accepted, in bytes (500 KB).
pub const MAX_LOGO_BYTES: usize = 512000;

/// The logo content types accepted.
pub open spec fn logo_type_allowed(t: Seq<char>) -> bool {
    t == "image/png"@ || t == "image/jpeg"@ || t == "image/webp"@ || t == "image/svg+xml"@
}

/// Custom logos are a Pro feature; an organization whose tier cannot be read
/// counts as Free.
pub fn logo_allowed(tier: Option<Tier>) -> (r: bool)
    ensures
        r == match tier {
            Some(t) => pro_or_above(t),
            None => false,
        },
{
    match tier {
        Some(t) => t.is_pro_or_above(),
        None => false,
    }
}

/// Checks an uploaded logo's type and size (both 400).
pub fn check_logo_file(content_type: &str, size: usize) -> (r: Result<(), &'static str>)
    ensures
        !logo_type_allowed(content_type@) ==> r == Err::<(), &'static str>(
            "Invalid file type. Allowed: PNG, JPEG, WebP, SVG",
        ),
        logo_type_allowed(content_type@) && size > MAX_LOGO_BYTES ==> r == Err::<(), &'static str>(
            "Logo file must be 500 KB or smaller",
        ),
        logo_type_allowed(content_type@) && size <= MAX_LOGO_BYTES ==> r is Ok,
{
    let allowed = str_is(content_type, "image/png") || str_is(content_type, "image/jpeg")
        || str_is(content_type, "image/webp") || str_is(content_type, "image/svg+xml");
    if !allowed {
        return Err("Invalid file type. Allowed: PNG, JPEG, WebP, SVG");
    }
    if size > MAX_LOGO_BYTES {
        return Err("Logo file must be 500 KB or smaller");
    }
    Ok(())
}

/// The storage key of an organization's logo.
pub fn logo_key(org_id: &str) -> (r: String)
    ensures
        r@ == "logos/"@ + org_id@,
{
    let mut s = "logos/".to_string();
    s.append(org_id);
    s
}

/// The public URL of an organization's logo.
pub fn logo_url(org_id: &str) -> (r: String)
    ensures
        r@ == "/api/orgs/"@ + org_id@ + "/logo"@,
{
    let mut s = "/api/orgs/".to_string();
    s.append(org_id);
    s.append("/logo");
    s
}

} // verus!
