//! The moderation status of a link.
use crate::text::str_is;
use vstd::prelude::*;

verus! {

broadcast use vstd::string::group_string_axioms;

/// Whether a link redirects: only active links do.
#[derive(Debug, Clone, Copy, PartialEq, Eq, Structural)]
pub enum LinkStatus {
    Active,
    Disabled,
    Blocked,
}

pub open spec fn status_name(s: LinkStatus) -> Seq<char> {
    match s {
        LinkStatus::Active => "active"@,
        LinkStatus::Disabled => "disabled"@,
        LinkStatus::Blocked => "blocked"@,
    }
}

pub open spec fn status_from_name(s: Seq<char>) -> Option<LinkStatus> {
    if s == "active"@ {
        Some(LinkStatus::Active)
    } else if s == "disabled"@ {
        Some(LinkStatus::Disabled)
    } else if s == "blocked"@ {
        Some(LinkStatus::Blocked)
    } else {
        None
    }
}

impl LinkStatus {
    /// The stored name of the status.
    pub fn as_str(&self) -> (r: &'static str)
        ensures
            r@ == status_name(*self),
    {
        match self {
            LinkStatus::Active => "active",
            LinkStatus::Disabled => "disabled",
            LinkStatus::Blocked => "blocked",
        }
    }

    /// Parses a stored status name.
    pub fn parse(s: &str) -> (r: Option<LinkStatus>)
        ensures
            r == status_from_name(s@),
    {
        if str_is(s, "active") {
            Some(LinkStatus::Active)
        } else if str_is(s, "disabled") {
            Some(LinkStatus::Disabled)
        } else if str_is(s, "blocked") {
            Some(LinkStatus::Blocked)
        } else {
            None
        }
    }
}

/// Reading a status back from its name gives the status.
pub proof fn lemma_status_name_roundtrip(s: LinkStatus)
    ensures
        status_from_name(status_name(s)) == Some(s),
{
    reveal_strlit("active");
    reveal_strlit("disabled");
    reveal_strlit("blocked");
    assert("active"@[0] != "disabled"@[0]);
    assert("active"@[0] != "blocked"@[0]);
    assert("disabled"@[0] != "blocked"@[0]);
}

/// The status an administrator sets from the body's `status` field, or the
/// 400 message.
pub fn parse_admin_status(field: Option<&str>) -> (r: Result<LinkStatus, &'static str>)
    ensures
        match field {
            None => r == Err::<LinkStatus, &'static str>("Missing 'status' field"),
            Some(s) => match status_from_name(s@) {
                Some(st) => r == Ok::<LinkStatus, &'static str>(st),
                None => r == Err::<LinkStatus, &'static str>(
                    "Invalid status. Must be 'active', 'disabled', or 'blocked'",
                ),
            },
        },
{
    match field {
        None => Err("Missing 'status' field"),
        Some(s) => match LinkStatus::parse(s) {
            Some(st) => Ok(st),
            None => Err("Invalid status. Must be 'active', 'disabled', or 'blocked'"),
        },
    }
}

/// The confirmation after a status change.
pub fn status_updated_message(s: LinkStatus) -> (r: String)
    ensures
        r@ == "Link status updated to "@ + status_name(s),
{
    let mut m = "Link status updated to ".to_string();
    m.append(s.as_str());
    m
}

} // verus!
