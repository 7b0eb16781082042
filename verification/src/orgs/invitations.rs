//! Invitations to join an organization.
use crate::orgs::roles::{denial, Denial};
use crate::text::{
    chars_of, contains_char, i64_decimal_chars, int_decimal, lowercase_of, str_is, string_from_chars,
    to_lowercase, trim, trim_chars, utf8_len, utf8_len_exceeds,
};
use vstd::prelude::*;

verus! {

broadcast use vstd::string::group_string_axioms;

/// The address an invitation is sent to: the body's `email`, trimmed and
/// lowercased. Blank or missing: "Email is required"; without `@` or longer
/// than 254 bytes: "Invalid email address" (both 400).
pub open spec fn invite_email_of(raw: Option<Seq<char>>) -> Result<Seq<char>, Seq<char>> {
    match raw {
        None => Err("Email is required"@),
        Some(e) => if trim(e).len() == 0 {
            Err("Email is required"@)
        } else {
            let l = lowercase_of(trim(e));
            if !l.contains('@') || utf8_len(l) > 254 {
                Err("Invalid email address"@)
            } else {
                Ok(l)
            }
        },
    }
}

/// Reads the address of a new invitation.
pub fn invite_email(raw: Option<&str>) -> (r: Result<String, Denial>)
    ensures
        match invite_email_of(
            match raw {
                Some(e) => Some(e@),
                None => None,
            },
        ) {
            Ok(e) => r matches Ok(v) && v@ == e,
            Err(m) => r matches Err(d) && denial(d, 400, m),
        },
{
    let e = match raw {
        None => return Err(Denial { status: 400, message: "Email is required".to_string() }),
        Some(e) => e,
    };
    let chars = chars_of(e);
    let trimmed = trim_chars(chars.as_slice());
    if trimmed.len() == 0 {
        return Err(Denial { status: 400, message: "Email is required".to_string() });
    }
    let t = string_from_chars(trimmed.as_slice());
    let lower = to_lowercase(t.as_str());
    let lc = chars_of(lower.as_str());
    if !contains_char(lc.as_slice(), '@') || utf8_len_exceeds(lc.as_slice(), 254) {
        return Err(Denial { status: 400, message: "Invalid email address".to_string() });
    }
    Ok(lower)
}

/// The member limit: members plus pending invitations must stay below the
/// tier's maximum (`None`: no maximum) for a new invitation.
pub open spec fn member_limit_message(max: int, total: int) -> Seq<char> {
    "Member limit reached ("@ + int_decimal(total) + "/"@ + int_decimal(max)
        + "). Upgrade your plan to invite more members."@
}

/// Checks the member limit before an invitation.
pub fn check_member_limit(max_members: Option<i64>, members: i64, pending: i64) -> (r: Result<
    (),
    Denial,
>)
    requires
        i64::MIN <= members + pending <= i64::MAX,
    ensures
        match max_members {
            Some(max) => if members + pending >= max {
                r matches Err(d) && denial(d, 403, member_limit_message(max as int, members + pending))
            } else {
                r is Ok
            },
            None => r is Ok,
        },
{
    match max_members {
        None => Ok(()),
        Some(max) => {
            let total = members + pending;
            if total >= max {
                let mut m = "Member limit reached (".to_string();
                m.append(string_from_chars(i64_decimal_chars(total).as_slice()).as_str());
                m.append("/");
                m.append(string_from_chars(i64_decimal_chars(max).as_slice()).as_str());
                m.append("). Upgrade your plan to invite more members.");
                Err(Denial { status: 403, message: m })
            } else {
                Ok(())
            }
        },
    }
}

/// What the handlers read of an invitation.
#[derive(Debug, Clone)]
pub struct InvitationState {
    pub org_id: String,
    pub accepted: bool,
    pub expires_at: i64,
}

/// Whether an invitation can still be used at `now`: not accepted and not
/// past its expiry.
pub open spec fn invitation_open(inv: InvitationState, now: int) -> bool {
    !inv.accepted && inv.expires_at >= now
}

/// Accepting: unknown 404, accepted 409, expired 410.
pub open spec fn accept_check_of(inv: Option<InvitationState>, now: int) -> Option<(u16, Seq<char>)> {
    match inv {
        None => Some((404, "Invitation not found"@)),
        Some(i) => if i.accepted {
            Some((409, "This invitation has already been accepted"@))
        } else if i.expires_at < now {
            Some((410, "This invitation has expired"@))
        } else {
            None
        },
    }
}

pub open spec fn result_matches(r: Result<(), Denial>, expected: Option<(u16, Seq<char>)>) -> bool {
    match expected {
        None => r is Ok,
        Some((s, m)) => r matches Err(d) && denial(d, s, m),
    }
}

/// Checks that an invitation can be accepted at `now`.
pub fn check_accept(inv: Option<&InvitationState>, now: i64) -> (r: Result<(), Denial>)
    ensures
        result_matches(
            r,
            accept_check_of(
                match inv {
                    Some(i) => Some(*i),
                    None => None,
                },
                now as int,
            ),
        ),
{
    match inv {
        None => Err(Denial { status: 404, message: "Invitation not found".to_string() }),
        Some(i) => if i.accepted {
            Err(
                Denial {
                    status: 409,
                    message: "This invitation has already been accepted".to_string(),
                },
            )
        } else if i.expires_at < now {
            Err(Denial { status: 410, message: "This invitation has expired".to_string() })
        } else {
            Ok(())
        },
    }
}

/// An invitation is accepted at most once, and never after it expired.
pub proof fn lemma_accept_only_open(inv: InvitationState, now: int)
    ensures
        accept_check_of(Some(inv), now) is None <==> invitation_open(inv, now),
{
}

/// Looking up an invitation of an organization for resending or revoking:
/// unknown 404, another organization's 404.
pub open spec fn org_invitation_check(inv: Option<InvitationState>, org_id: Seq<char>) -> Option<
    (u16, Seq<char>),
> {
    match inv {
        None => Some((404, "Invitation not found"@)),
        Some(i) => if i.org_id@ == org_id {
            None
        } else {
            Some((404, "Invitation not found in this organization"@))
        },
    }
}

/// Checks that an invitation belongs to the organization.
pub fn check_org_invitation(inv: Option<&InvitationState>, org_id: &str) -> (r: Result<(), Denial>)
    ensures
        result_matches(
            r,
            org_invitation_check(
                match inv {
                    Some(i) => Some(*i),
                    None => None,
                },
                org_id@,
            ),
        ),
{
    match inv {
        None => Err(Denial { status: 404, message: "Invitation not found".to_string() }),
        Some(i) => if str_is(i.org_id.as_str(), org_id) {
            Ok(())
        } else {
            Err(
                Denial {
                    status: 404,
                    message: "Invitation not found in this organization".to_string(),
                },
            )
        },
    }
}

/// Resending: the invitation must still be open (both refusals are 400).
pub fn check_resend(inv: &InvitationState, now: i64) -> (r: Result<(), Denial>)
    ensures
        inv.accepted ==> (r matches Err(d) && denial(d, 400, "Invitation has already been accepted"@)),
        !inv.accepted && inv.expires_at < now ==> (r matches Err(d) && denial(
            d,
            400,
            "Invitation has expired"@,
        )),
        r is Ok <==> invitation_open(*inv, now as int),
{
    if inv.accepted {
        Err(Denial { status: 400, message: "Invitation has already been accepted".to_string() })
    } else if inv.expires_at < now {
        Err(Denial { status: 400, message: "Invitation has expired".to_string() })
    } else {
        Ok(())
    }
}

/// What the public invitation page is told.
#[derive(Debug, Clone, Copy, PartialEq, Eq, Structural)]
pub enum InviteValidity {
    NotFound,
    AlreadyAccepted,
    Expired,
    Valid,
}

/// The validity of an invitation at `now`.
pub fn invite_validity(inv: Option<&InvitationState>, now: i64) -> (r: InviteValidity)
    ensures
        r == match inv {
            None => InviteValidity::NotFound,
            Some(i) => if i.accepted {
                InviteValidity::AlreadyAccepted
            } else if i.expires_at < now {
                InviteValidity::Expired
            } else {
                InviteValidity::Valid
            },
        },
{
    match inv {
        None => InviteValidity::NotFound,
        Some(i) => if i.accepted {
            InviteValidity::AlreadyAccepted
        } else if i.expires_at < now {
            InviteValidity::Expired
        } else {
            InviteValidity::Valid
        },
    }
}

impl InviteValidity {
    /// The `reason` reported for an unusable invitation.
    pub fn reason(&self) -> (r: Option<&'static str>)
        ensures
            match *self {
                InviteValidity::NotFound => r matches Some(s) && s@ == "not_found"@,
                InviteValidity::AlreadyAccepted => r matches Some(s) && s@ == "already_accepted"@,
                InviteValidity::Expired => r matches Some(s) && s@ == "expired"@,
                InviteValidity::Valid => r is None,
            },
    {
        match self {
            InviteValidity::NotFound => Some("not_found"),
            InviteValidity::AlreadyAccepted => Some("already_accepted"),
            InviteValidity::Expired => Some("expired"),
            InviteValidity::Valid => None,
        }
    }
}

/// Whether the signed-in user's address is the invited one, ignoring case.
pub fn same_email(user_email: &str, invited_email: &str) -> (r: bool)
    ensures
        r == (lowercase_of(user_email@) == lowercase_of(invited_email@)),
{
    let a = to_lowercase(user_email);
    let b = to_lowercase(invited_email);
    str_is(a.as_str(), b.as_str())
}

/// The link in an invitation email.
pub fn invite_url(frontend: &str, invitation_id: &str) -> (r: String)
    ensures
        r@ == frontend@ + "/invite/"@ + invitation_id@,
{
    let mut s = frontend.to_string();
    s.append("/invite/");
    s.append(invitation_id);
    s
}

/// How the inviter is named in an email: their name, else their address.
pub fn inviter_display_name(name: Option<&str>, email: &str) -> (r: String)
    ensures
        r@ == match name {
            Some(n) => n@,
            None => email@,
        },
{
    match name {
        Some(n) => n.to_string(),
        None => email.to_string(),
    }
}

} // verus!
