//! Organization roles and who may do what to whom.
use crate::text::str_is;
use vstd::prelude::*;

verus! {

broadcast use vstd::string::group_string_axioms;

/// A refusal: HTTP status and message.
#[derive(Debug, Clone)]
pub struct Denial {
    pub status: u16,
    pub message: String,
}

pub open spec fn denial(d: Denial, status: u16, message: Seq<char>) -> bool {
    d.status == status && d.message@ == message
}

fn deny(status: u16, message: &str) -> (d: Denial)
    ensures
        denial(d, status, message@),
{
    Denial { status, message: message.to_string() }
}

/// The role check for actions reserved to owners and admins: a non-member
/// gets 404 "Organization not found", a plain member 403 with `forbidden`.
pub open spec fn owner_or_admin_check(role: Option<Seq<char>>, forbidden: Seq<char>) -> Option<
    (u16, Seq<char>),
> {
    match role {
        None => Some((404, "Organization not found"@)),
        Some(r) => if r == "owner"@ || r == "admin"@ {
            None
        } else {
            Some((403, forbidden))
        },
    }
}

/// The role check for actions reserved to owners.
pub open spec fn owner_check(role: Option<Seq<char>>, forbidden: Seq<char>) -> Option<(u16, Seq<char>)> {
    match role {
        None => Some((404, "Organization not found"@)),
        Some(r) => if r == "owner"@ {
            None
        } else {
            Some((403, forbidden))
        },
    }
}

pub open spec fn opt_str(o: Option<&str>) -> Option<Seq<char>> {
    match o {
        Some(s) => Some(s@),
        None => None,
    }
}

pub open spec fn denial_matches(r: Result<(), Denial>, expected: Option<(u16, Seq<char>)>) -> bool {
    match expected {
        None => r is Ok,
        Some((s, m)) => r matches Err(d) && denial(d, s, m),
    }
}

/// Allows owners and admins of the organization (`role` is the caller's
/// membership role, `None` for a non-member).
pub fn require_owner_or_admin(role: Option<&str>, forbidden: &str) -> (r: Result<(), Denial>)
    ensures
        denial_matches(r, owner_or_admin_check(opt_str(role), forbidden@)),
{
    match role {
        None => Err(deny(404, "Organization not found")),
        Some(r) => if str_is(r, "owner") || str_is(r, "admin") {
            Ok(())
        } else {
            Err(deny(403, forbidden))
        },
    }
}

/// Allows owners of the organization.
pub fn require_owner(role: Option<&str>, forbidden: &str) -> (r: Result<(), Denial>)
    ensures
        denial_matches(r, owner_check(opt_str(role), forbidden@)),
{
    match role {
        None => Err(deny(404, "Organization not found")),
        Some(r) => if str_is(r, "owner") {
            Ok(())
        } else {
            Err(deny(403, forbidden))
        },
    }
}

/// The rights part of removing a member: the requester must belong to the
/// organization and the target too; removing oneself is always allowed;
/// otherwise owners remove anyone, admins only plain members, members nobody.
pub open spec fn removal_rights(
    requester: Option<Seq<char>>,
    is_self: bool,
    target: Option<Seq<char>>,
) -> Option<(u16, Seq<char>)> {
    match requester {
        None => Some((404, "Organization not found"@)),
        Some(req) => match target {
            None => Some((404, "Member not found in this organization"@)),
            Some(t) => if is_self || req == "owner"@ {
                None
            } else if req == "admin"@ {
                if t == "owner"@ {
                    Some((403, "Admins cannot remove owners"@))
                } else if t == "admin"@ {
                    Some((403, "Admins cannot remove other admins"@))
                } else {
                    None
                }
            } else {
                Some((403, "Only org owners and admins can remove members"@))
            },
        },
    }
}

/// The full removal decision: the rights, then the last-owner rule (the owner
/// count is only consulted when the target is an owner).
pub open spec fn removal_decision(
    requester: Option<Seq<char>>,
    is_self: bool,
    target: Option<Seq<char>>,
    owner_count: int,
) -> Option<(u16, Seq<char>)> {
    match removal_rights(requester, is_self, target) {
        Some(d) => Some(d),
        None => if target == Some("owner"@) && owner_count <= 1 {
            Some((400, "Cannot remove the last owner. Transfer ownership first."@))
        } else {
            None
        },
    }
}

/// The rights part of a removal; on success tells whether the target is an
/// owner, in which case [`check_last_owner`] must also pass.
pub fn check_removal_rights(requester: Option<&str>, is_self: bool, target: Option<&str>) -> (r:
    Result<bool, Denial>)
    ensures
        match removal_rights(opt_str(requester), is_self, opt_str(target)) {
            None => r == Ok::<bool, Denial>(opt_str(target) == Some("owner"@)),
            Some((s, m)) => r matches Err(d) && denial(d, s, m),
        },
{
    let req = match requester {
        None => return Err(deny(404, "Organization not found")),
        Some(r) => r,
    };
    let t = match target {
        None => return Err(deny(404, "Member not found in this organization")),
        Some(t) => t,
    };
    let target_is_owner = str_is(t, "owner");
    if !is_self && !str_is(req, "owner") {
        if str_is(req, "admin") {
            if target_is_owner {
                return Err(deny(403, "Admins cannot remove owners"));
            }
            if str_is(t, "admin") {
                return Err(deny(403, "Admins cannot remove other admins"));
            }
        } else {
            return Err(deny(403, "Only org owners and admins can remove members"));
        }
    }
    Ok(target_is_owner)
}

/// The last-owner rule: an owner can only be removed while another remains.
pub fn check_last_owner(owner_count: i64) -> (r: Result<(), Denial>)
    ensures
        owner_count <= 1 ==> (r matches Err(d) && denial(
            d,
            400,
            "Cannot remove the last owner. Transfer ownership first."@,
        )),
        owner_count > 1 ==> r is Ok,
{
    if owner_count <= 1 {
        Err(deny(400, "Cannot remove the last owner. Transfer ownership first."))
    } else {
        Ok(())
    }
}

/// Whatever the roles, an organization never loses its last owner, and a plain
/// member can only ever remove themself.
pub proof fn lemma_removal_safety(
    requester: Option<Seq<char>>,
    is_self: bool,
    target: Option<Seq<char>>,
    owner_count: int,
)
    ensures
        target == Some("owner"@) && owner_count <= 1 ==> removal_decision(
            requester,
            is_self,
            target,
            owner_count,
        ) is Some,
        requester == Some("member"@) && !is_self ==> removal_decision(
            requester,
            is_self,
            target,
            owner_count,
        ) is Some,
        requester matches Some(r) && r == "admin"@ && !is_self && (target == Some("owner"@)
            || target == Some("admin"@)) ==> removal_decision(
            requester,
            is_self,
            target,
            owner_count,
        ) is Some,
{
    reveal_strlit("owner");
    reveal_strlit("admin");
    reveal_strlit("member");
    assert("member"@[0] != "owner"@[0]);
    assert("member"@[0] != "admin"@[0]);
}

} // verus!
