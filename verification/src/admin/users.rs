//! Moderation of users by instance administrators.
use crate::links::status::LinkStatus;
use crate::query::{param_i64, param_i64_exec};
use crate::text::{chars_of, str_is};
use vstd::prelude::*;

verus! {

broadcast use vstd::string::group_string_axioms;

/// A user role at the instance level.
#[derive(Debug, Clone, Copy, PartialEq, Eq, Structural)]
pub enum InstanceRole {
    Admin,
    Member,
}

pub open spec fn instance_role_name(r: InstanceRole) -> Seq<char> {
    match r {
        InstanceRole::Admin => "admin"@,
        InstanceRole::Member => "member"@,
    }
}

impl InstanceRole {
    /// The stored name.
    pub fn as_str(&self) -> (r: &'static str)
        ensures
            r@ == instance_role_name(*self),
    {
        match self {
            InstanceRole::Admin => "admin",
            InstanceRole::Member => "member",
        }
    }
}

/// Reads the body's `role` (400 when missing or not `admin`/`member`).
pub fn parse_instance_role(field: Option<&str>) -> (r: Result<InstanceRole, &'static str>)
    ensures
        match field {
            None => r == Err::<InstanceRole, &'static str>("Missing 'role' field"),
            Some(s) => if s@ == "admin"@ {
                r == Ok::<InstanceRole, &'static str>(InstanceRole::Admin)
            } else if s@ == "member"@ {
                r == Ok::<InstanceRole, &'static str>(InstanceRole::Member)
            } else {
                r == Err::<InstanceRole, &'static str>("Role must be 'admin' or 'member'")
            },
        },
{
    match field {
        None => Err("Missing 'role' field"),
        Some(s) => if str_is(s, "admin") {
            Ok(InstanceRole::Admin)
        } else if str_is(s, "member") {
            Ok(InstanceRole::Member)
        } else {
            Err("Role must be 'admin' or 'member'")
        },
    }
}

/// The role change rules: nobody changes their own role, and the last admin
/// is never demoted.
pub open spec fn role_change_refusal(
    is_self: bool,
    new_role: InstanceRole,
    target_role: Seq<char>,
    admin_count: int,
) -> Option<Seq<char>> {
    if is_self {
        Some("Cannot modify your own role"@)
    } else if new_role == InstanceRole::Member && target_role == "admin"@ && admin_count <= 1 {
        Some("Cannot demote the last admin user"@)
    } else {
        None
    }
}

/// Checks a role change (refusals are 400). `admin_count` is only consulted
/// when an admin is demoted.
pub fn check_role_change(is_self: bool, new_role: InstanceRole, target_role: &str, admin_count: i64) -> (r:
    Result<(), &'static str>)
    ensures
        match role_change_refusal(is_self, new_role, target_role@, admin_count as int) {
            Some(m) => r matches Err(e) && e@ == m,
            None => r is Ok,
        },
{
    if is_self {
        return Err("Cannot modify your own role");
    }
    if matches!(new_role, InstanceRole::Member) && str_is(target_role, "admin") && admin_count <= 1 {
        return Err("Cannot demote the last admin user");
    }
    Ok(())
}

/// Whether a role change must read the admin count first.
pub fn demotes_admin(new_role: InstanceRole, target_role: &str) -> (r: bool)
    ensures
        r == (new_role == InstanceRole::Member && target_role@ == "admin"@),
{
    matches!(new_role, InstanceRole::Member) && str_is(target_role, "admin")
}

/// A role change never leaves the instance without an admin: when the target
/// is the only admin, demoting them is refused.
pub proof fn lemma_last_admin_kept(is_self: bool, target_role: Seq<char>, admin_count: int)
    requires
        target_role == "admin"@,
        admin_count <= 1,
    ensures
        role_change_refusal(is_self, InstanceRole::Member, target_role, admin_count) is Some,
{
}

/// How many of the users' roles are `admin`.
pub open spec fn admin_total(roles: Seq<Seq<char>>) -> nat
    decreases roles.len(),
{
    if roles.len() == 0 {
        0
    } else {
        admin_total(roles.drop_last()) + if roles.last() == "admin"@ {
            1nat
        } else {
            0nat
        }
    }
}

/// The users' roles after an administrator asks to give `target` the role
/// `new_role`: unchanged when the change is refused, else the target holds
/// the new role. The admin count is the store's, `admin_total(roles)`.
pub open spec fn roles_after_change(
    roles: Seq<Seq<char>>,
    caller: int,
    target: int,
    new_role: InstanceRole,
) -> Seq<Seq<char>> {
    if role_change_refusal(caller == target, new_role, roles[target], admin_total(roles) as int) is Some {
        roles
    } else {
        roles.update(target, instance_role_name(new_role))
    }
}

proof fn lemma_admin_total_update(roles: Seq<Seq<char>>, i: int, v: Seq<char>)
    requires
        0 <= i < roles.len(),
    ensures
        admin_total(roles.update(i, v)) + (if roles[i] == "admin"@ {
            1int
        } else {
            0int
        }) == admin_total(roles) + (if v == "admin"@ {
            1int
        } else {
            0int
        }),
    decreases roles.len(),
{
    let u = roles.update(i, v);
    if i == roles.len() - 1 {
        assert(u.drop_last() =~= roles.drop_last());
    } else {
        assert(u.drop_last() =~= roles.drop_last().update(i, v));
        lemma_admin_total_update(roles.drop_last(), i, v);
    }
}

/// Role changes over the whole instance: a refused change (one's own role,
/// or demoting the last admin) changes no role; any other change gives the
/// target exactly the asked role and touches nobody else; and an instance
/// with an admin never ends up without one.
pub proof fn lemma_role_change_keeps_an_admin(
    roles: Seq<Seq<char>>,
    caller: int,
    target: int,
    new_role: InstanceRole,
)
    requires
        0 <= target < roles.len(),
        admin_total(roles) >= 1,
    ensures
        role_change_refusal(caller == target, new_role, roles[target], admin_total(roles) as int)
            is Some ==> roles_after_change(roles, caller, target, new_role) == roles,
        role_change_refusal(caller == target, new_role, roles[target], admin_total(roles) as int)
            is None ==> roles_after_change(roles, caller, target, new_role)[target]
            == instance_role_name(new_role) && forall|j: int|
            0 <= j < roles.len() && j != target ==> #[trigger] roles_after_change(
                roles,
                caller,
                target,
                new_role,
            )[j] == roles[j],
        admin_total(roles_after_change(roles, caller, target, new_role)) >= 1,
{
    lemma_admin_total_update(roles, target, instance_role_name(new_role));
}

/// How a suspension request is answered before anything changes.
#[derive(Debug, Clone, Copy, PartialEq, Eq, Structural)]
pub enum SuspensionCheck {
    /// 400 "Cannot suspend yourself".
    SelfSuspension,
    /// 400 "Cannot suspend the last admin".
    LastAdmin,
    /// 404 "User not found".
    NotFound,
    /// Suspend the user.
    Proceed,
}

impl SuspensionCheck {
    /// The HTTP status of the answer: 400 for suspending oneself or the last
    /// admin, 404 for an unknown user, 200 for a suspension made.
    pub fn status(&self) -> (r: u16)
        ensures
            r == match *self {
                SuspensionCheck::SelfSuspension => 400u16,
                SuspensionCheck::LastAdmin => 400u16,
                SuspensionCheck::NotFound => 404u16,
                SuspensionCheck::Proceed => 200u16,
            },
    {
        match self {
            SuspensionCheck::SelfSuspension => 400,
            SuspensionCheck::LastAdmin => 400,
            SuspensionCheck::NotFound => 404,
            SuspensionCheck::Proceed => 200,
        }
    }

    /// The message of a refusal (`None` when the suspension goes ahead).
    pub fn message(&self) -> (r: Option<&'static str>)
        ensures
            match *self {
                SuspensionCheck::SelfSuspension => r matches Some(m) && m@ == "Cannot suspend yourself"@,
                SuspensionCheck::LastAdmin => r matches Some(m) && m@
                    == "Cannot suspend the last admin"@,
                SuspensionCheck::NotFound => r matches Some(m) && m@ == "User not found"@,
                SuspensionCheck::Proceed => r is None,
            },
    {
        proof {
            reveal_strlit("Cannot suspend yourself");
            reveal_strlit("Cannot suspend the last admin");
            reveal_strlit("User not found");
        }
        match self {
            SuspensionCheck::SelfSuspension => Some("Cannot suspend yourself"),
            SuspensionCheck::LastAdmin => Some("Cannot suspend the last admin"),
            SuspensionCheck::NotFound => Some("User not found"),
            SuspensionCheck::Proceed => None,
        }
    }
}

/// Checks a suspension: not oneself, not the last admin, an existing user.
/// `target_role` is `None` when the user does not exist.
pub fn check_suspension(is_self: bool, admin_count: i64, target_role: Option<&str>) -> (r:
    SuspensionCheck)
    ensures
        r == if is_self {
            SuspensionCheck::SelfSuspension
        } else if admin_count <= 1 && (target_role matches Some(t) && t@ == "admin"@) {
            SuspensionCheck::LastAdmin
        } else if target_role is None {
            SuspensionCheck::NotFound
        } else {
            SuspensionCheck::Proceed
        },
{
    if is_self {
        return SuspensionCheck::SelfSuspension;
    }
    match target_role {
        None => SuspensionCheck::NotFound,
        Some(t) => if admin_count <= 1 && str_is(t, "admin") {
            SuspensionCheck::LastAdmin
        } else {
            SuspensionCheck::Proceed
        },
    }
}

/// The positions of a suspended user's links whose redirect entry is
/// rewritten as disabled: all but the blocked ones, in order.
pub fn links_to_disable(statuses: &Vec<LinkStatus>) -> (r: Vec<usize>)
    ensures
        forall|k: int| 0 <= k < r.len() ==> r@[k] < statuses.len() && statuses@[r@[k] as int]
            != LinkStatus::Blocked,
        forall|i: int|
            0 <= i < statuses.len() && statuses@[i] != LinkStatus::Blocked ==> r@.contains(i as usize),
        forall|a: int, b: int| 0 <= a < b < r.len() ==> r@[a] < r@[b],
{
    let mut out: Vec<usize> = Vec::new();
    let mut i: usize = 0;
    while i < statuses.len()
        invariant
            i <= statuses.len(),
            forall|k: int| 0 <= k < out.len() ==> out@[k] < i && statuses@[out@[k] as int]
                != LinkStatus::Blocked,
            forall|j: int|
                0 <= j < i && statuses@[j] != LinkStatus::Blocked ==> out@.contains(j as usize),
            forall|a: int, b: int| 0 <= a < b < out.len() ==> out@[a] < out@[b],
        decreases statuses.len() - i,
    {
        let ghost old_out = out@;
        if statuses[i] != LinkStatus::Blocked {
            out.push(i);
            assert(out@[out.len() - 1] == i);
        }
        proof {
            assert forall|j: int|
                0 <= j < i + 1 && statuses@[j] != LinkStatus::Blocked implies out@.contains(
                j as usize,
            ) by {
                if j == i {
                    assert(out@[out.len() - 1] == i);
                } else {
                    assert(old_out.contains(j as usize));
                    let k = choose|k: int| 0 <= k < old_out.len() && old_out[k] == j as usize;
                    assert(out@[k] == j as usize);
                }
            }
        }
        i = i + 1;
    }
    out
}

/// Why deleting a user is refused (404 for a missing user, 400 otherwise).
#[derive(Debug, Clone, Copy, PartialEq, Eq, Structural)]
pub enum UserDeletionRefusal {
    /// "Cannot delete your own account"
    OwnAccount,
    /// "User not found"
    NotFound,
    /// "Cannot delete the last admin in an organization"
    LastAdminInOrg,
    /// "Must provide 'confirmation': 'DELETE' in request body"
    NotConfirmed,
}

/// Checks a user deletion, in the handler's order. `target_role` is `None`
/// for an unknown user; `last_admin_in_org` tells whether the target is the
/// last admin of their organization; `confirmation` is the body's field.
pub fn check_user_deletion(
    is_self: bool,
    target_role: Option<&str>,
    last_admin_in_org: bool,
    confirmation: Option<&str>,
) -> (r: Option<UserDeletionRefusal>)
    ensures
        r == if is_self {
            Some(UserDeletionRefusal::OwnAccount)
        } else if target_role is None {
            Some(UserDeletionRefusal::NotFound)
        } else if (target_role matches Some(t) && t@ == "admin"@) && last_admin_in_org {
            Some(UserDeletionRefusal::LastAdminInOrg)
        } else if !(confirmation matches Some(c) && c@ == "DELETE"@) {
            Some(UserDeletionRefusal::NotConfirmed)
        } else {
            None
        },
{
    if is_self {
        return Some(UserDeletionRefusal::OwnAccount);
    }
    let t = match target_role {
        None => return Some(UserDeletionRefusal::NotFound),
        Some(t) => t,
    };
    if str_is(t, "admin") && last_admin_in_org {
        return Some(UserDeletionRefusal::LastAdminInOrg);
    }
    let confirmed = match confirmation {
        Some(c) => str_is(c, "DELETE"),
        None => false,
    };
    if !confirmed {
        return Some(UserDeletionRefusal::NotConfirmed);
    }
    None
}

/// Paging of the administrators' lists: `page=` (1 by default, not clamped)
/// and `limit=` (50 by default, at most 100).
pub fn admin_paging(query: &str) -> (r: (i64, i64))
    ensures
        r.0 == match param_i64(query@, "page="@) {
            Some(p) => p,
            None => 1,
        },
        r.1 == {
            let l = match param_i64(query@, "limit="@) {
                Some(l) => l,
                None => 50,
            };
            if l > 100 {
                100
            } else {
                l
            }
        },
{
    let q = chars_of(query);
    let page = match param_i64_exec(q.as_slice(), "page=") {
        Some(p) => p,
        None => 1,
    };
    let limit = match param_i64_exec(q.as_slice(), "limit=") {
        Some(l) => l,
        None => 50,
    };
    let limit = if limit > 100 {
        100
    } else {
        limit
    };
    (page, limit)
}

} // verus!
