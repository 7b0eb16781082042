//! Creating, renaming and deleting organizations.
use crate::orgs::roles::{denial, Denial};
use crate::text::{chars_of, i64_decimal_chars, int_decimal, lowercase_of, str_is, string_from_chars, to_lowercase, trim, trim_chars, utf8_len, utf8_len_exceeds};
use vstd::prelude::*;

verus! {

broadcast use vstd::string::group_string_axioms;

/// An organization name from the body's `name`: trimmed; blank or missing:
/// "Organization name is required"; over 100 bytes: "Organization name must
/// be 100 characters or less" (both 400).
pub open spec fn org_name_of(raw: Option<Seq<char>>) -> Result<Seq<char>, Seq<char>> {
    match raw {
        None => Err("Organization name is required"@),
        Some(n) => if trim(n).len() == 0 {
            Err("Organization name is required"@)
        } else if utf8_len(trim(n)) > 100 {
            Err("Organization name must be 100 characters or less"@)
        } else {
            Ok(trim(n))
        },
    }
}

/// Reads an organization name.
pub fn org_name(raw: Option<&str>) -> (r: Result<String, Denial>)
    ensures
        match org_name_of(
            match raw {
                Some(n) => Some(n@),
                None => None,
            },
        ) {
            Ok(n) => r matches Ok(v) && v@ == n,
            Err(m) => r matches Err(d) && denial(d, 400, m),
        },
{
    let n = match raw {
        None => return Err(Denial { status: 400, message: "Organization name is required".to_string() }),
        Some(n) => n,
    };
    let chars = chars_of(n);
    let t = trim_chars(chars.as_slice());
    if t.len() == 0 {
        return Err(Denial { status: 400, message: "Organization name is required".to_string() });
    }
    if utf8_len_exceeds(t.as_slice(), 100) {
        return Err(
            Denial {
                status: 400,
                message: "Organization name must be 100 characters or less".to_string(),
            },
        );
    }
    Ok(string_from_chars(t.as_slice()))
}

/// What happens to an organization's links when it is deleted.
#[derive(Debug, Clone)]
pub enum DeleteOrgAction {
    /// Delete the links with the organization.
    DeleteLinks,
    /// Move the links to this organization of the same owner.
    Migrate { target_org_id: String },
}

/// Why a deletion is refused before any link is touched.
#[derive(Debug, Clone)]
pub enum DeleteOrgError {
    /// 400 "Cannot delete your only organization".
    OnlyOrganization,
    /// The request fails: "action is required (delete or migrate)".
    ActionMissing,
    /// The request fails: "target_org_id is required when action is migrate".
    TargetMissing,
    /// 400 "Invalid action. Must be 'delete' or 'migrate'".
    InvalidAction,
}

/// The deletion plan: an owner who belongs to at least one other
/// organization may delete this one, choosing `delete` or `migrate` (which
/// names the target). `member_orgs` counts the organizations the user belongs
/// to, this one included.
pub fn plan_org_deletion(member_orgs: i64, action: Option<&str>, target_org_id: Option<&str>) -> (r:
    Result<DeleteOrgAction, DeleteOrgError>)
    ensures
        member_orgs <= 1 ==> r matches Err(DeleteOrgError::OnlyOrganization),
        member_orgs > 1 ==> match action {
            None => r matches Err(DeleteOrgError::ActionMissing),
            Some(a) => if a@ == "delete"@ {
                r matches Ok(DeleteOrgAction::DeleteLinks)
            } else if a@ == "migrate"@ {
                match target_org_id {
                    Some(t) => r matches Ok(DeleteOrgAction::Migrate { target_org_id }) && target_org_id@
                        == t@,
                    None => r matches Err(DeleteOrgError::TargetMissing),
                }
            } else {
                r matches Err(DeleteOrgError::InvalidAction)
            },
        },
{
    if member_orgs <= 1 {
        return Err(DeleteOrgError::OnlyOrganization);
    }
    let a = match action {
        None => return Err(DeleteOrgError::ActionMissing),
        Some(a) => a,
    };
    if str_is(a, "delete") {
        Ok(DeleteOrgAction::DeleteLinks)
    } else if str_is(a, "migrate") {
        match target_org_id {
            Some(t) => Ok(DeleteOrgAction::Migrate { target_org_id: t.to_string() }),
            None => Err(DeleteOrgError::TargetMissing),
        }
    } else {
        Err(DeleteOrgError::InvalidAction)
    }
}

/// The capacity message when the target cannot take the links.
pub open spec fn capacity_message(available: int, required: int) -> Seq<char> {
    "Target billing account has insufficient capacity. Available slots: "@ + int_decimal(available)
        + ", Required: "@ + int_decimal(required)
}

/// Migration capacity: with a monthly maximum, the target's remaining slots
/// (`max - used`) must hold the moved links, which are then counted against
/// it (`Ok(Some(n))`: add `n` to the target's counter); without one nothing
/// is counted.
pub fn check_migration_capacity(max_links: Option<i64>, used: i64, moving: i64) -> (r: Result<
    Option<i64>,
    Denial,
>)
    requires
        max_links matches Some(m) ==> i64::MIN <= m - used <= i64::MAX,
    ensures
        match max_links {
            None => r == Ok::<Option<i64>, Denial>(None),
            Some(m) => if moving > m - used {
                r matches Err(d) && denial(d, 400, capacity_message(m - used, moving as int))
            } else {
                r == Ok::<Option<i64>, Denial>(Some(moving))
            },
        },
{
    match max_links {
        None => Ok(None),
        Some(m) => {
            let available = m - used;
            if moving > available {
                let mut s = "Target billing account has insufficient capacity. Available slots: ".to_string();
                s.append(string_from_chars(i64_decimal_chars(available).as_slice()).as_str());
                s.append(", Required: ");
                s.append(string_from_chars(i64_decimal_chars(moving).as_slice()).as_str());
                Err(Denial { status: 400, message: s })
            } else {
                Ok(Some(moving))
            }
        },
    }
}

/// One of the user's organizations, with the user's role in it.
#[derive(Debug, Clone)]
pub struct OrgMembership {
    pub id: String,
    pub name: String,
    pub role: String,
}

/// Whether the user owns `o` and it is not the deleted organization.
pub open spec fn is_fallback(o: OrgMembership, deleted: Seq<char>) -> bool {
    o.role@ == "owner"@ && o.id@ != deleted
}

/// Whether `o` is another organization than the deleted one.
pub open spec fn is_other(o: OrgMembership, deleted: Seq<char>) -> bool {
    o.id@ != deleted
}

/// The organization the session moves to after a deletion: the first other
/// organization the user owns, else the first other organization the user
/// belongs to; `None` only when the user belongs to no other organization.
pub fn fallback_org(orgs: &Vec<OrgMembership>, deleted: &str) -> (r: Option<usize>)
    ensures
        match r {
            Some(i) => i < orgs.len() && is_other(orgs@[i as int], deleted@) && (
            (is_fallback(orgs@[i as int], deleted@) && forall|j: int|
                0 <= j < i ==> !is_fallback(#[trigger] orgs@[j], deleted@)) || (forall|j: int|
                0 <= j < orgs.len() ==> !is_fallback(#[trigger] orgs@[j], deleted@)) && forall|j: int|
                0 <= j < i ==> !is_other(#[trigger] orgs@[j], deleted@)),
            None => forall|j: int| 0 <= j < orgs.len() ==> !is_other(#[trigger] orgs@[j], deleted@),
        },
{
    let mut i: usize = 0;
    while i < orgs.len()
        invariant
            i <= orgs.len(),
            forall|j: int| 0 <= j < i ==> !is_fallback(#[trigger] orgs@[j], deleted@),
        decreases orgs.len() - i,
    {
        if str_is(orgs[i].role.as_str(), "owner") && !str_is(orgs[i].id.as_str(), deleted) {
            return Some(i);
        }
        i = i + 1;
    }
    let mut k: usize = 0;
    while k < orgs.len()
        invariant
            k <= orgs.len(),
            forall|j: int| 0 <= j < orgs.len() ==> !is_fallback(#[trigger] orgs@[j], deleted@),
            forall|j: int| 0 <= j < k ==> !is_other(#[trigger] orgs@[j], deleted@),
        decreases orgs.len() - k,
    {
        if !str_is(orgs[k].id.as_str(), deleted) {
            return Some(k);
        }
        k = k + 1;
    }
    None
}

/// A deletion that the plan allows never strands the session: a user who
/// belongs to more than one organization (each listed once) has another one
/// to switch to, whichever is deleted.
pub proof fn lemma_deletion_leaves_an_org(orgs: Seq<OrgMembership>, deleted: Seq<char>)
    requires
        orgs.len() > 1,
        forall|a: int, b: int| 0 <= a < b < orgs.len() ==> orgs[a].id@ != orgs[b].id@,
    ensures
        exists|j: int| 0 <= j < orgs.len() && is_other(#[trigger] orgs[j], deleted),
{
    if orgs[0].id@ != deleted {
        assert(is_other(orgs[0], deleted));
    } else {
        assert(orgs[0].id@ != orgs[1].id@);
        assert(is_other(orgs[1], deleted));
    }
}

/// The organization a session switches to: the body's non-empty `org_id`
/// (400 "org_id is required" otherwise).
pub fn switch_target(org_id: Option<&str>) -> (r: Result<String, &'static str>)
    ensures
        match org_id {
            Some(id) => if id@.len() > 0 {
                r matches Ok(v) && v@ == id@
            } else {
                r == Err::<String, &'static str>("org_id is required")
            },
            None => r == Err::<String, &'static str>("org_id is required"),
        },
{
    match org_id {
        Some(id) => if !id.is_empty() {
            Ok(id.to_string())
        } else {
            Err("org_id is required")
        },
        None => Err("org_id is required"),
    }
}

/// A verified-domain claim's `domain`: trimmed and lowercased when not blank
/// (400 "Domain is required" otherwise).
pub fn claimed_domain(raw: Option<&str>) -> (r: Result<String, &'static str>)
    ensures
        match raw {
            Some(d) => if trim(d@).len() > 0 {
                r matches Ok(v) && v@ == lowercase_of(trim(d@))
            } else {
                r == Err::<String, &'static str>("Domain is required")
            },
            None => r == Err::<String, &'static str>("Domain is required"),
        },
{
    match raw {
        Some(d) => {
            let t = trim_chars(chars_of(d).as_slice());
            if t.len() > 0 {
                Ok(to_lowercase(string_from_chars(t.as_slice()).as_str()))
            } else {
                Err("Domain is required")
            }
        },
        None => Err("Domain is required"),
    }
}

/// The instructions shown for a domain ownership challenge.
pub fn txt_instructions(domain: &str, record: &str) -> (r: String)
    ensures
        r@ == "Add a TXT record to "@ + domain@ + " with the value: "@ + record@,
{
    let mut s = "Add a TXT record to ".to_string();
    s.append(domain);
    s.append(" with the value: ");
    s.append(record);
    s
}

} // verus!
