//! Transferring a billing account to another user.
use crate::text::{chars_of, lowercase_of, string_from_chars, to_lowercase, trim, trim_chars};
use vstd::prelude::*;

verus! {

broadcast use vstd::string::group_string_axioms;

/// The recipient of a transfer: `to_email` trimmed and lowercased; empty is
/// refused (400 "to_email is required").
pub fn transfer_recipient(to_email: &str) -> (r: Result<String, &'static str>)
    ensures
        lowercase_of(trim(to_email@)).len() == 0 ==> r == Err::<String, &'static str>(
            "to_email is required",
        ),
        lowercase_of(trim(to_email@)).len() > 0 ==> (r matches Ok(e) && e@ == lowercase_of(
            trim(to_email@),
        )),
{
    let t = trim_chars(chars_of(to_email).as_slice());
    let l = to_lowercase(string_from_chars(t.as_slice()).as_str());
    if l.as_str().is_empty() {
        Err("to_email is required")
    } else {
        Ok(l)
    }
}

/// The target of a forced transfer must be named (400 "to_user_id is required").
pub fn forced_transfer_target(to_user_id: &str) -> (r: Result<(), &'static str>)
    ensures
        to_user_id@.len() == 0 ==> r == Err::<(), &'static str>("to_user_id is required"),
        to_user_id@.len() > 0 ==> r is Ok,
{
    if to_user_id.is_empty() {
        Err("to_user_id is required")
    } else {
        Ok(())
    }
}

} // verus!
