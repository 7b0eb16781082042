//! Session cookies, token refresh checks and the OAuth callback's redirects.
use crate::orgs::roles::{denial, Denial};
use crate::secrets::{padded_equal, padded_secrets_match};
use crate::text::{chars_of, contains_chars, contains_seq, seq_starts_with, starts_with_at, str_is};
use vstd::prelude::*;

verus! {

broadcast use vstd::string::group_string_axioms;

/// The scheme cookies are set for: `http` on a `localhost` domain, `https`
/// everywhere else.
pub fn cookie_scheme(domain: &str) -> (r: &'static str)
    ensures
        r@ == if seq_starts_with(domain@, "localhost"@) {
            "http"@
        } else {
            "https"@
        },
{
    let d = chars_of(domain);
    let p = chars_of("localhost");
    proof {
        assert(d@.skip(0) =~= d@);
    }
    if starts_with_at(d.as_slice(), 0, p.as_slice()) {
        "http"
    } else {
        "https"
    }
}

/// The checks of a refresh after its token was validated: the token must be
/// a refresh token, and the session it names must belong to the token's
/// subject (compared in constant time over zero-padded bytes). Refusals are
/// 401.
pub open spec fn refresh_refusal(token_type: Seq<char>, session_user: Option<Seq<char>>, subject: Seq<
    char,
>) -> Option<Seq<char>> {
    if token_type != "refresh"@ {
        Some("Invalid token type"@)
    } else {
        match session_user {
            None => Some("Session expired or invalid"@),
            Some(u) => if !padded_equal(vstd::utf8::encode_utf8(u), vstd::utf8::encode_utf8(subject)) {
                Some("Session mismatch"@)
            } else {
                None
            },
        }
    }
}

/// The token type check of a refresh (401 "Invalid token type").
pub fn check_refresh_token_type(token_type: &str) -> (r: Result<(), Denial>)
    ensures
        token_type@ == "refresh"@ ==> r is Ok,
        token_type@ != "refresh"@ ==> (r matches Err(d) && denial(d, 401, "Invalid token type"@)),
{
    if str_is(token_type, "refresh") {
        Ok(())
    } else {
        Err(Denial { status: 401, message: "Invalid token type".to_string() })
    }
}

/// The session check of a refresh: the stored session (`None` when it is
/// gone) must belong to the token's subject.
pub fn check_refresh_session(session_user: Option<&str>, subject: &str) -> (r: Result<(), Denial>)
    ensures
        match session_user {
            None => r matches Err(d) && denial(d, 401, "Session expired or invalid"@),
            Some(u) => if padded_equal(
                vstd::utf8::encode_utf8(u@),
                vstd::utf8::encode_utf8(subject@),
            ) {
                r is Ok
            } else {
                r matches Err(d) && denial(d, 401, "Session mismatch"@)
            },
        },
{
    match session_user {
        None => Err(Denial { status: 401, message: "Session expired or invalid".to_string() }),
        Some(u) => if padded_secrets_match(u, subject) {
            Ok(())
        } else {
            Err(Denial { status: 401, message: "Session mismatch".to_string() })
        },
    }
}

/// A refresh token is honored only for the user its session belongs to: a
/// session of another user (one whose identifier differs other than by
/// trailing zero bytes) is refused.
pub proof fn lemma_refresh_binds_session(session_user: Seq<char>, subject: Seq<char>)
    requires
        !padded_equal(vstd::utf8::encode_utf8(session_user), vstd::utf8::encode_utf8(subject)),
    ensures
        refresh_refusal("refresh"@, Some(session_user), subject) is Some,
{
}

/// Where a failed OAuth callback sends the browser: sign-ups disabled and an
/// address already used by another account each have their page; any other
/// failure is a 500 (`None`).
pub open spec fn oauth_failure_redirect(error: Seq<char>, frontend: Seq<char>) -> Option<Seq<char>> {
    if contains_seq(error, "SIGNUPS_DISABLED"@) {
        Some(frontend + "/?error=signups_disabled"@)
    } else if contains_seq(error, "EMAIL_ALREADY_USED"@) {
        Some(frontend + "/login?error=email_already_used"@)
    } else {
        None
    }
}

/// Where a failed OAuth callback sends the browser.
pub fn oauth_failure_location(error: &str, frontend: &str) -> (r: Option<String>)
    ensures
        match r {
            Some(l) => oauth_failure_redirect(error@, frontend@) == Some(l@),
            None => oauth_failure_redirect(error@, frontend@) is None,
        },
{
    let e = chars_of(error);
    if contains_chars(e.as_slice(), chars_of("SIGNUPS_DISABLED").as_slice()) {
        let mut s = frontend.to_string();
        s.append("/?error=signups_disabled");
        Some(s)
    } else if contains_chars(e.as_slice(), chars_of("EMAIL_ALREADY_USED").as_slice()) {
        let mut s = frontend.to_string();
        s.append("/login?error=email_already_used");
        Some(s)
    } else {
        None
    }
}

/// Where a successful sign-in lands: the path the login asked for, else the
/// frontend's callback page.
pub fn post_login_location(frontend: &str, redirect_path: Option<&str>) -> (r: String)
    ensures
        r@ == frontend@ + match redirect_path {
            Some(p) => p@,
            None => "/auth/callback"@,
        },
{
    let mut s = frontend.to_string();
    match redirect_path {
        Some(p) => s.append(p),
        None => s.append("/auth/callback"),
    }
    s
}

/// The sign-in providers offered, as `(name, label)`, in this order: GitHub,
/// Google, each when enabled.
pub fn enabled_providers(github: bool, google: bool) -> (r: Vec<(&'static str, &'static str)>)
    ensures
        r@.len() == (if github {
            1int
        } else {
            0int
        }) + (if google {
            1int
        } else {
            0int
        }),
        github ==> r@[0].0@ == "github"@ && r@[0].1@ == "GitHub"@,
        google ==> r@[r@.len() - 1].0@ == "google"@ && r@[r@.len() - 1].1@ == "Google"@,
{
    let mut v: Vec<(&'static str, &'static str)> = Vec::new();
    if github {
        v.push(("github", "GitHub"));
    }
    if google {
        v.push(("google", "Google"));
    }
    v
}

} // verus!
