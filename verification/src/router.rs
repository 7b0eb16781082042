//! Routing rules that are not plain path matching: which single-segment paths
//! are short codes, and the instance URLs read from the environment.
use crate::text::{chars_of, seq_starts_with, starts_with_at, str_is};
use vstd::prelude::*;

verus! {

broadcast use vstd::string::group_string_axioms;

/// Frontend pages that share the short-code path shape on the frontend domain.
pub open spec fn frontend_page(code: Seq<char>) -> bool {
    code == "dashboard"@ || code == "auth"@ || code == "settings"@ || code == "admin"@ || code
        == "404"@ || code == "login"@ || code == "billing"@ || code == "pricing"@
}

/// Whether `/<code>` is looked up as a short code: never for codes starting
/// with `api`, and on the frontend domain never for the frontend's own pages
/// (otherwise `/404` would redirect to itself forever). Refused paths answer
/// 404 "Not found".
pub open spec fn short_code_route(code: Seq<char>, is_frontend_domain: bool) -> bool {
    !seq_starts_with(code, "api"@) && !(is_frontend_domain && frontend_page(code))
}

/// Decides whether a single-segment path is served as a short code.
pub fn is_short_code_route(code: &str, is_frontend_domain: bool) -> (r: bool)
    ensures
        r == short_code_route(code@, is_frontend_domain),
{
    let c = chars_of(code);
    proof {
        assert(c@.skip(0) =~= c@);
    }
    if starts_with_at(c.as_slice(), 0, chars_of("api").as_slice()) {
        return false;
    }
    if is_frontend_domain && (str_is(code, "dashboard") || str_is(code, "auth") || str_is(
        code,
        "settings",
    ) || str_is(code, "admin") || str_is(code, "404") || str_is(code, "login") || str_is(
        code,
        "billing",
    ) || str_is(code, "pricing")) {
        return false;
    }
    true
}

/// On the frontend domain the 404 page is never taken for a short code.
pub proof fn lemma_not_found_page_served(is_frontend_domain: bool)
    requires
        is_frontend_domain,
    ensures
        !short_code_route("404"@, is_frontend_domain),
{
}

/// The frontend's URL: `FRONTEND_URL`, else the development server.
pub fn get_frontend_url(configured: Option<&str>) -> (r: String)
    ensures
        r@ == match configured {
            Some(u) => u@,
            None => "http://localhost:5173"@,
        },
{
    match configured {
        Some(u) => u.to_string(),
        None => "http://localhost:5173".to_string(),
    }
}

/// The API's domain: `DOMAIN`, else the development worker.
pub fn api_domain(configured: Option<&str>) -> (r: String)
    ensures
        r@ == match configured {
            Some(d) => d@,
            None => "localhost:8787"@,
        },
{
    match configured {
        Some(d) => d.to_string(),
        None => "localhost:8787".to_string(),
    }
}

/// The status of the root redirect to the frontend.
pub const ROOT_REDIRECT_STATUS: u16 = 301;

} // verus!
