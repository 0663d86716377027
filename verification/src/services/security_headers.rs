//! Default-deny security headers applied to every response. Per-route
//! handlers can override individual headers (e.g. admin pages that need to
//! be iframed by the RoleLogic dashboard set their own
//! `Content-Security-Policy` before; those values are preserved).

use crate::headers;
use crate::text;
use axum::http::HeaderMap;
use vstd::prelude::*;
use vstd::string::*;

verus! {

/// CSP for any HTML that should never be embedded in a frame (member-
/// facing verify page, users list, error pages).
pub const PUBLIC_PAGE_CSP: &'static str = "frame-ancestors 'none'";

/// The `Content-Security-Policy` of admin pages.
pub open spec fn iframe_csp(dashboard_origin: Option<Seq<char>>) -> Seq<char> {
    "frame-ancestors "@ + match dashboard_origin {
        Some(origin) => origin,
        None => "*"@,
    }
}

/// Build the `Content-Security-Policy` value for admin pages embedded
/// inside the RoleLogic dashboard iframe. Falls back to `*` only when the
/// operator hasn't configured `RL_DASHBOARD_ORIGIN` (dev / self-hosted).
pub fn admin_iframe_csp(dashboard_origin: Option<&str>) -> (r: String)
    ensures
        r@ == iframe_csp(text::opt_str_view(dashboard_origin)),
{
    let ancestor: &str = match dashboard_origin {
        Some(origin) => origin,
        None => "*",
    };
    text::join2("frame-ancestors ", ancestor)
}

/// The headers with the security headers that they lacked.
pub open spec fn secured(all: Map<Seq<char>, Seq<Seq<u8>>>) -> Map<Seq<char>, Seq<Seq<u8>>> {
    let all = headers::with_default(all, "content-security-policy"@, "frame-ancestors 'none'"@);
    let all = headers::with_default(all, "x-content-type-options"@, "nosniff"@);
    let all = headers::with_default(all, "referrer-policy"@, "strict-origin-when-cross-origin"@);
    headers::with_default(
        all,
        "strict-transport-security"@,
        "max-age=31536000; includeSubDomains"@,
    )
}

/// Add the security headers that a response lacks. `false` comes back where the map
/// refuses to grow, which it never does with few headers: the response then has a
/// part of them, and what it had before.
pub fn baseline(headers: &mut HeaderMap) -> (r: bool)
    ensures
        r ==> headers::header_values(*final(headers)) == secured(
            headers::header_values(*old(headers)),
        ),
        !r ==> headers::header_values(*old(headers)).submap_of(
            headers::header_values(*final(headers)),
        ) && headers::header_values(*final(headers)).submap_of(
            secured(headers::header_values(*old(headers))),
        ),
        headers::header_values(*old(headers)).dom().len() + 4 <= headers::MAX_NAMES ==> r,
{
    proof {
        reveal_strlit("content-security-policy");
        reveal_strlit("frame-ancestors 'none'");
        reveal_strlit("x-content-type-options");
        reveal_strlit("nosniff");
        reveal_strlit("referrer-policy");
        reveal_strlit("strict-origin-when-cross-origin");
        reveal_strlit("strict-transport-security");
        reveal_strlit("max-age=31536000; includeSubDomains");
    }
    headers::or_insert(headers, "content-security-policy", PUBLIC_PAGE_CSP)
        && headers::or_insert(headers, "x-content-type-options", "nosniff")
        && headers::or_insert(headers, "referrer-policy", "strict-origin-when-cross-origin")
        && headers::or_insert(
        headers,
        "strict-transport-security",
        "max-age=31536000; includeSubDomains",
    )
}

/// A header that a handler has set is never overridden.
pub proof fn law_set_headers_are_kept(all: Map<Seq<char>, Seq<Seq<u8>>>, name: Seq<char>)
    requires
        all.dom().contains(name),
    ensures
        secured(all).dom().contains(name),
        secured(all)[name] == all[name],
{
}

/// Every secured response carries the four headers.
pub proof fn law_secured_response_is_complete(all: Map<Seq<char>, Seq<Seq<u8>>>)
    ensures
        secured(all).dom().contains("content-security-policy"@),
        secured(all).dom().contains("x-content-type-options"@),
        secured(all).dom().contains("referrer-policy"@),
        secured(all).dom().contains("strict-transport-security"@),
{
}

/// Securing a secured response changes nothing.
pub proof fn law_securing_is_idempotent(all: Map<Seq<char>, Seq<Seq<u8>>>)
    ensures
        secured(secured(all)) == secured(all),
{
    law_secured_response_is_complete(all);
}

/// Exactly four headers are added, each where it was lacking; no page is framed by
/// another site unless its handler says so.
pub proof fn law_only_lacking_headers_are_added(all: Map<Seq<char>, Seq<Seq<u8>>>, name: Seq<char>)
    requires
        !all.dom().contains(name),
    ensures
        secured(all).dom().contains(name) <==> name == "content-security-policy"@ || name
            == "x-content-type-options"@ || name == "referrer-policy"@ || name
            == "strict-transport-security"@,
{
}

/// An admin page may be framed by the dashboard alone, where one is configured.
pub proof fn law_admin_pages_name_the_dashboard(origin: Option<Seq<char>>)
    ensures
        origin matches Some(o) ==> iframe_csp(origin) == "frame-ancestors "@ + o,
        origin is None ==> iframe_csp(origin) == "frame-ancestors *"@,
        origin != Some("'none'"@) ==> iframe_csp(origin) != PUBLIC_PAGE_CSP@,
{
    reveal_strlit("frame-ancestors ");
    reveal_strlit("frame-ancestors *");
    reveal_strlit("frame-ancestors 'none'");
    reveal_strlit("'none'");
    reveal_strlit("*");
    assert("frame-ancestors "@ + "*"@ =~= "frame-ancestors *"@);
    assert("frame-ancestors 'none'"@.skip(16) =~= "'none'"@);
    if let Some(o) = origin {
        assert(("frame-ancestors "@ + o).skip(16) =~= o);
    } else {
        assert("frame-ancestors *"@.len() != "frame-ancestors 'none'"@.len());
    }
}

} // verus!
