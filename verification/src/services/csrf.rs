//! Origin-based CSRF defense for cookie-authenticated state-changing routes.
//!
//! The browser-side CORS allowlist already prevents cross-origin XHR
//! with credentials from non-allowlisted sites, but it relies on the
//! browser honoring CORS. This server-side check is a second wall: it
//! inspects `Origin` on every state-changing admin request and rejects when
//! the value isn't on our allowlist. A browser always sets `Origin` on
//! POST/PUT/DELETE from a real page; curl / server-to-server calls don't,
//! which is exactly what we want to reject on admin write paths.
//!
//! Routes authenticated via `Authorization: Bearer ifs:…` (iframe session)
//! do NOT need Origin checks: the token's HMAC binding to
//! `(discord_id, guild_id, role_id)` is itself the CSRF defense.

use crate::error;
use crate::error::{AppError, Problem};
use crate::headers;
use crate::text;
use axum::http::HeaderMap;
use vstd::prelude::*;
use vstd::string::*;

verus! {

/// True when two origins are the same up to slashes at the end.
pub open spec fn same_origin(a: Seq<char>, b: Seq<char>) -> bool {
    text::trimmed_end_of(a, '/') == text::trimmed_end_of(b, '/')
}

/// True when an origin is on the list.
pub open spec fn allowed(origin: Seq<char>, origins: Seq<String>) -> bool {
    exists|i: int| 0 <= i < origins.len() && same_origin(origin, (#[trigger] origins[i])@)
}

/// The verdict on a request whose `Origin` reads as given.
pub open spec fn judged(origin: Option<Seq<char>>, origins: Seq<String>) -> Result<(), Problem> {
    match origin {
        None => Err(
            Problem::Forbidden("State-changing requests must include an Origin header."@),
        ),
        Some(origin) => if allowed(origin, origins) {
            Ok(())
        } else {
            Err(
                Problem::Forbidden(
                    "Origin '"@ + origin + "' is not allowed for state-changing requests."@,
                ),
            )
        },
    }
}

pub fn verify_origin(headers: &HeaderMap, allowed_origins: &[String]) -> (r: Result<(), AppError>)
    ensures
        error::outcome(r) == judged(headers::first_text(*headers, "origin"@), allowed_origins@),
{
    proof {
        reveal_strlit("origin");
    }
    judge_origin(headers::header_text(headers, "origin"), allowed_origins)
}

/// Judge a request by its `Origin`, where it has one that can be read.
pub fn judge_origin(header: Option<&str>, allowed_origins: &[String]) -> (r: Result<(), AppError>)
    ensures
        error::outcome(r) == judged(text::opt_str_view(header), allowed_origins@),
{
    let origin = match header {
        Some(origin) => origin,
        None => return Err(
            AppError::Forbidden(
                "State-changing requests must include an Origin header.".to_owned(),
            ),
        ),
    };
    let origin_norm = text::trim_end_of(origin, '/');
    let mut i: usize = 0;
    while i < allowed_origins.len()
        invariant
            i <= allowed_origins@.len(),
            text::opt_str_view(header) == Some(origin@),
            origin_norm@ == text::trimmed_end_of(origin@, '/'),
            forall|k: int|
                0 <= k < i ==> !same_origin(origin@, (#[trigger] allowed_origins@[k])@),
        decreases allowed_origins@.len() - i,
    {
        if text::same(origin_norm, text::trim_end_of(allowed_origins[i].as_str(), '/')) {
            proof {
                assert(same_origin(origin@, allowed_origins@[i as int]@));
            }
            return Ok(());
        }
        i += 1;
    }
    Err(
        AppError::Forbidden(
            text::join3("Origin '", origin, "' is not allowed for state-changing requests."),
        ),
    )
}

/// A request without a readable `Origin` is refused, whatever the list.
pub proof fn law_missing_origin_is_refused(origins: Seq<String>)
    ensures
        judged(None, origins) is Err,
{
}

/// A slash at the end of an origin makes no difference.
pub proof fn law_trailing_slash_is_ignored(origin: Seq<char>, origins: Seq<String>)
    ensures
        allowed(origin + seq!['/'], origins) == allowed(origin, origins),
{
    assert((origin + seq!['/']).drop_last() =~= origin);
    assert(forall|b: Seq<char>| same_origin(origin + seq!['/'], b) == same_origin(origin, b));
    if allowed(origin, origins) {
        let i = choose|i: int| 0 <= i < origins.len() && same_origin(origin, (#[trigger] origins[i])@);
        assert(same_origin(origin + seq!['/'], origins[i]@));
    }
    if allowed(origin + seq!['/'], origins) {
        let i = choose|i: int|
            0 <= i < origins.len() && same_origin(origin + seq!['/'], (#[trigger] origins[i])@);
        assert(same_origin(origin, origins[i]@));
    }
}

/// Exactly the origins of the list pass: of origins without slashes at their end, those
/// that stand there, whatever slashes they have there.
pub proof fn law_only_listed_origins_pass(origin: Seq<char>, origins: Seq<String>)
    requires
        origin.len() > 0 ==> origin.last() != '/',
    ensures
        judged(Some(origin), origins) is Ok <==> exists|i: int, slashes: Seq<char>|
            0 <= i < origins.len() && (forall|k: int|
                0 <= k < slashes.len() ==> slashes[k] == '/') && #[trigger] (origin + slashes)
                == (#[trigger] origins[i])@,
        judged(Some(origin), origins) matches Err(p) ==> p is Forbidden,
{
    if allowed(origin, origins) {
        let i = choose|i: int| 0 <= i < origins.len() && same_origin(origin, (#[trigger] origins[i])@);
        let slashes = text::law_runs_at_the_end_are_taken_off(origins[i]@, '/');
        assert(origin + slashes == origins[i]@);
    }
    if exists|i: int, slashes: Seq<char>|
        0 <= i < origins.len() && (forall|k: int| 0 <= k < slashes.len() ==> slashes[k] == '/')
            && #[trigger] (origin + slashes) == (#[trigger] origins[i])@ {
        let (i, slashes) = choose|i: int, slashes: Seq<char>|
            0 <= i < origins.len() && (forall|k: int| 0 <= k < slashes.len() ==> slashes[k] == '/')
                && #[trigger] (origin + slashes) == (#[trigger] origins[i])@;
        lemma_slashes(origin, slashes);
        assert(same_origin(origin, origins[i]@));
    }
}

proof fn lemma_slashes(origin: Seq<char>, slashes: Seq<char>)
    requires
        origin.len() > 0 ==> origin.last() != '/',
        forall|k: int| 0 <= k < slashes.len() ==> slashes[k] == '/',
    ensures
        text::trimmed_end_of(origin + slashes, '/') == origin,
    decreases slashes.len(),
{
    if slashes.len() == 0 {
        assert(origin + slashes =~= origin);
    } else {
        assert((origin + slashes).drop_last() =~= origin + slashes.drop_last());
        assert((origin + slashes).last() == slashes[slashes.len() - 1]);
        lemma_slashes(origin, slashes.drop_last());
    }
}

} // verus!
