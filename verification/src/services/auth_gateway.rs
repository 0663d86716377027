//! Server-to-server calls of the Auth Gateway's `/auth/internal/*`
//! endpoints. Background sync workers don't have a user cookie, so they
//! call these (header-authed via `X-Internal-Key`) instead.

use crate::error;
use crate::error::{AppError, Problem};
use crate::services::gateway;
use crate::services::gateway::Failure;
use crate::text;
use vstd::prelude::*;
use vstd::string::*;

verus! {

/// The URL of the guilds of a user.
pub fn user_guild_ids_url(base: &str) -> (r: String)
    ensures
        r@ == base@ + "/auth/internal/user_guild_ids"@,
{
    text::join2(base, "/auth/internal/user_guild_ids")
}

/// The URL of the members of a guild.
pub fn guild_member_ids_url(base: &str) -> (r: String)
    ensures
        r@ == base@ + "/auth/internal/guild_member_ids"@,
{
    text::join2(base, "/auth/internal/guild_member_ids")
}

/// What a failed internal call is reported as. `endpoint` names the call.
pub open spec fn internal_failure(endpoint: Seq<char>, failure: Failure) -> Problem {
    Problem::Internal(
        match failure {
            Failure::Unreachable { cause } => "auth_gateway request failed: "@ + cause@,
            Failure::Refused { status, body } => "auth_gateway "@ + endpoint + " returned "@
                + gateway::status_line(status) + ": "@ + body@,
            Failure::Unreadable { cause } => "auth_gateway response not JSON: "@ + cause@,
        },
    )
}

fn report(endpoint: &str, failure: &Failure) -> (r: AppError)
    requires
        failure.valid(),
    ensures
        r@ == internal_failure(endpoint@, *failure),
{
    match failure {
        Failure::Unreachable { cause } => AppError::Internal(
            text::join2("auth_gateway request failed: ", cause.as_str()),
        ),
        Failure::Refused { status, body } => {
            let line = gateway::show_status(*status);
            refused(endpoint, line.as_str(), body.as_str())
        },
        Failure::Unreadable { cause } => AppError::Internal(
            text::join2("auth_gateway response not JSON: ", cause.as_str()),
        ),
    }
}

/// What a refused internal call is reported as, given how its status is shown.
pub fn refused(endpoint: &str, status_line: &str, body: &str) -> (r: AppError)
    ensures
        r@ == Problem::Internal(
            "auth_gateway "@ + endpoint@ + " returned "@ + status_line@ + ": "@ + body@,
        ),
{
    let mut msg = text::join3("auth_gateway ", endpoint, " returned ");
    msg.append(status_line);
    msg.append(": ");
    msg.append(body);
    AppError::Internal(msg)
}

/// The guilds of a user, from the reply of the gateway.
pub fn fetch_user_guild_ids(reply: Result<Vec<String>, Failure>) -> (r: Result<
    Vec<String>,
    AppError,
>)
    requires
        reply matches Err(failure) ==> failure.valid(),
    ensures
        error::outcome(r) == match reply {
            Ok(guild_ids) => Ok::<Vec<String>, Problem>(guild_ids),
            Err(failure) => Err::<Vec<String>, Problem>(
                internal_failure("user_guild_ids"@, failure),
            ),
        },
{
    match reply {
        Ok(guild_ids) => Ok(guild_ids),
        Err(failure) => Err(report("user_guild_ids", &failure)),
    }
}

/// The members of a guild, from the reply of the gateway.
pub fn fetch_guild_member_ids(reply: Result<(Vec<String>, Option<String>), Failure>) -> (r: Result<
    Vec<String>,
    AppError,
>)
    requires
        reply matches Err(failure) ==> failure.valid(),
    ensures
        error::outcome(r) == match reply {
            Ok((discord_ids, _)) => Ok::<Vec<String>, Problem>(discord_ids),
            Err(failure) => Err::<Vec<String>, Problem>(
                internal_failure("guild_member_ids"@, failure),
            ),
        },
{
    match fetch_guild_member_ids_full(reply) {
        Ok((discord_ids, _)) => Ok(discord_ids),
        Err(e) => Err(e),
    }
}

/// The members of a guild and its name, from the reply of the gateway.
pub fn fetch_guild_member_ids_full(reply: Result<(Vec<String>, Option<String>), Failure>) -> (r:
    Result<(Vec<String>, Option<String>), AppError>)
    requires
        reply matches Err(failure) ==> failure.valid(),
    ensures
        error::outcome(r) == match reply {
            Ok(members) => Ok::<(Vec<String>, Option<String>), Problem>(members),
            Err(failure) => Err::<(Vec<String>, Option<String>), Problem>(
                internal_failure("guild_member_ids"@, failure),
            ),
        },
{
    match reply {
        Ok(members) => Ok(members),
        Err(failure) => Err(report("guild_member_ids", &failure)),
    }
}

/// What the gateway replies is handed on as it is, and a call that fails is never taken
/// for an empty reply.
pub proof fn law_replies_are_handed_on(
    guilds: Result<Vec<String>, Failure>,
    members: Result<(Vec<String>, Option<String>), Failure>,
    r: Result<Vec<String>, AppError>,
    s: Result<Vec<String>, AppError>,
    t: Result<(Vec<String>, Option<String>), AppError>,
)
    requires
        call_ensures(fetch_user_guild_ids, (guilds,), r),
        call_ensures(fetch_guild_member_ids, (members,), s),
        call_ensures(fetch_guild_member_ids_full, (members,), t),
    ensures
        guilds matches Ok(ids) ==> (r matches Ok(out) && out == ids),
        members matches Ok(all) ==> (s matches Ok(out) && out == all.0),
        members matches Ok(all) ==> (t matches Ok(out) && out == all),
        guilds is Err ==> (r matches Err(e) && e is Internal),
        members is Err ==> (s matches Err(e) && e is Internal),
        members is Err ==> (t matches Err(e) && e is Internal),
{
}

/// Why a call failed is in the report.
pub proof fn law_internal_reports_hold_the_cause(endpoint: Seq<char>, failure: Failure)
    ensures
        internal_failure(endpoint, failure) matches Problem::Internal(words) && match failure {
            Failure::Unreachable { cause } => text::has_part(words, cause@),
            Failure::Refused { status, body } => text::has_part(words, body@) && text::has_part(
                words,
                endpoint,
            ) && text::has_part(words, gateway::status_line(status)),
            Failure::Unreadable { cause } => text::has_part(words, cause@),
        },
{
    let words = internal_failure(endpoint, failure)->Internal_0;
    let none = Seq::<char>::empty();
    match failure {
        Failure::Unreachable { cause } => {
            text::law_a_part_cuts_the_text(words, cause@);
            assert("auth_gateway request failed: "@ + cause@ + none =~= words);
        },
        Failure::Refused { status, body } => {
            let line = gateway::status_line(status);
            text::law_a_part_cuts_the_text(words, body@);
            text::law_a_part_cuts_the_text(words, endpoint);
            text::law_a_part_cuts_the_text(words, line);
            assert("auth_gateway "@ + endpoint + " returned "@ + line + ": "@ + body@ + none
                =~= words);
            assert("auth_gateway "@ + endpoint + (" returned "@ + line + ": "@ + body@) =~= words);
            assert("auth_gateway "@ + endpoint + " returned "@ + line + (": "@ + body@) =~= words);
        },
        Failure::Unreadable { cause } => {
            text::law_a_part_cuts_the_text(words, cause@);
            assert("auth_gateway response not JSON: "@ + cause@ + none =~= words);
        },
    }
}

} // verus!
