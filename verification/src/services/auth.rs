//! Admin-permission helpers used by routes that mix cookie-auth (direct
//! nav) and iframe-Bearer auth (RoleLogic iframe).

use crate::encoding;
use crate::error;
use crate::error::{AppError, Problem};
use crate::headers;
use crate::services::gateway;
use crate::services::gateway::Failure;
use crate::text;
use axum::http::HeaderMap;
use axum_extra::extract::cookie::CookieJar;
use vstd::prelude::*;
use vstd::string::*;

verus! {

/// `axum_extra::extract::cookie::CookieJar`.
#[verifier::external_type_specification]
#[verifier::external_body]
pub struct ExCookieJar(axum_extra::extract::cookie::CookieJar);

/// What a cookie jar holds: the values of its cookies by their names.
pub uninterp spec fn cookie_values(jar: CookieJar) -> Map<Seq<char>, Seq<char>>;

/// `CookieJar::get` and `Cookie::value`: the value of the cookie of that name, if
/// the jar has one.
#[verifier::external_body]
fn cookie_value<'a>(jar: &'a CookieJar, name: &str) -> (r: Option<&'a str>)
    ensures
        match r {
            Some(value) => cookie_values(*jar).dom().contains(name@) && value@ == cookie_values(
                *jar,
            )[name@],
            None => !cookie_values(*jar).dom().contains(name@),
        },
{
    jar.get(name).map(|cookie| cookie.value())
}

/// The value of the session cookie, if there is one.
pub open spec fn session_of(jar: CookieJar) -> Option<Seq<char>> {
    if cookie_values(jar).dom().contains("rl_session"@) {
        Some(cookie_values(jar)["rl_session"@])
    } else {
        None
    }
}

/// The value of the `rl_session` cookie, if there is one.
pub fn session_cookie(jar: &CookieJar) -> (r: Option<&str>)
    ensures
        text::opt_str_view(r) == session_of(*jar),
{
    cookie_value(jar, "rl_session")
}

/// The session of a caller: who they are, or why they are not signed in.
pub open spec fn session_verdict(
    cookie: Option<Seq<char>>,
    verified: Option<(String, String)>,
) -> Result<(String, String), Problem> {
    match (cookie, verified) {
        (None, _) => Err(
            Problem::UnauthorizedWith("Not signed in. Log in with Discord to continue."@),
        ),
        (Some(_), None) => Err(Problem::UnauthorizedWith("Session expired or invalid."@)),
        (Some(_), Some(session)) => Ok(session),
    }
}

/// Read the `rl_session` cookie. `verified` is the session that its signature
/// proves: the caller's discord id and display name.
pub fn read_session(jar: &CookieJar, verified: Option<(String, String)>) -> (r: Result<
    (String, String),
    AppError,
>)
    ensures
        error::outcome(r) == session_verdict(session_of(*jar), verified),
{
    judge_session(session_cookie(jar), verified)
}

/// Judge a session by its cookie, where there is one, and by what its signature
/// proves.
pub fn judge_session(cookie: Option<&str>, verified: Option<(String, String)>) -> (r: Result<
    (String, String),
    AppError,
>)
    ensures
        error::outcome(r) == session_verdict(text::opt_str_view(cookie), verified),
{
    match cookie {
        None => Err(
            AppError::UnauthorizedWith(
                "Not signed in. Log in with Discord to continue.".to_owned(),
            ),
        ),
        Some(_) => match verified {
            None => Err(AppError::UnauthorizedWith("Session expired or invalid.".to_owned())),
            Some(session) => Ok(session),
        },
    }
}

/// The `Cookie` header for the gateway, which reads the value percent-decoded:
/// empty where there is no session.
pub open spec fn forwarded(cookie: Option<Seq<char>>) -> Seq<char> {
    match cookie {
        Some(value) => encoding::cookie_encoded("rl_session"@) + "="@ + encoding::cookie_encoded(
            value,
        ),
        None => Seq::empty(),
    }
}

/// Re-encode the session cookie so that the gateway doesn't double-decode
/// percent-escapes inside it.
pub fn forward_cookie(jar: &CookieJar) -> (r: String)
    ensures
        r@ == forwarded(session_of(*jar)),
{
    match session_cookie(jar) {
        Some(value) => encoding::encode_cookie("rl_session", value),
        None => String::new(),
    }
}

/// The URL of the caller's permission on a guild.
pub fn guild_permission_url(gateway_url: &str, guild_id: &str) -> (r: String)
    ensures
        r@ == gateway_url@ + "/auth/guild_permission?guild_id="@ + guild_id@,
{
    text::join3(gateway_url, "/auth/guild_permission?guild_id=", guild_id)
}

/// The URL of a guild's members. The plugin slug is passed so that users who opted
/// out of this plugin (or the whole guild) are stripped from the returned member
/// set: the public players page then naturally excludes them.
pub fn guild_members_url(gateway_url: &str, guild_id: &str) -> (r: String)
    ensures
        r@ == gateway_url@ + "/auth/guild_members?guild_id="@ + guild_id@
            + "&plugin=osu-player-role"@,
{
    let mut url = text::join3(gateway_url, "/auth/guild_members?guild_id=", guild_id);
    url.append("&plugin=osu-player-role");
    url
}

/// What a reply of the gateway that is no success means.
pub open spec fn refusal(
    status: u16,
    status_line: Seq<char>,
    body: Seq<char>,
    gateway_url: Seq<char>,
) -> Problem {
    if status == 401 {
        Problem::UnauthorizedWith(
            "The Auth Gateway rejected your session ("@ + status_line + "). Please sign in again."@,
        )
    } else {
        Problem::Internal(
            "Auth Gateway at "@ + gateway_url + " returned "@ + status_line + ": "@ + body,
        )
    }
}

/// Only a genuine `401 Unauthorized` is treated as "user actually logged
/// out". Every other non-2xx (gateway restart, tunnel blip, overload) is a
/// transient server problem and maps to 500: never tell a logged-in user
/// to sign in again on every hiccup.
pub fn classify_gateway_status(status: u16, body: &str, gateway_url: &str) -> (r: AppError)
    requires
        100 <= status <= 999,
    ensures
        r@ == refusal(status, gateway::status_line(status), body@, gateway_url@),
{
    let line = gateway::show_status(status);
    classify_shown_status(status, line.as_str(), body, gateway_url)
}

/// The same, given how the status is shown.
pub fn classify_shown_status(
    status: u16,
    status_line: &str,
    body: &str,
    gateway_url: &str,
) -> (r: AppError)
    ensures
        r@ == refusal(status, status_line@, body@, gateway_url@),
{
    if status == 401 {
        AppError::UnauthorizedWith(
            text::join3(
                "The Auth Gateway rejected your session (",
                status_line,
                "). Please sign in again.",
            ),
        )
    } else {
        let mut msg = text::join3("Auth Gateway at ", gateway_url, " returned ");
        msg.append(status_line);
        msg.append(": ");
        msg.append(body);
        AppError::Internal(msg)
    }
}

/// What a failed call of the gateway is reported as. `call` names the call.
pub open spec fn call_failure(
    call: Seq<char>,
    failure: Failure,
    gateway_url: Seq<char>,
) -> Problem {
    match failure {
        Failure::Unreachable { cause } => Problem::Internal(
            "auth_gateway "@ + call + " request: "@ + cause@,
        ),
        Failure::Refused { status, body } => refusal(
            status,
            gateway::status_line(status),
            body@,
            gateway_url,
        ),
        Failure::Unreadable { cause } => Problem::Internal(
            "auth_gateway response not JSON: "@ + cause@,
        ),
    }
}

fn report(call: &str, failure: &Failure, gateway_url: &str) -> (r: AppError)
    requires
        failure.valid(),
    ensures
        r@ == call_failure(call@, *failure, gateway_url@),
{
    match failure {
        Failure::Unreachable { cause } => {
            let mut msg = text::join3("auth_gateway ", call, " request: ");
            msg.append(cause.as_str());
            AppError::Internal(msg)
        },
        Failure::Refused { status, body } => classify_gateway_status(
            *status,
            body.as_str(),
            gateway_url,
        ),
        Failure::Unreadable { cause } => AppError::Internal(
            text::join2("auth_gateway response not JSON: ", cause.as_str()),
        ),
    }
}

/// What the gateway says of a caller in a guild.
#[derive(Debug, Clone, Copy, PartialEq, Eq, Structural)]
pub struct PermissionFlags {
    pub is_member: bool,
    pub is_manager: bool,
}

/// Whether a caller may manage a guild.
pub open spec fn manager_verdict(
    discord_id: String,
    gateway_url: Seq<char>,
    reply: Result<PermissionFlags, Failure>,
) -> Result<String, Problem> {
    match reply {
        Err(failure) => Err(call_failure("permission"@, failure, gateway_url)),
        Ok(flags) => if !flags.is_member {
            Err(Problem::Forbidden("You're not a member of this server."@))
        } else if !flags.is_manager {
            Err(Problem::Forbidden("You need Manage Server to do this."@))
        } else {
            Ok(discord_id)
        },
    }
}

/// Verify that the signed-in caller has Manage Server, from the reply of the
/// gateway. Returns the caller's discord_id on success.
pub fn require_manager(
    discord_id: String,
    gateway_url: &str,
    reply: Result<PermissionFlags, Failure>,
) -> (r: Result<String, AppError>)
    requires
        reply matches Err(failure) ==> failure.valid(),
    ensures
        error::outcome(r) == manager_verdict(discord_id, gateway_url@, reply),
{
    match reply {
        Err(failure) => Err(report("permission", &failure, gateway_url)),
        Ok(flags) => {
            if !flags.is_member {
                return Err(
                    AppError::Forbidden("You're not a member of this server.".to_owned()),
                );
            }
            if !flags.is_manager {
                return Err(AppError::Forbidden("You need Manage Server to do this.".to_owned()));
            }
            Ok(discord_id)
        },
    }
}

/// The bearer token of a request, where it has one.
pub open spec fn bearer(authorization: Option<Seq<char>>) -> Option<Seq<char>> {
    match authorization {
        Some(value) => if "Bearer "@.is_prefix_of(value) {
            Some(value.skip("Bearer "@.len() as int))
        } else {
            None
        },
        None => None,
    }
}

/// Extract an `Authorization: Bearer ifs:…` token if present.
pub fn extract_bearer(headers: &HeaderMap) -> (r: Option<String>)
    ensures
        text::opt_view(r) == bearer(headers::first_text(*headers, "authorization"@)),
{
    proof {
        reveal_strlit("authorization");
    }
    match headers::header_text(headers, "authorization") {
        Some(value) => bearer_token(value),
        None => None,
    }
}

/// The token of an `Authorization` header that holds one.
pub fn bearer_token(authorization: &str) -> (r: Option<String>)
    ensures
        text::opt_view(r) == bearer(Some(authorization@)),
{
    match text::strip_prefix(authorization, "Bearer ") {
        Some(token) => Some(token.to_owned()),
        None => None,
    }
}

/// The session that an iframe token proves.
#[derive(Debug, PartialEq)]
pub struct IframeSession {
    pub discord_id: String,
    pub guild_id: String,
}

/// How an admin action that isn't tied to a single role link is authorized.
#[derive(Debug, PartialEq)]
pub enum AdminAuth {
    /// By the iframe token of the request.
    Iframe { token: String },
    /// By the session cookie, which needs Manage Server on the guild.
    Cookie,
}

/// Choose how a request is authorized: a bearer token decides where there is one, and
/// never falls back to the cookie.
pub fn admin_auth(headers: &HeaderMap) -> (r: AdminAuth)
    ensures
        match bearer(headers::first_text(*headers, "authorization"@)) {
            Some(token) => r matches AdminAuth::Iframe { token: t } && t@ == token,
            None => r is Cookie,
        },
{
    match extract_bearer(headers) {
        Some(token) => AdminAuth::Iframe { token },
        None => AdminAuth::Cookie,
    }
}

/// Whether an iframe session grants access to a guild.
pub open spec fn iframe_verdict(session: Option<IframeSession>, guild_id: Seq<char>) -> Result<
    String,
    Problem,
> {
    match session {
        None => Err(
            Problem::UnauthorizedWith(
                "Your session expired. Reopen the plugin in the RoleLogic dashboard."@,
            ),
        ),
        Some(s) => if s.guild_id@ != guild_id {
            Err(Problem::Forbidden("Token does not grant access to this server."@))
        } else {
            Ok(s.discord_id)
        },
    }
}

/// Guild-scoped check of an iframe token. `session` is what the token proves.
pub fn require_guild_admin(session: Option<IframeSession>, guild_id: &str) -> (r: Result<
    String,
    AppError,
>)
    ensures
        error::outcome(r) == iframe_verdict(session, guild_id@),
{
    match session {
        None => Err(
            AppError::UnauthorizedWith(
                "Your session expired. Reopen the plugin in the RoleLogic dashboard.".to_owned(),
            ),
        ),
        Some(s) => {
            if !text::same(s.guild_id.as_str(), guild_id) {
                return Err(
                    AppError::Forbidden(
                        "Token does not grant access to this server.".to_owned(),
                    ),
                );
            }
            Ok(s.discord_id)
        },
    }
}

#[derive(Debug, PartialEq)]
pub struct GuildPermission {
    pub discord_id: String,
    pub is_member: bool,
    pub is_manager: bool,
}

/// Resolve the caller's (member, manager) flags for a guild, from the reply of the
/// gateway. Used by the public users-list page, which gates on the guild's
/// `view_permission`.
pub fn guild_permission(
    discord_id: String,
    gateway_url: &str,
    reply: Result<PermissionFlags, Failure>,
) -> (r: Result<GuildPermission, AppError>)
    requires
        reply matches Err(failure) ==> failure.valid(),
    ensures
        error::outcome(r) == match reply {
            Ok(flags) => Ok::<GuildPermission, Problem>(
                GuildPermission {
                    discord_id,
                    is_member: flags.is_member,
                    is_manager: flags.is_manager,
                },
            ),
            Err(failure) => Err::<GuildPermission, Problem>(
                call_failure("permission"@, failure, gateway_url@),
            ),
        },
{
    match reply {
        Err(failure) => Err(report("permission", &failure, gateway_url)),
        Ok(flags) => Ok(
            GuildPermission {
                discord_id,
                is_member: flags.is_member,
                is_manager: flags.is_manager,
            },
        ),
    }
}

/// The gateway's current member list and display name for a guild, from its
/// reply. The gateway only returns the list when the caller is themselves a
/// member, which blocks arbitrary guild enumeration.
pub fn guild_members(
    gateway_url: &str,
    reply: Result<(Vec<String>, Option<String>), Failure>,
) -> (r: Result<(Vec<String>, Option<String>), AppError>)
    requires
        reply matches Err(failure) ==> failure.valid(),
    ensures
        error::outcome(r) == match reply {
            Ok(members) => Ok::<(Vec<String>, Option<String>), Problem>(members),
            Err(failure) => Err::<(Vec<String>, Option<String>), Problem>(
                call_failure("members"@, failure, gateway_url@),
            ),
        },
{
    match reply {
        Err(failure) => Err(report("members", &failure, gateway_url)),
        Ok(members) => Ok(members),
    }
}

/// A caller is told to sign in again on a 401 alone: every other refusal of the
/// gateway is an internal error.
pub proof fn law_only_401_means_signed_out(
    status: u16,
    status_line: Seq<char>,
    body: Seq<char>,
    gateway_url: Seq<char>,
)
    ensures
        refusal(status, status_line, body, gateway_url) is UnauthorizedWith <==> status == 401,
        refusal(status, status_line, body, gateway_url) is Internal <==> status != 401,
{
}

/// Only a member who is a manager gets through.
pub proof fn law_only_managers_pass(
    discord_id: String,
    gateway_url: Seq<char>,
    reply: Result<PermissionFlags, Failure>,
)
    ensures
        manager_verdict(discord_id, gateway_url, reply) is Ok <==> reply == Ok::<
            PermissionFlags,
            Failure,
        >(PermissionFlags { is_member: true, is_manager: true }),
{
}

/// A token for one guild never opens another.
pub proof fn law_token_is_bound_to_its_guild(session: Option<IframeSession>, guild_id: Seq<char>)
    ensures
        iframe_verdict(session, guild_id) is Ok ==> session is Some && session->0.guild_id@
            == guild_id,
{
}

/// The token of a bearer is what follows the word and a space, whatever it is; an
/// authorization of another kind has none.
pub proof fn law_bearer_tokens_are_taken_whole(authorization: Seq<char>, token: Seq<char>)
    ensures
        bearer(Some("Bearer "@ + token)) == Some(token),
        bearer(Some(authorization)) is Some <==> exists|t: Seq<char>|
            #[trigger] ("Bearer "@ + t) == authorization,
        bearer(None) is None,
{
    let word = "Bearer "@;
    assert((word + token).skip(word.len() as int) =~= token);
    assert(word.is_prefix_of(word + token));
    if let Some(t) = bearer(Some(authorization)) {
        assert(word + t =~= authorization);
    }
    if exists|t: Seq<char>| #[trigger] (word + t) == authorization {
        let t = choose|t: Seq<char>| #[trigger] (word + t) == authorization;
        assert(word.is_prefix_of(authorization));
    }
}

/// A caller is who their session proves: without a cookie, or where its signature
/// proves nothing, nobody.
pub proof fn law_sessions_need_cookie_and_signature(
    cookie: Option<Seq<char>>,
    verified: Option<(String, String)>,
)
    ensures
        session_verdict(cookie, verified) is Ok <==> cookie is Some && verified is Some,
        session_verdict(cookie, verified) matches Ok(who) ==> verified == Some(who),
        session_verdict(cookie, verified) matches Err(p) ==> p is UnauthorizedWith,
{
}

/// A manager passes as themselves; anybody else is refused for what they lack, and
/// nobody is refused on account of a gateway that fails.
pub proof fn law_managers_pass_as_themselves(
    discord_id: String,
    gateway_url: Seq<char>,
    reply: Result<PermissionFlags, Failure>,
)
    ensures
        manager_verdict(discord_id, gateway_url, reply) matches Ok(who) ==> who == discord_id,
        reply matches Ok(flags) ==> !(flags.is_member && flags.is_manager) ==> (manager_verdict(
            discord_id,
            gateway_url,
            reply,
        ) matches Err(p) && p is Forbidden),
        reply is Err ==> (manager_verdict(discord_id, gateway_url, reply) matches Err(p) && !(p
            is Forbidden)),
{
}

/// A token opens its guild, and the caller is who it was made for.
pub proof fn law_tokens_open_their_guild(session: Option<IframeSession>, guild_id: Seq<char>)
    ensures
        session matches Some(s) ==> s.guild_id@ == guild_id ==> iframe_verdict(session, guild_id)
            == Ok::<String, Problem>(s.discord_id),
        session matches Some(s) ==> s.guild_id@ != guild_id ==> (iframe_verdict(
            session,
            guild_id,
        ) matches Err(p) && p is Forbidden),
        session is None ==> (iframe_verdict(session, guild_id) matches Err(p) && p
            is UnauthorizedWith),
{
}

/// The flags that the gateway reports are handed on as they are, for the caller they
/// are about.
pub proof fn law_permissions_are_handed_on(
    discord_id: String,
    gateway_url: &str,
    flags: PermissionFlags,
    r: Result<GuildPermission, AppError>,
)
    requires
        call_ensures(
            guild_permission,
            (discord_id, gateway_url, Ok::<PermissionFlags, Failure>(flags)),
            r,
        ),
    ensures
        r matches Ok(p) && p.discord_id == discord_id && p.is_member == flags.is_member
            && p.is_manager == flags.is_manager,
{
}

/// What the gateway replies of a guild is handed on as it is.
pub proof fn law_members_are_handed_on(
    gateway_url: &str,
    members: (Vec<String>, Option<String>),
    r: Result<(Vec<String>, Option<String>), AppError>,
)
    requires
        call_ensures(
            guild_members,
            (gateway_url, Ok::<(Vec<String>, Option<String>), Failure>(members)),
            r,
        ),
    ensures
        r matches Ok(out) && out == members,
{
}

/// Why a call of the gateway failed is in the report, and so is the status that it
/// replied with.
pub proof fn law_gateway_reports_hold_the_cause(
    call: Seq<char>,
    failure: Failure,
    gateway_url: Seq<char>,
)
    ensures
        failure matches Failure::Unreachable { cause } ==> (call_failure(
            call,
            failure,
            gateway_url,
        ) matches Problem::Internal(words) && text::has_part(words, cause@)),
        failure matches Failure::Unreadable { cause } ==> (call_failure(
            call,
            failure,
            gateway_url,
        ) matches Problem::Internal(words) && text::has_part(words, cause@)),
        failure matches Failure::Refused { status, body } ==> status != 401 ==> (call_failure(
            call,
            failure,
            gateway_url,
        ) matches Problem::Internal(words) && text::has_part(words, body@) && text::has_part(
            words,
            gateway::status_line(status),
        )),
        failure matches Failure::Refused { status, body } ==> status == 401 ==> (call_failure(
            call,
            failure,
            gateway_url,
        ) is UnauthorizedWith),
{
    let none = Seq::<char>::empty();
    match failure {
        Failure::Unreachable { cause } => {
            let words = "auth_gateway "@ + call + " request: "@ + cause@;
            text::law_a_part_cuts_the_text(words, cause@);
            assert("auth_gateway "@ + call + " request: "@ + cause@ + none =~= words);
        },
        Failure::Unreadable { cause } => {
            let words = "auth_gateway response not JSON: "@ + cause@;
            text::law_a_part_cuts_the_text(words, cause@);
            assert("auth_gateway response not JSON: "@ + cause@ + none =~= words);
        },
        Failure::Refused { status, body } => {
            let line = gateway::status_line(status);
            let words = "Auth Gateway at "@ + gateway_url + " returned "@ + line + ": "@ + body@;
            text::law_a_part_cuts_the_text(words, body@);
            text::law_a_part_cuts_the_text(words, line);
            assert("Auth Gateway at "@ + gateway_url + " returned "@ + line + ": "@ + body@ + none
                =~= words);
            assert("Auth Gateway at "@ + gateway_url + " returned "@ + line + (": "@ + body@)
                =~= words);
        },
    }
}

/// The token that a request is sent with is the token that a bearer is read as.
pub proof fn law_tokens_are_read_as_sent(access_token: &str, header: String)
    requires
        call_ensures(crate::services::osu::authorization, (access_token,), header),
    ensures
        bearer(Some(header@)) == Some(access_token@),
{
    law_bearer_tokens_are_taken_whole(header@, access_token@);
}

/// The gateway is asked about the guild that the request is about, for this plugin.
pub proof fn law_guilds_are_asked_about_by_id(
    gateway_url: &str,
    guild_id: &str,
    permission: String,
    members: String,
)
    requires
        call_ensures(guild_permission_url, (gateway_url, guild_id), permission),
        call_ensures(guild_members_url, (gateway_url, guild_id), members),
    ensures
        permission@ == gateway_url@ + "/auth/guild_permission?guild_id="@ + guild_id@,
        (gateway_url@ + "/auth/guild_members?guild_id="@ + guild_id@ + "&plugin="@).is_prefix_of(
            members@,
        ),
{
    reveal_strlit("&plugin=osu-player-role");
    reveal_strlit("&plugin=");
    assert("&plugin="@ =~= "&plugin=osu-player-role"@.take(8));
    let head = gateway_url@ + "/auth/guild_members?guild_id="@ + guild_id@;
    assert(head + "&plugin="@ =~= members@.take((head + "&plugin="@).len() as int));
}

} // verus!
