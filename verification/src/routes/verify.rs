//! Member-facing verification flow: link an osu! account to a Discord ID.
//!
//! Routes:
//!   GET  /verify: landing page (HTML)
//!   POST /verify/login: redirect to Auth Gateway Discord login
//!   POST /verify/osu: start osu! OAuth (PKCE)
//!   GET  /verify/status: JSON status the page's JS reads
//!   POST /verify/unlink: self-service unlink

use crate::config;
use crate::config::OsuConfig;
use crate::encoding;
use crate::entropy;
use crate::error;
use crate::error::{AppError, Problem};
use crate::json::{Json, Value};
use crate::routes::oauth;
use crate::services::osu;
use crate::text;
use vstd::prelude::*;
use vstd::string::*;

verus! {

/// The landing page: its template with the base URL filled in.
pub fn verify_page(template: &str, base_url: &str) -> (r: String)
    ensures
        r@ == text::replaced(template@, "{{BASE_URL}}"@, base_url@),
{
    proof {
        reveal_strlit("{{BASE_URL}}");
    }
    text::replace(template, "{{BASE_URL}}", base_url)
}

/// The status that the page reads: who is signed in, and which account is linked.
pub open spec fn status_json(
    discord: Option<(String, String)>,
    osu_link: Option<(i64, String)>,
    osu_oauth_configured: bool,
) -> Json {
    Json::object().with("signed_in_discord"@, Json::Bool(discord is Some)).with(
        "discord_username"@,
        match discord {
            Some((_, name)) => Json::Text(name@),
            None => Json::Null,
        },
    ).with("linked_osu"@, Json::Bool(osu_link is Some)).with(
        "osu_user_id"@,
        match osu_link {
            Some((id, _)) => Json::Int(id as int),
            None => Json::Null,
        },
    ).with(
        "osu_username"@,
        match osu_link {
            Some((_, name)) => Json::Text(name@),
            None => Json::Null,
        },
    ).with("osu_oauth_configured"@, Json::Bool(osu_oauth_configured))
}

/// Answer the status request. `discord` is the caller's session, `osu_link` their
/// linked account. Linking is configured where both credentials are there.
pub fn verify_status(
    discord: Option<(String, String)>,
    osu_link: Option<(i64, String)>,
    osu: &OsuConfig,
) -> (r: Value)
    ensures
        r@ == status_json(
            discord,
            osu_link,
            osu.client_id is Some && osu.client_secret is Some,
        ),
{
    let configured = osu.client_id.is_some() && osu.client_secret.is_some();
    let signed_in = discord.is_some();
    let discord_username = match &discord {
        Some((_, name)) => Value::text(name.as_str()),
        None => Value::Null,
    };
    let linked = osu_link.is_some();
    let osu_user_id = match &osu_link {
        Some((id, _)) => Value::number(*id),
        None => Value::Null,
    };
    let osu_username = match &osu_link {
        Some((_, name)) => Value::text(name.as_str()),
        None => Value::Null,
    };
    Value::object().with("signed_in_discord", Value::Bool(signed_in)).with(
        "discord_username",
        discord_username,
    ).with("linked_osu", Value::Bool(linked)).with("osu_user_id", osu_user_id).with(
        "osu_username",
        osu_username,
    ).with("osu_oauth_configured", Value::Bool(configured))
}

/// What an unlink comes to: the account that was unlinked, if there was one.
pub open spec fn unlink_verdict(removed: Option<i64>) -> Result<i64, Problem> {
    match removed {
        Some(id) => Ok(id),
        None => Err(Problem::NotFound("No linked osu! account to unlink."@)),
    }
}

/// Judge an unlink by the account that was removed.
pub fn verify_unlink(removed: Option<i64>) -> (r: Result<i64, AppError>)
    ensures
        error::outcome(r) == unlink_verdict(removed),
{
    match removed {
        Some(id) => Ok(id),
        None => Err(AppError::NotFound("No linked osu! account to unlink.".to_owned())),
    }
}

/// The body of a plain success.
pub fn success_body() -> (r: Value)
    ensures
        r@ == Json::object().with("success"@, Json::Bool(true)),
{
    Value::object().with("success", Value::Bool(true))
}

/// The path of a URL without slashes at its end: empty where it has none.
pub open spec fn bare_path(base_url: Seq<char>) -> Seq<char> {
    match config::path_start(base_url) {
        Some(i) => text::trimmed_end_of(base_url.skip(i), '/'),
        None => Seq::empty(),
    }
}

/// The path of the base URL.
pub fn path_only(base_url: &str) -> (r: String)
    ensures
        r@ == bare_path(base_url@),
{
    let chars = text::chars_of(base_url);
    match config::find_path(&chars) {
        Some(i) => {
            proof {
                assert(base_url@.subrange(i as int, base_url@.len() as int) =~= base_url@.skip(
                    i as int,
                ));
            }
            text::trim_end_of(base_url.substring_char(i, chars.len()), '/').to_owned()
        },
        None => String::new(),
    }
}

/// The URL at which a member signs in with Discord. Convention 27: login redirects
/// use a *relative* `return_to=`.
pub fn verify_login(base_url: &str, auth_gateway_url: &str) -> (r: String)
    ensures
        r@ == auth_gateway_url@ + "/auth/login?return_to="@ + encoding::url_encoded(
            bare_path(base_url@) + "/verify"@,
        ),
{
    let path = path_only(base_url);
    let return_to = text::join2(path.as_str(), "/verify");
    let encoded = encoding::url_encode(return_to.as_str());
    text::join3(auth_gateway_url, "/auth/login?return_to=", encoded.as_str())
}

/// Whether linking can start: the client id, or what is not configured.
pub open spec fn link_client(osu: OsuConfig) -> Result<Seq<char>, Problem> {
    match (osu.client_id, osu.client_secret) {
        (None, _) => Err(
            Problem::Internal(
                "OSU_CLIENT_ID is not configured on this server. Ask the operator to set it."@,
            ),
        ),
        (Some(_), None) => Err(
            Problem::Internal("OSU_CLIENT_SECRET is not configured on this server."@),
        ),
        (Some(id), Some(_)) => Ok(id@),
    }
}

/// What a link flow starts with.
#[derive(Debug, PartialEq)]
pub struct LinkStart {
    /// The one-shot state that comes back in the callback.
    pub state_token: String,
    pub code_verifier: String,
    pub authorize_url: String,
}

/// Start the osu! OAuth flow: a fresh state and verifier, and the URL that the page
/// sends the member to. The secret is needed at exchange time only, but is asked
/// for here so that the member gets a clean error before the redirect dance.
pub fn verify_osu(osu: &OsuConfig, base_url: &str) -> (r: Result<LinkStart, AppError>)
    ensures
        match r {
            Ok(start) => {
                &&& link_client(*osu) is Ok
                &&& entropy::is_uuid_v4(start.state_token@)
                &&& osu::is_verifier(start.code_verifier@)
                &&& start.authorize_url@ == osu::authorize_location(
                    link_client(*osu)->Ok_0,
                    oauth::callback_location(base_url@),
                    start.state_token@,
                    osu::challenge(start.code_verifier@),
                )
            },
            Err(e) => link_client(*osu) == Err::<Seq<char>, Problem>(e@),
        },
{
    let client_id = match &osu.client_id {
        Some(id) => id.as_str(),
        None => return Err(
            AppError::Internal(
                "OSU_CLIENT_ID is not configured on this server. Ask the operator to set it.".to_owned(),
            ),
        ),
    };
    if osu.client_secret.is_none() {
        return Err(
            AppError::Internal("OSU_CLIENT_SECRET is not configured on this server.".to_owned()),
        );
    }
    let state_token = entropy::random_uuid();
    let code_verifier = osu::new_code_verifier();
    let redirect_uri = oauth::redirect_uri(base_url);
    let authorize_url = osu::build_authorize_url(
        client_id,
        redirect_uri.as_str(),
        state_token.as_str(),
        code_verifier.as_str(),
    );
    Ok(LinkStart { state_token, code_verifier, authorize_url })
}

/// The answer that carries the authorize URL: the page does the redirect so the
/// click is unmistakably a user action.
pub fn authorize_body(authorize_url: &str) -> (r: Value)
    ensures
        r@ == Json::object().with("authorize_url"@, Json::Text(authorize_url@)),
{
    Value::object().with("authorize_url", Value::text(authorize_url))
}

/// A URL with a path is its origin, its bare path and slashes: without the slashes
/// at its end it is the two put together. A URL without a host and with nothing but
/// slashes for a path (`http:////`) is left out of the second half, where those of
/// the scheme go as well.
pub proof fn law_origin_and_path_recompose(url: Seq<char>)
    requires
        config::path_start(url) is Some,
    ensures
        (config::origin(url) + bare_path(url)).is_prefix_of(url),
        bare_path(url).len() > 0 || config::origin(url).last() != '/' ==> config::origin(url)
            + bare_path(url) == text::trimmed_end_of(url, '/'),
{
    let i = config::path_start(url)->0;
    let origin = config::origin(url);
    assert(3 <= i < url.len()) by {
        reveal_strlit("://");
        reveal_strlit("/");
        text::lemma_index_from(url, "://"@, 0);
        let scheme_end = text::index_from(url, "://"@, 0)->0;
        text::lemma_index_from(url, "/"@, scheme_end + 3);
    }
    lemma_trimmed_is_prefix(url.skip(i), '/');
    let path = bare_path(url);
    assert(path =~= url.skip(i).take(path.len() as int));
    assert(origin + path =~= url.take(i + path.len()));
    if path.len() > 0 || origin.last() != '/' {
        lemma_trimmed_behind(origin, url.skip(i), '/');
        assert(origin + url.skip(i) =~= url);
    }
}

/// Trimming the end of a text leaves what stands before it, unless the trimming
/// reaches through.
proof fn lemma_trimmed_behind(front: Seq<char>, s: Seq<char>, c: char)
    requires
        front.len() > 0,
        text::trimmed_end_of(s, c).len() > 0 || front.last() != c,
    ensures
        text::trimmed_end_of(front + s, c) == front + text::trimmed_end_of(s, c),
    decreases s.len(),
{
    if s.len() == 0 {
        assert(front + s =~= front);
    } else if s.last() == c {
        assert((front + s).drop_last() =~= front + s.drop_last());
        lemma_trimmed_behind(front, s.drop_last(), c);
    }
}

proof fn lemma_trimmed_is_prefix(s: Seq<char>, c: char)
    ensures
        text::trimmed_end_of(s, c).is_prefix_of(s),
    decreases s.len(),
{
    if s.len() > 0 && s.last() == c {
        lemma_trimmed_is_prefix(s.drop_last(), c);
    }
}

/// The page learns who is signed in and which account is linked, each under its own
/// name, and nothing of a session or an account that is not there.
pub proof fn law_status_tells_session_and_account(
    discord: Option<(String, String)>,
    osu_link: Option<(i64, String)>,
    osu: &OsuConfig,
    r: Value,
)
    requires
        call_ensures(verify_status, (discord, osu_link, osu), r),
    ensures
        r@.field("signed_in_discord"@) == Some(Json::Bool(discord is Some)),
        r@.field("discord_username"@) == Some(
            match discord {
                Some(who) => Json::Text(who.1@),
                None => Json::Null,
            },
        ),
        r@.field("linked_osu"@) == Some(Json::Bool(osu_link is Some)),
        r@.field("osu_user_id"@) == Some(
            match osu_link {
                Some(account) => Json::Int(account.0 as int),
                None => Json::Null,
            },
        ),
        r@.field("osu_username"@) == Some(
            match osu_link {
                Some(account) => Json::Text(account.1@),
                None => Json::Null,
            },
        ),
        r@.field("osu_oauth_configured"@) == Some(
            Json::Bool(!(osu.client_id is None || osu.client_secret is None)),
        ),
{
    reveal_strlit("signed_in_discord");
    reveal_strlit("discord_username");
    reveal_strlit("linked_osu");
    reveal_strlit("osu_user_id");
    reveal_strlit("osu_username");
    reveal_strlit("osu_oauth_configured");
    assert("signed_in_discord"@.len() == 17 && "signed_in_discord"@[0] == 's');
    assert("discord_username"@.len() == 16 && "discord_username"@[0] == 'd');
    assert("linked_osu"@.len() == 10 && "linked_osu"@[0] == 'l');
    assert("osu_user_id"@.len() == 11 && "osu_user_id"@[0] == 'o');
    assert("osu_username"@.len() == 12 && "osu_username"@[0] == 'o');
    assert("osu_oauth_configured"@.len() == 20 && "osu_oauth_configured"@[0] == 'o');
    let j = r@;
    assert(j->Fields_0[0].0 == "signed_in_discord"@);
    assert(j->Fields_0[1].0 == "discord_username"@);
    assert(j->Fields_0[2].0 == "linked_osu"@);
    assert(j->Fields_0[3].0 == "osu_user_id"@);
    assert(j->Fields_0[4].0 == "osu_username"@);
    assert(j->Fields_0[5].0 == "osu_oauth_configured"@);
    crate::json::lemma_field_at(j->Fields_0, 0);
    crate::json::lemma_field_at(j->Fields_0, 1);
    crate::json::lemma_field_at(j->Fields_0, 2);
    crate::json::lemma_field_at(j->Fields_0, 3);
    crate::json::lemma_field_at(j->Fields_0, 4);
    crate::json::lemma_field_at(j->Fields_0, 5);
}

/// An unlink reports the account that it removed, and that there was none otherwise.
pub proof fn law_unlinks_report_the_account(removed: Option<i64>)
    ensures
        removed matches Some(id) ==> unlink_verdict(removed) == Ok::<i64, Problem>(id),
        removed is None ==> (unlink_verdict(removed) matches Err(p) && p is NotFound),
{
}

/// A flow that starts sends the member to the application that is configured, with the
/// state and the challenge of what is stored for it; it starts exactly when both
/// credentials are there.
pub proof fn law_link_flows_carry_their_secrets(
    osu: &OsuConfig,
    base_url: &str,
    r: Result<LinkStart, AppError>,
)
    requires
        call_ensures(verify_osu, (osu, base_url), r),
    ensures
        r is Ok <==> osu.client_id is Some && osu.client_secret is Some,
        r matches Err(e) ==> e is Internal,
        r matches Ok(start) ==> exists|fields: Seq<Seq<char>>|
            {
                &&& start.authorize_url@ == "https://osu.ppy.sh/oauth/authorize?"@
                    + #[trigger] text::joined(fields, "&"@)
                &&& fields.contains(encoding::form_field("client_id"@, osu.client_id->0@))
                &&& fields.contains(encoding::form_field("state"@, start.state_token@))
                &&& fields.contains(
                    encoding::form_field(
                        "code_challenge"@,
                        osu::challenge(start.code_verifier@),
                    ),
                )
                &&& fields.contains(
                    encoding::form_field(
                        "redirect_uri"@,
                        text::trimmed_end_of(base_url@, '/') + "/oauth/osu/callback"@,
                    ),
                )
                &&& fields.contains(encoding::form_field("response_type"@, "code"@))
                &&& fields.contains(encoding::form_field("code_challenge_method"@, "S256"@))
            },
{
    if let Ok(start) = r {
        let fields = osu::authorize_fields(
            osu.client_id->0@,
            oauth::callback_location(base_url@),
            start.state_token@,
            osu::challenge(start.code_verifier@),
        );
        reveal_strlit("https://osu.ppy.sh/oauth/authorize?");
        reveal_strlit("https://osu.ppy.sh/oauth/authorize");
        reveal_strlit("?");
        assert("https://osu.ppy.sh/oauth/authorize?"@ =~= "https://osu.ppy.sh/oauth/authorize"@
            + "?"@);
        assert(fields[0] == encoding::form_field("client_id"@, osu.client_id->0@));
        assert(fields[1] == encoding::form_field(
            "redirect_uri"@,
            oauth::callback_location(base_url@),
        ));
        assert(fields[2] == encoding::form_field("response_type"@, "code"@));
        assert(fields[4] == encoding::form_field("state"@, start.state_token@));
        assert(fields[5] == encoding::form_field(
            "code_challenge"@,
            osu::challenge(start.code_verifier@),
        ));
        assert(fields[6] == encoding::form_field("code_challenge_method"@, "S256"@));
        assert(start.authorize_url@ =~= "https://osu.ppy.sh/oauth/authorize?"@ + text::joined(
            fields,
            "&"@,
        ));
    }
}

/// A member who signs in comes back to the verify page of the plugin, on the site of the
/// gateway: the way back is the path of the base URL, and names no host.
pub proof fn law_logins_return_to_the_plugin(base_url: &str, auth_gateway_url: &str, r: String)
    requires
        call_ensures(verify_login, (base_url, auth_gateway_url), r),
        config::path_start(base_url@) is Some,
    ensures
        exists|path: Seq<char>|
            (config::origin(base_url@) + path).is_prefix_of(base_url@) && r@ == auth_gateway_url@
                + "/auth/login?return_to="@ + #[trigger] encoding::url_encoded(
                path + "/verify"@,
            ),
{
    law_origin_and_path_recompose(base_url@);
    let path = bare_path(base_url@);
    assert(r@ == auth_gateway_url@ + "/auth/login?return_to="@ + encoding::url_encoded(
        path + "/verify"@,
    ));
}

/// The landing page is its template with the base URL in its place.
pub proof fn law_landing_pages_are_filled_in(
    x: Seq<char>,
    y: Seq<char>,
    template: &str,
    base_url: &str,
    page: String,
)
    requires
        call_ensures(verify_page, (template, base_url), page),
        !x.contains('{'),
        !y.contains('{'),
    ensures
        template@ == x + "{{BASE_URL}}"@ + y ==> page@ == x + base_url@ + y,
        template@ == x + y ==> page@ == x + y,
{
    reveal_strlit("{{BASE_URL}}");
    assert("{{BASE_URL}}"@[0] == '{');
    text::law_replacing_fills_the_place(x, "{{BASE_URL}}"@, y, base_url@);
}

} // verus!
