//! Sessions, permissions and headers.

use axum::http::{HeaderMap, HeaderName, HeaderValue};
use axum_extra::extract::cookie::{Cookie, CookieJar};
use osu_player_role::error::AppError;
use osu_player_role::headers;
use osu_player_role::services::auth::{
    admin_auth, bearer_token, classify_gateway_status, classify_shown_status, extract_bearer,
    forward_cookie, guild_members, guild_members_url, guild_permission, guild_permission_url,
    judge_session, read_session, require_guild_admin, require_manager, session_cookie, AdminAuth,
    GuildPermission, IframeSession, PermissionFlags,
};
use osu_player_role::services::auth_gateway::{
    fetch_guild_member_ids, fetch_guild_member_ids_full, fetch_user_guild_ids,
    guild_member_ids_url, user_guild_ids_url,
};
use osu_player_role::services::gateway::{is_success, Failure};
use osu_player_role::services::security_headers::{admin_iframe_csp, baseline, PUBLIC_PAGE_CSP};

fn jar(value: &str) -> CookieJar {
    CookieJar::new().add(Cookie::new("rl_session", value.to_string()))
}

fn said<T>(r: Result<T, AppError>) -> String {
    match r {
        Ok(_) => panic!("expected an error"),
        Err(e) => e.message(),
    }
}

fn bearer(value: &str) -> HeaderMap {
    let mut h = HeaderMap::new();
    h.insert("authorization", HeaderValue::from_str(value).unwrap());
    h
}

#[test]
fn sessions_need_cookie_and_signature() {
    let who = || Some(("1".to_string(), "Ann".to_string()));
    assert_eq!(
        said(read_session(&CookieJar::new(), who())),
        "Unauthorized: Not signed in. Log in with Discord to continue."
    );
    assert_eq!(
        said(read_session(&jar("x"), None)),
        "Unauthorized: Session expired or invalid."
    );
    assert_eq!(read_session(&jar("x"), who()), Ok(("1".to_string(), "Ann".to_string())));
    assert_eq!(judge_session(Some("x"), who()), Ok(("1".to_string(), "Ann".to_string())));
    assert_eq!(session_cookie(&jar("a.b")), Some("a.b"));
    assert_eq!(session_cookie(&CookieJar::new()), None);
}

#[test]
fn cookies_are_forwarded_encoded() {
    assert_eq!(forward_cookie(&jar("a=b;c%20é(")), "rl_session=a%3Db%3Bc%2520%C3%A9%28");
    assert_eq!(forward_cookie(&jar("plain-._~!")), "rl_session=plain-._~!");
    assert_eq!(forward_cookie(&CookieJar::new()), "");
}

#[test]
fn only_401_signs_out() {
    assert_eq!(
        classify_gateway_status(401, "b", "https://gw").message(),
        "Unauthorized: The Auth Gateway rejected your session (401 Unauthorized). \
         Please sign in again."
    );
    assert_eq!(
        classify_gateway_status(503, "down", "https://gw").message(),
        "Internal error: Auth Gateway at https://gw returned 503 Service Unavailable: down"
    );
    assert_eq!(
        classify_gateway_status(799, "", "https://gw").message(),
        "Internal error: Auth Gateway at https://gw returned 799 <unknown status code>: "
    );
    assert_eq!(
        classify_shown_status(403, "403 No", "b", "u").message(),
        "Internal error: Auth Gateway at u returned 403 No: b"
    );
}

#[test]
fn managers_pass() {
    let flags = |is_member, is_manager| Ok(PermissionFlags { is_member, is_manager });
    assert_eq!(require_manager("1".to_string(), "u", flags(true, true)), Ok("1".to_string()));
    assert_eq!(
        said(require_manager("1".to_string(), "u", flags(true, false))),
        "Forbidden: You need Manage Server to do this."
    );
    assert_eq!(
        said(require_manager("1".to_string(), "u", flags(false, true))),
        "Forbidden: You're not a member of this server."
    );
    let lost = Err(Failure::Unreachable { cause: "refused".to_string() });
    assert_eq!(
        said(require_manager("1".to_string(), "u", lost)),
        "Internal error: auth_gateway permission request: refused"
    );
    let garbage = Err(Failure::Unreadable { cause: "eof".to_string() });
    assert_eq!(
        said(require_manager("1".to_string(), "u", garbage)),
        "Internal error: auth_gateway response not JSON: eof"
    );
}

#[test]
fn permissions_and_members() {
    assert_eq!(
        guild_permission(
            "1".to_string(),
            "u",
            Ok(PermissionFlags { is_member: true, is_manager: false })
        ),
        Ok(GuildPermission { discord_id: "1".to_string(), is_member: true, is_manager: false })
    );
    assert_eq!(
        said(guild_permission(
            "1".to_string(),
            "u",
            Err(Failure::Refused { status: 500, body: "b".to_string() })
        )),
        "Internal error: Auth Gateway at u returned 500 Internal Server Error: b"
    );
    let members = (vec!["1".to_string()], Some("Guild".to_string()));
    assert_eq!(guild_members("u", Ok(members.clone())), Ok(members));
    assert_eq!(
        said(guild_members("u", Err(Failure::Unreachable { cause: "x".to_string() }))),
        "Internal error: auth_gateway members request: x"
    );
    assert_eq!(guild_permission_url("https://gw", "9"), "https://gw/auth/guild_permission?guild_id=9");
    assert_eq!(
        guild_members_url("https://gw", "9"),
        "https://gw/auth/guild_members?guild_id=9&plugin=osu-player-role"
    );
}

#[test]
fn internal_calls() {
    assert_eq!(user_guild_ids_url("https://gw"), "https://gw/auth/internal/user_guild_ids");
    assert_eq!(guild_member_ids_url("https://gw"), "https://gw/auth/internal/guild_member_ids");
    assert_eq!(fetch_user_guild_ids(Ok(vec!["g".to_string()])), Ok(vec!["g".to_string()]));
    assert_eq!(
        said(fetch_user_guild_ids(Err(Failure::Refused { status: 403, body: "key".to_string() }))),
        "Internal error: auth_gateway user_guild_ids returned 403 Forbidden: key"
    );
    assert_eq!(
        fetch_guild_member_ids(Ok((vec!["1".to_string()], None))),
        Ok(vec!["1".to_string()])
    );
    assert_eq!(
        said(fetch_guild_member_ids(Err(Failure::Unreachable { cause: "x".to_string() }))),
        "Internal error: auth_gateway request failed: x"
    );
    assert_eq!(
        said(fetch_guild_member_ids_full(Err(Failure::Unreadable { cause: "x".to_string() }))),
        "Internal error: auth_gateway response not JSON: x"
    );
    assert!(is_success(200) && is_success(299) && !is_success(199) && !is_success(300));
}

#[test]
fn bearer_tokens() {
    assert_eq!(extract_bearer(&bearer("Bearer ifs:abc")), Some("ifs:abc".to_string()));
    assert_eq!(extract_bearer(&bearer("bearer ifs:abc")), None);
    assert_eq!(extract_bearer(&HeaderMap::new()), None);
    assert_eq!(bearer_token("Bearer "), Some(String::new()));
    assert_eq!(
        admin_auth(&bearer("Bearer t")),
        AdminAuth::Iframe { token: "t".to_string() }
    );
    assert_eq!(admin_auth(&bearer("Basic t")), AdminAuth::Cookie);
}

#[test]
fn iframe_sessions_are_bound_to_their_guild() {
    let session = |guild: &str| {
        Some(IframeSession { discord_id: "1".to_string(), guild_id: guild.to_string() })
    };
    assert_eq!(require_guild_admin(session("g"), "g"), Ok("1".to_string()));
    assert_eq!(
        said(require_guild_admin(session("h"), "g")),
        "Forbidden: Token does not grant access to this server."
    );
    assert_eq!(
        said(require_guild_admin(None, "g")),
        "Unauthorized: Your session expired. Reopen the plugin in the RoleLogic dashboard."
    );
}

#[test]
fn baseline_adds_what_is_missing() {
    let mut h = HeaderMap::new();
    h.insert("content-security-policy", HeaderValue::from_static("frame-ancestors *"));
    assert!(baseline(&mut h));
    assert_eq!(h["content-security-policy"], "frame-ancestors *");
    assert_eq!(h["x-content-type-options"], "nosniff");
    assert_eq!(h["referrer-policy"], "strict-origin-when-cross-origin");
    assert_eq!(h["strict-transport-security"], "max-age=31536000; includeSubDomains");
    let once = h.clone();
    assert!(baseline(&mut h));
    assert_eq!(h, once);
    let mut empty = HeaderMap::new();
    assert!(baseline(&mut empty));
    assert_eq!(empty["content-security-policy"], PUBLIC_PAGE_CSP);
}

fn crowded(names: usize) -> HeaderMap {
    let mut h = HeaderMap::new();
    for i in 0..names {
        let name = HeaderName::from_bytes(format!("x-{i}").as_bytes()).unwrap();
        h.insert(name, HeaderValue::from_static("v"));
    }
    h
}

#[test]
fn a_large_response_is_secured() {
    for names in [headers::MAX_NAMES - 4, headers::MAX_NAMES, 20_000] {
        let mut h = crowded(names);
        assert!(baseline(&mut h));
        assert_eq!(h.keys_len(), names + 4);
    }
}

#[test]
fn a_full_response_is_left_alone() {
    let mut h = crowded(24_576);
    assert!(!baseline(&mut h));
    assert_eq!(h.keys_len(), 24_576);
}

#[test]
fn iframe_policy() {
    assert_eq!(admin_iframe_csp(Some("https://d.example")), "frame-ancestors https://d.example");
    assert_eq!(admin_iframe_csp(None), "frame-ancestors *");
}

#[test]
fn header_text_reads_visible_ascii() {
    let mut h = HeaderMap::new();
    h.insert("x-tab", HeaderValue::from_bytes(b"a\tb ~").unwrap());
    h.insert("x-high", HeaderValue::from_bytes(b"a\xff").unwrap());
    assert_eq!(headers::header_text(&h, "x-tab"), Some("a\tb ~"));
    assert_eq!(headers::header_text(&h, "x-high"), None);
    assert_eq!(headers::header_text(&h, "x-none"), None);
}
