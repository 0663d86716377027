//! PKCE and the requests to osu!.

use osu_player_role::models::mode::Mode;
use osu_player_role::services::gateway::Failure;
use osu_player_role::services::osu::{
    api_error, authorization, authorize_url_with, build_authorize_url, me_url, new_code_verifier,
    pkce_s256, refused, user_url, verifier_from, OsuCall, OsuClient, API_BASE, TOKEN_URL,
};

#[test]
fn pkce_known_vector() {
    // RFC 7636 §B example
    let verifier = "dBjftJeZ4CVP-mB92K27uhbUJU1p1r_wW1gFWFOEjXk";
    let challenge = pkce_s256(verifier);
    assert_eq!(challenge, "E9Melhoa2OwvFrEMTJguCHaoeK1t8URWbuGJSstw-cM");
}

#[test]
fn code_verifier_charset() {
    let v = new_code_verifier();
    assert!(v.len() >= 43);
    assert!(v.chars().all(|c| c.is_ascii_alphanumeric() || matches!(c, '-' | '_')));
}

#[test]
fn verifiers_differ_and_have_their_length() {
    let a = new_code_verifier();
    let b = new_code_verifier();
    assert_eq!(a.len(), 86);
    assert_ne!(a, b);
}

#[test]
fn base64_of_known_bytes() {
    let mut bytes = [0u8; 64];
    bytes[0] = 0xfb;
    bytes[1] = 0xff;
    bytes[2] = 0xfe;
    bytes[63] = 0x3f;
    let text = verifier_from(&bytes);
    assert!(text.starts_with("-__-"));
    assert!(text.ends_with("Pw"));
    assert_eq!(text.len(), 86);
}

#[test]
fn authorize_url_is_form_encoded() {
    assert_eq!(
        authorize_url_with("42", "https://a.example/cb?x=1&y=ü", "s t~*", "CH-_"),
        "https://osu.ppy.sh/oauth/authorize?client_id=42\
         &redirect_uri=https%3A%2F%2Fa.example%2Fcb%3Fx%3D1%26y%3D%C3%BC&response_type=code\
         &scope=identify+public&state=s+t%7E*&code_challenge=CH-_&code_challenge_method=S256"
    );
}

#[test]
fn authorize_url_carries_the_challenge() {
    let client = OsuClient::new("7".to_string(), "secret".to_string());
    let url = client.authorize_url(
        "https://a.example/cb",
        "state",
        "dBjftJeZ4CVP-mB92K27uhbUJU1p1r_wW1gFWFOEjXk",
    );
    assert!(url.contains("code_challenge=E9Melhoa2OwvFrEMTJguCHaoeK1t8URWbuGJSstw-cM"));
    assert!(!url.contains("secret"));
    assert_eq!(
        url,
        build_authorize_url(
            client.client_id(),
            "https://a.example/cb",
            "state",
            "dBjftJeZ4CVP-mB92K27uhbUJU1p1r_wW1gFWFOEjXk",
        )
    );
}

#[test]
fn token_forms() {
    let client = OsuClient::new("7".to_string(), "hush".to_string());
    let form: Vec<(&str, String)> = client
        .exchange_form("code", "uri", "verifier")
        .into_iter()
        .map(|f| (f.name, f.value))
        .collect();
    assert_eq!(
        form,
        vec![
            ("grant_type", "authorization_code".to_string()),
            ("client_id", "7".to_string()),
            ("client_secret", "hush".to_string()),
            ("redirect_uri", "uri".to_string()),
            ("code", "code".to_string()),
            ("code_verifier", "verifier".to_string()),
        ]
    );
    let form = client.client_credentials_form();
    assert_eq!(form.len(), 4);
    assert_eq!(form[3].name, "scope");
    assert_eq!(form[3].value, "public");
    assert_eq!(TOKEN_URL, "https://osu.ppy.sh/oauth/token");
}

#[test]
fn urls_of_the_api() {
    assert_eq!(me_url(None), format!("{API_BASE}/me"));
    assert_eq!(me_url(Some(Mode::Fruits)), "https://osu.ppy.sh/api/v2/me/fruits");
    assert_eq!(user_url(-5, Mode::Mania), "https://osu.ppy.sh/api/v2/users/-5/mania");
    assert_eq!(authorization("tok"), "Bearer tok");
}

#[test]
fn failures_are_reported_by_call() {
    let unreachable = Failure::Unreachable { cause: "timeout".to_string() };
    assert_eq!(
        api_error(OsuCall::Exchange, &unreachable).message(),
        "osu! API error: token exchange failed: timeout"
    );
    let garbage = Failure::Unreadable { cause: "eof".to_string() };
    assert_eq!(
        api_error(OsuCall::ClientCredentials, &garbage).message(),
        "osu! API error: token response not JSON: eof"
    );
    assert_eq!(
        api_error(OsuCall::User(9), &garbage).message(),
        "osu! API error: /users response not JSON: eof"
    );
    let limited = Failure::Refused { status: 429, body: "slow".to_string() };
    assert_eq!(
        api_error(OsuCall::Me, &limited).message(),
        "osu! API error: /me returned 429 Too Many Requests: slow"
    );
    let missing = Failure::Refused { status: 404, body: "{}".to_string() };
    assert_eq!(api_error(OsuCall::User(9), &missing).message(), "osu! API error: user 9 not found");
    assert_eq!(
        api_error(OsuCall::Me, &missing).message(),
        "osu! API error: /me returned 404 Not Found: {}"
    );
    assert_eq!(
        refused(OsuCall::User(9), 500, "500 X", "b").message(),
        "osu! API error: /users/9 returned 500 X: b"
    );
}
