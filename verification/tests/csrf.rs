//! The origin check on concrete requests.

use axum::http::{HeaderMap, HeaderValue};
use osu_player_role::error::AppError;
use osu_player_role::services::csrf::{judge_origin, verify_origin};

fn with(origin: &str) -> HeaderMap {
    let mut h = HeaderMap::new();
    h.insert("origin", HeaderValue::from_str(origin).unwrap());
    h
}

fn allowed() -> Vec<String> {
    vec!["https://app.rolelogic.com".into(), "https://plugin.example.com".into()]
}

#[test]
fn accepts_exact_match() {
    assert!(verify_origin(&with("https://app.rolelogic.com"), &allowed()).is_ok());
}

#[test]
fn accepts_trailing_slash() {
    assert!(verify_origin(&with("https://app.rolelogic.com/"), &allowed()).is_ok());
}

#[test]
fn rejects_missing() {
    assert!(verify_origin(&HeaderMap::new(), &allowed()).is_err());
}

#[test]
fn rejects_attacker_origin() {
    assert!(verify_origin(&with("https://evil.example"), &allowed()).is_err());
}

#[test]
fn rejects_subdomain_of_allowed() {
    assert!(verify_origin(&with("https://attacker.rolelogic.com"), &allowed()).is_err());
}

#[test]
fn the_first_origin_counts() {
    let mut h = with("https://evil.example");
    h.append("origin", HeaderValue::from_static("https://app.rolelogic.com"));
    match verify_origin(&h, &allowed()) {
        Err(AppError::Forbidden(msg)) => assert_eq!(
            msg,
            "Origin 'https://evil.example' is not allowed for state-changing requests."
        ),
        _ => panic!(),
    }
}

#[test]
fn an_unreadable_origin_is_a_missing_one() {
    let mut h = HeaderMap::new();
    h.insert("origin", HeaderValue::from_bytes(b"https://\xe4").unwrap());
    match verify_origin(&h, &allowed()) {
        Err(AppError::Forbidden(msg)) => {
            assert_eq!(msg, "State-changing requests must include an Origin header.")
        }
        _ => panic!(),
    }
}

#[test]
fn slashes_on_the_list_are_ignored_too() {
    let list = vec!["https://a.example///".to_string()];
    assert!(judge_origin(Some("https://a.example"), &list).is_ok());
    assert!(judge_origin(Some("https://a.example/x"), &list).is_err());
    assert!(judge_origin(None, &list).is_err());
}
