//! The configuration from concrete environments.

use osu_player_role::config::{derive_origin, AppConfig, Environment};
use osu_player_role::json::render;
use osu_player_role::schema::{accept_empty_config, build_iframe_config};

fn env(pairs: &[(&str, &str)]) -> Environment {
    Environment {
        vars: pairs.iter().map(|(k, v)| (k.to_string(), v.to_string())).collect(),
    }
}

const REQUIRED: [(&str, &str); 4] = [
    ("BASE_URL", "https://plugin.example.com/osu-player-role"),
    ("DATABASE_URL", "postgres://db"),
    ("SESSION_SECRET", "s"),
    ("INTERNAL_API_KEY", "k"),
];

fn with(extra: &[(&str, &str)]) -> AppConfig {
    let mut all = REQUIRED.to_vec();
    all.extend_from_slice(extra);
    match AppConfig::from_env(&env(&all)) {
        Ok(config) => config,
        Err(msg) => panic!("{msg}"),
    }
}

#[test]
fn defaults() {
    let c = with(&[]);
    assert_eq!(c.base_url, "https://plugin.example.com/osu-player-role");
    assert_eq!(c.database_url, "postgres://db");
    assert_eq!(c.session_secret, "s");
    assert_eq!(c.internal_api_key, "k");
    assert_eq!(c.listen_addr, "0.0.0.0:8095");
    assert_eq!(c.auth_gateway_url, "https://plugin.example.com");
    assert_eq!(c.rl_dashboard_origin.as_deref(), Some("https://rolelogic.faizo.net"));
    assert_eq!(c.rolelogic_api_url, "https://api-rolelogic.faizo.net");
    assert_eq!(c.worker_concurrency, 4);
    assert_eq!(c.refresh_concurrency, 2);
    assert_eq!(c.db_pool.max_connections, 16);
    assert_eq!(c.db_pool.min_connections, 2);
    assert_eq!(c.db_pool.acquire_timeout_secs, 5);
    assert_eq!(c.db_pool.idle_timeout_secs, 600);
    assert_eq!(c.osu.client_id, None);
    assert_eq!(c.osu.client_secret, None);
    assert_eq!(c.worker_count(), 4);
}

#[test]
fn overrides() {
    let c = with(&[
        ("LISTEN_ADDR", "127.0.0.1:1"),
        ("AUTH_GATEWAY_URL", "https://gw.example//"),
        ("RL_DASHBOARD_ORIGIN", " https://dash.example/ "),
        ("ROLELOGIC_API_URL", " / "),
        ("WORKER_CONCURRENCY", "0"),
        ("REFRESH_CONCURRENCY", "many"),
        ("DB_MAX_CONNECTIONS", "+7"),
        ("DB_IDLE_TIMEOUT_SECS", "18446744073709551615"),
        ("DB_ACQUIRE_TIMEOUT_SECS", "18446744073709551616"),
        ("OSU_CLIENT_ID", " 42 "),
        ("OSU_CLIENT_SECRET", "   "),
    ]);
    assert_eq!(c.listen_addr, "127.0.0.1:1");
    assert_eq!(c.auth_gateway_url, "https://gw.example");
    assert_eq!(c.rl_dashboard_origin.as_deref(), Some("https://dash.example"));
    assert_eq!(c.rolelogic_api_url, "https://api-rolelogic.faizo.net");
    assert_eq!(c.worker_concurrency, 0);
    assert_eq!(c.worker_count(), 1);
    assert_eq!(c.refresh_concurrency, 2);
    assert_eq!(c.db_pool.max_connections, 7);
    assert_eq!(c.db_pool.idle_timeout_secs, u64::MAX);
    assert_eq!(c.db_pool.acquire_timeout_secs, 5);
    assert_eq!(c.osu.client_id.as_deref(), Some("42"));
    assert_eq!(c.osu.client_secret, None);
}

#[test]
fn required_variables_are_missed_in_order() {
    let missing = |skip: &str| -> &'static str {
        let pairs: Vec<(&str, &str)> =
            REQUIRED.iter().filter(|(k, _)| *k != skip).copied().collect();
        match AppConfig::from_env(&env(&pairs)) {
            Ok(_) => panic!(),
            Err(msg) => msg,
        }
    };
    assert_eq!(missing("BASE_URL"), "BASE_URL must be set");
    assert_eq!(missing("DATABASE_URL"), "DATABASE_URL must be set");
    assert_eq!(missing("SESSION_SECRET"), "SESSION_SECRET must be set");
    assert_eq!(
        missing("INTERNAL_API_KEY"),
        "INTERNAL_API_KEY must be set (must match the Auth Gateway's value)"
    );
    match AppConfig::from_env(&env(&[])) {
        Ok(_) => panic!(),
        Err(msg) => assert_eq!(msg, "BASE_URL must be set"),
    }
}

#[test]
fn origins() {
    assert_eq!(derive_origin("https://a.example/x/y"), "https://a.example");
    assert_eq!(derive_origin("https://a.example:8443/"), "https://a.example:8443");
    assert_eq!(derive_origin("https://a.example"), "https://a.example");
    assert_eq!(derive_origin("/relative/path"), "/relative/path");
    assert_eq!(derive_origin(""), "");
    assert_eq!(derive_origin(&derive_origin("http://ü.example/p")), "http://ü.example");
}

#[test]
fn allowed_origins_hold_plugin_and_dashboard() {
    let mut c = with(&[]);
    assert_eq!(
        c.allowed_origins(),
        vec!["https://plugin.example.com", "https://rolelogic.faizo.net"]
    );
    c.rl_dashboard_origin = None;
    assert_eq!(c.allowed_origins(), vec!["https://plugin.example.com"]);
}

#[test]
fn iframe_config() {
    let v = build_iframe_config("https://p.example", "g", "r");
    let text = render(&v);
    assert!(text.starts_with("{\"version\":1,\"ui_mode\":\"iframe\",\"name\":\"osu! Player Role\""));
    assert!(text.contains("\"embed_url\":\"https://p.example/admin/g/role/r\""));
    assert!(text.ends_with("\"supports_impersonation_readonly\":true}"));
    assert_eq!(render(&accept_empty_config()), "{\"success\":true}");
}
