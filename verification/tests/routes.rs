//! The routes on concrete requests.

use axum::http::{HeaderMap, HeaderValue};
use osu_player_role::config::{derive_origin, OsuConfig};
use osu_player_role::error::AppError;
use osu_player_role::json::render;
use osu_player_role::models::facts::Timestamp;
use osu_player_role::models::mode::Mode;
use osu_player_role::routes::oauth::{
    build_osu_client, callback, html_escape, link_step, profile_row, profile_row_with,
    redirect_uri, start_refresh, state_expiry, stats_row, success_page, CallbackQuery, LinkAsk,
    LinkEvent, LinkState, OauthState,
};
use osu_player_role::routes::users::{
    check_origin, set_view_permission, show_player, start_list, users_data, users_page, ListAsk,
    ListEvent, ListState, PlayerRow, ViewPermBody,
};
use osu_player_role::routes::verify::{
    authorize_body, path_only, success_body, verify_login, verify_osu, verify_page, verify_status,
    verify_unlink,
};
use osu_player_role::services::auth::GuildPermission;
use osu_player_role::services::osu::{
    Badge, Country, GradeCounts, Group, Kudosu, Level, OsuUser, UserStatistics,
};

fn osu(id: Option<&str>, secret: Option<&str>) -> OsuConfig {
    OsuConfig { client_id: id.map(String::from), client_secret: secret.map(String::from) }
}

fn configured() -> OsuConfig {
    osu(Some("42"), Some("hush"))
}

fn said<T>(r: Result<T, AppError>) -> String {
    match r {
        Ok(_) => panic!("expected an error"),
        Err(e) => e.message(),
    }
}

fn group(identifier: Option<&str>) -> Group {
    Group { id: None, identifier: identifier.map(String::from), name: None }
}

fn user() -> OsuUser {
    OsuUser {
        id: 2,
        username: "<peppy>".to_string(),
        country_code: None,
        country: Some(Country {
            code: Some("AU".to_string()),
            name: Some("Australia".to_string()),
        }),
        profile_colour: Some("#fff".to_string()),
        avatar_url: None,
        join_date: "2007-08-28T03:09:12+00:00".to_string(),
        last_visit: Some("yesterday".to_string()),
        is_supporter: true,
        support_level: 3,
        is_restricted: false,
        is_active: true,
        playstyle: Some(vec!["mouse".to_string()]),
        badges: Some(vec![Badge { awarded_at: None, description: None, image_url: None }]),
        groups: Some(vec![group(Some("DEV")), group(None), group(Some("")), group(Some("PPY"))]),
        follower_count: Some(5_000_000_000),
        mapping_follower_count: Some(-1),
        kudosu: Some(Kudosu { total: 9, available: 1 }),
        ranked_beatmapset_count: None,
        loved_beatmapset_count: Some(1),
        pending_beatmapset_count: Some(2),
        graveyard_beatmapset_count: Some(3),
        favourite_beatmapset_count: Some(4),
        mapping_follower_count_total: None,
        replays_watched_by_others: Some(5),
        statistics: None,
        beatmap_playcounts_count: Some(6),
    }
}

#[test]
fn redirect_uris() {
    assert_eq!(redirect_uri("https://a.example/p"), "https://a.example/p/oauth/osu/callback");
    assert_eq!(redirect_uri("https://a.example/p//"), redirect_uri("https://a.example/p"));
}

#[test]
fn html_is_escaped() {
    assert_eq!(html_escape("a & <b> \"c\" 'd'"), "a &amp; &lt;b&gt; &quot;c&quot; 'd'");
    assert_eq!(html_escape("&lt;"), "&amp;lt;");
    assert_eq!(html_escape("plain ü"), "plain ü");
}

#[test]
fn pages_are_filled_in() {
    assert_eq!(
        success_page("{{BASE_URL}}|{{OSU_USERNAME}}|{{OSU_USER_ID}}|{{BASE_URL}}", "u", "<x>", 7),
        "u|&lt;x&gt;|7|u"
    );
    assert_eq!(users_page("{{GUILD_ID}}@{{BASE_URL}}", "u", "g"), "g@u");
    assert_eq!(verify_page("a{{BASE_URL}}b{{BASE_URL}", "u"), "aub{{BASE_URL}");
}

#[test]
fn states_expire_in_ten_minutes() {
    let left = state_expiry().secs - chrono::Utc::now().timestamp();
    assert!((595..=600).contains(&left));
}

#[test]
fn clients_need_both_credentials() {
    let client = build_osu_client(&configured()).unwrap();
    assert_eq!(client.client_id(), "42");
    assert_eq!(
        said(build_osu_client(&osu(None, None))),
        "Internal error: OSU_CLIENT_ID is not configured."
    );
    assert_eq!(
        said(build_osu_client(&osu(Some("1"), None))),
        "Internal error: OSU_CLIENT_SECRET is not configured."
    );
}

#[test]
fn profiles_are_mapped() {
    let row = profile_row("d", &user(), Some("Dean")).unwrap();
    assert_eq!(row.discord_id, "d");
    assert_eq!(row.osu_user_id, 2);
    assert_eq!(row.discord_name.as_deref(), Some("Dean"));
    assert_eq!(row.country_code.as_deref(), Some("AU"));
    assert_eq!(row.country_name.as_deref(), Some("Australia"));
    assert_eq!(row.osu_joined_at, Timestamp { secs: 1_188_270_552, nanos: 0 });
    assert_eq!(row.last_visit_at, None);
    assert_eq!(row.badge_count, 1);
    assert_eq!(row.groups, vec!["DEV", "PPY"]);
    assert_eq!(row.playstyles, vec!["mouse"]);
    assert_eq!(row.kudosu_total, 9);
    assert_eq!(row.follower_count, 5_000_000_000i64 as i32);
    assert_eq!(row.mapping_followers, -1);
    assert_eq!((row.ranked_beatmaps, row.loved_beatmaps), (0, 1));
    assert_eq!((row.pending_beatmaps, row.graveyard_beatmaps), (2, 3));
    assert_eq!((row.favourite_beatmapsets, row.replays_watched_others), (4, 5));
    assert_eq!((row.mapping_playcount, row.support_level), (6, 3));
    let mut u = user();
    u.country_code = Some("NZ".to_string());
    u.last_visit = Some("2024-01-02T03:04:05.5+01:00".to_string());
    let row = profile_row("d", &u, None).unwrap();
    assert_eq!(row.country_code.as_deref(), Some("NZ"));
    assert_eq!(
        row.last_visit_at,
        Some(Timestamp { secs: 1_704_161_045, nanos: 500_000_000 })
    );
}

#[test]
fn profiles_need_a_join_date() {
    let mut u = user();
    u.join_date = "soon".to_string();
    assert!(said(profile_row("d", &u, None)).starts_with("osu! API error: invalid join_date: "));
    assert_eq!(
        said(profile_row_with("d", &u, None, Err("no date".to_string()), None)),
        "osu! API error: invalid join_date: no date"
    );
    let row = profile_row_with("d", &u, None, Ok((5, 6)), Some((7, 8))).unwrap();
    assert_eq!(row.osu_joined_at, Timestamp { secs: 5, nanos: 6 });
    assert_eq!(row.last_visit_at, Some(Timestamp { secs: 7, nanos: 8 }));
}

fn statistics() -> UserStatistics {
    UserStatistics {
        pp: Some(1234),
        global_rank: Some(100),
        country_rank: None,
        ranked_score: Some(i64::MAX),
        total_score: None,
        play_count: Some(10),
        play_time: Some(7_199),
        hit_accuracy: Some(98),
        maximum_combo: Some(2_000),
        level: Some(Level { current: Some(101), progress: Some(5) }),
        grade_counts: Some(GradeCounts { ss: 1, ssh: 2, s: 3, sh: 4, a: 5 }),
    }
}

#[test]
fn stats_are_mapped() {
    let mut u = user();
    u.statistics = Some(statistics());
    let row = stats_row(2, Mode::Taiko, &u);
    assert_eq!((row.osu_user_id, row.mode), (2, Mode::Taiko));
    assert_eq!((row.global_rank, row.country_rank), (Some(100), None));
    assert_eq!((row.performance_points, row.hit_accuracy), (1234, 98));
    assert_eq!((row.play_count, row.play_time_hours), (10, 1));
    assert_eq!((row.total_score, row.ranked_score), (0, i64::MAX));
    assert_eq!((row.max_combo, row.level_int), (2_000, 101));
    assert_eq!((row.count_ss, row.count_ss_silver), (1, 2));
    assert_eq!((row.count_s, row.count_s_silver, row.count_a), (3, 4, 5));
    let mut s = statistics();
    s.play_time = Some(-7_201);
    u.statistics = Some(s);
    assert_eq!(stats_row(2, Mode::Taiko, &u).play_time_hours, -2);
    u.statistics = Some(UserStatistics::default());
    let blank = stats_row(2, Mode::Osu, &u);
    u.statistics = None;
    assert_eq!(stats_row(2, Mode::Osu, &u), blank);
    assert_eq!(blank.level_int, 0);
}

fn query(code: Option<&str>, state: Option<&str>, error: Option<&str>) -> CallbackQuery {
    CallbackQuery {
        code: code.map(String::from),
        state: state.map(String::from),
        error: error.map(String::from),
        error_description: None,
    }
}

#[test]
fn callbacks_need_code_and_state() {
    assert_eq!(
        said(callback(query(Some("c"), Some("s"), Some("denied")))),
        "Invalid request: osu! returned an error during authorization: denied ()"
    );
    let mut q = query(None, None, Some("denied"));
    q.error_description = Some("by user".to_string());
    assert_eq!(
        said(callback(q)),
        "Invalid request: osu! returned an error during authorization: denied (by user)"
    );
    assert_eq!(
        said(callback(query(None, Some("s"), None))),
        "Invalid request: Missing `code` from osu! callback."
    );
    assert_eq!(
        said(callback(query(Some("c"), None, None))),
        "Invalid request: Missing `state` from osu! callback."
    );
}

fn token(t: &str) -> LinkEvent {
    LinkEvent::Token { access_token: t.to_string() }
}

fn step(state: LinkState, event: LinkEvent) -> (LinkState, LinkAsk) {
    link_step(&configured(), "https://a.example/p", state, event).unwrap()
}

#[test]
fn an_account_is_linked() {
    let (state, ask) = callback(query(Some("c"), Some("s"), None)).unwrap();
    match ask {
        LinkAsk::ConsumeState { state } => assert_eq!(state, "s"),
        _ => panic!(),
    }
    let row = OauthState { code_verifier: "v".to_string(), discord_id: "d".to_string() };
    let (state, ask) = step(state, LinkEvent::StateRow(Some(row)));
    match ask {
        LinkAsk::Exchange { client, code, code_verifier, redirect_uri } => {
            assert_eq!(client.client_id(), "42");
            assert_eq!((code.as_str(), code_verifier.as_str()), ("c", "v"));
            assert_eq!(redirect_uri, "https://a.example/p/oauth/osu/callback");
        }
        _ => panic!(),
    }
    let (state, ask) = step(state, token("user"));
    assert!(matches!(ask, LinkAsk::FetchMe { access_token } if access_token == "user"));
    let (state, ask) = step(state, LinkEvent::User(user()));
    match ask {
        LinkAsk::StoreProfile(row) => assert_eq!(row.osu_username, "<peppy>"),
        _ => panic!(),
    }
    let (state, ask) = step(state, LinkEvent::Done);
    assert!(matches!(ask, LinkAsk::FetchAppToken));
    let (mut state, mut ask) = step(state, token("app"));
    for expected in Mode::ALL {
        match ask {
            LinkAsk::FetchUser { app_token, osu_user_id, mode } => {
                assert_eq!((app_token.as_str(), osu_user_id, mode), ("app", 2, expected))
            }
            _ => panic!(),
        }
        // The stats in taiko cannot be fetched: the mode is left out.
        if expected == Mode::Taiko {
            let failed = LinkEvent::Failed(AppError::OsuApi("late".to_string()));
            (state, ask) = step(state, failed);
        } else {
            (state, ask) = step(state, LinkEvent::User(user()));
            match ask {
                LinkAsk::StoreStats(row) => assert_eq!(row.mode, expected),
                _ => panic!(),
            }
            (state, ask) = step(state, LinkEvent::Done);
        }
    }
    assert!(matches!(ask, LinkAsk::Commit));
    let (state, ask) = step(state, LinkEvent::Done);
    match ask {
        LinkAsk::Enqueue(job) => assert_eq!(render(&job.payload), "{\"discord_id\":\"d\"}"),
        _ => panic!(),
    }
    let (state, ask) = step(state, LinkEvent::Done);
    match ask {
        LinkAsk::Finish { osu_user_id, username } => {
            assert_eq!((osu_user_id, username.as_str()), (2, "<peppy>"))
        }
        _ => panic!(),
    }
    assert!(link_step(&configured(), "u", state, LinkEvent::Done).is_none());
}

#[test]
fn links_are_refused() {
    let state = || LinkState::State { code: "c".to_string() };
    let fail = |ask: LinkAsk| match ask {
        LinkAsk::Fail(e) => e.message(),
        _ => panic!(),
    };
    assert_eq!(
        fail(step(state(), LinkEvent::StateRow(None)).1),
        "Invalid request: OAuth state expired or unknown — start the link flow again from /verify."
    );
    let (end, _) = step(state(), LinkEvent::StateRow(None));
    assert!(link_step(&configured(), "u", end, LinkEvent::Done).is_none());
    let row = OauthState { code_verifier: "v".to_string(), discord_id: "d".to_string() };
    let (_, ask) =
        link_step(&osu(None, None), "u", state(), LinkEvent::StateRow(Some(row))).unwrap();
    assert_eq!(fail(ask), "Internal error: OSU_CLIENT_ID is not configured.");
    let mut restricted = user();
    restricted.is_restricted = true;
    let me = LinkState::Me { discord_id: "d".to_string() };
    assert_eq!(
        fail(step(me, LinkEvent::User(restricted)).1),
        "Invalid request: This osu! account is restricted; restricted accounts cannot be linked."
    );
    let me = LinkState::Me { discord_id: "d".to_string() };
    assert_eq!(
        fail(step(me, LinkEvent::Failed(AppError::OsuApi("x".to_string()))).1),
        "osu! API error: x"
    );
}

#[test]
fn an_account_is_refreshed() {
    assert!(start_refresh(&osu(Some("1"), None), "d", 2).is_err());
    let (state, ask) = start_refresh(&configured(), "d", 3).unwrap();
    assert!(matches!(ask, LinkAsk::FetchAppToken));
    let (state, ask) = step(state, token("app"));
    assert!(matches!(ask, LinkAsk::FetchUser { osu_user_id: 3, mode: Mode::Osu, .. }));
    let mut restricted = user();
    restricted.is_restricted = true;
    let (state, ask) = step(state, LinkEvent::User(restricted));
    assert!(matches!(ask, LinkAsk::StoreProfile(_)));
    let (_, ask) = step(state, LinkEvent::Done);
    assert!(matches!(ask, LinkAsk::FetchUser { osu_user_id: 3, mode: Mode::Osu, .. }));
}

#[test]
fn paths_and_login() {
    assert_eq!(path_only("https://a.example/osu-player-role/"), "/osu-player-role");
    assert_eq!(path_only("https://a.example"), "");
    assert_eq!(path_only("no-scheme/path"), "");
    assert_eq!(path_only("https://a.example///"), "");
    assert_eq!(
        verify_login("https://a.example/p ü", "https://gw"),
        "https://gw/auth/login?return_to=%2Fp%20%C3%BC%2Fverify"
    );
}

#[test]
fn status_is_reported() {
    assert_eq!(
        render(&verify_status(None, None, &osu(None, None))),
        "{\"signed_in_discord\":false,\"discord_username\":null,\"linked_osu\":false,\
         \"osu_user_id\":null,\"osu_username\":null,\"osu_oauth_configured\":false}"
    );
    assert_eq!(
        render(&verify_status(
            Some(("1".to_string(), "Ann".to_string())),
            Some((2, "peppy".to_string())),
            &configured()
        )),
        "{\"signed_in_discord\":true,\"discord_username\":\"Ann\",\"linked_osu\":true,\
         \"osu_user_id\":2,\"osu_username\":\"peppy\",\"osu_oauth_configured\":true}"
    );
}

#[test]
fn unlinking() {
    assert_eq!(verify_unlink(Some(2)), Ok(2));
    assert_eq!(said(verify_unlink(None)), "Not found: No linked osu! account to unlink.");
    assert_eq!(render(&success_body()), "{\"success\":true}");
}

#[test]
fn linking_starts_fresh() {
    let a = verify_osu(&configured(), "https://a.example/p/").unwrap();
    let b = verify_osu(&configured(), "https://a.example/p/").unwrap();
    assert_ne!(a.state_token, b.state_token);
    assert_ne!(a.code_verifier, b.code_verifier);
    assert_eq!(a.state_token.len(), 36);
    assert_eq!(&a.state_token[14..15], "4");
    assert!(a.authorize_url.contains(
        "redirect_uri=https%3A%2F%2Fa.example%2Fp%2Foauth%2Fosu%2Fcallback&response_type=code"
    ));
    assert!(a.authorize_url.contains(&format!("state={}", a.state_token)));
    assert!(!a.authorize_url.contains(&a.code_verifier));
    assert_eq!(
        said(verify_osu(&osu(None, Some("x")), "u")),
        "Internal error: OSU_CLIENT_ID is not configured on this server. \
         Ask the operator to set it."
    );
    assert_eq!(
        said(verify_osu(&osu(Some("x"), None), "u")),
        "Internal error: OSU_CLIENT_SECRET is not configured on this server."
    );
    assert_eq!(render(&authorize_body("https://x")), "{\"authorize_url\":\"https://x\"}");
}

fn player() -> PlayerRow {
    PlayerRow {
        discord_id: "1".to_string(),
        discord_name: None,
        osu_username: "peppy".to_string(),
        osu_user_id: 2,
        country_code: Some("AU".to_string()),
        is_supporter: true,
        badge_count: 3,
        global_rank: None,
        performance_points: 4,
        play_count: 5,
        last_visit_at: None,
        linked_at: Timestamp { secs: 0, nanos: 0 },
    }
}

fn permission(is_member: bool, is_manager: bool) -> ListEvent {
    ListEvent::Permission(GuildPermission {
        discord_id: "1".to_string(),
        is_member,
        is_manager,
    })
}

#[test]
fn players_are_listed() {
    let (state, ask) = start_list();
    assert!(matches!(ask, ListAsk::FetchViewPermission));
    let set = ListEvent::ViewPermission(Some("members".to_string()));
    let (state, ask) = users_data("g", state, set).unwrap();
    assert!(matches!(ask, ListAsk::FetchPermission));
    let (state, ask) = users_data("g", state, permission(true, false)).unwrap();
    assert!(matches!(ask, ListAsk::FetchMembers));
    let members =
        ListEvent::Members { member_ids: vec!["1".to_string()], guild_name: None };
    let (state, ask) = users_data("g", state, members).unwrap();
    assert!(matches!(ask, ListAsk::FetchPlayers { .. }));
    let mut second = player();
    second.last_visit_at = Some(Timestamp { secs: 1_704_161_045, nanos: 500_000_000 });
    second.global_rank = Some(9);
    let (_, ask) = users_data("g", state, ListEvent::Players(vec![player(), second])).unwrap();
    let body = match ask {
        ListAsk::Reply(body) => render(&body),
        _ => panic!(),
    };
    assert_eq!(
        body,
        "{\"guild_id\":\"g\",\"guild_name\":null,\"count\":2,\"users\":[\
         {\"discord_id\":\"1\",\"discord_name\":null,\"osu_username\":\"peppy\",\
         \"osu_user_id\":2,\"osu_profile_url\":\"https://osu.ppy.sh/users/2\",\
         \"country_code\":\"AU\",\"is_supporter\":true,\"badge_count\":3,\"global_rank\":null,\
         \"performance_points\":4,\"play_count\":5,\"last_visit_at\":null,\
         \"linked_at\":\"1970-01-01T00:00:00+00:00\"},\
         {\"discord_id\":\"1\",\"discord_name\":null,\"osu_username\":\"peppy\",\
         \"osu_user_id\":2,\"osu_profile_url\":\"https://osu.ppy.sh/users/2\",\
         \"country_code\":\"AU\",\"is_supporter\":true,\"badge_count\":3,\"global_rank\":9,\
         \"performance_points\":4,\"play_count\":5,\
         \"last_visit_at\":\"2024-01-02T02:04:05.500+00:00\",\
         \"linked_at\":\"1970-01-01T00:00:00+00:00\"}]}"
    );
    assert!(render(&show_player(&player(), Some("v"), "l"))
        .ends_with("\"last_visit_at\":\"v\",\"linked_at\":\"l\"}"));
}

#[test]
fn the_list_is_kept_from_others() {
    let refusal = |r: Option<(ListState, ListAsk)>| match r {
        Some((ListState::Finished, ListAsk::Fail(e))) => e.message(),
        _ => panic!(),
    };
    let disabled = ListEvent::ViewPermission(Some("disabled".to_string()));
    assert_eq!(
        refusal(users_data("g", ListState::Setting, disabled)),
        "Forbidden: The player list is disabled for this server."
    );
    let (state, _) = users_data("g", ListState::Setting, ListEvent::ViewPermission(None)).unwrap();
    assert_eq!(
        refusal(users_data("g", state, permission(true, false))),
        "Forbidden: This list is visible to server managers only."
    );
    let members = ListState::Permission { view_permission: "members".to_string() };
    assert_eq!(
        refusal(users_data("g", members, permission(false, true))),
        "Forbidden: You're not a member of this server."
    );
    let failed = ListEvent::Failed(AppError::Unauthorized);
    assert_eq!(refusal(users_data("g", ListState::Members, failed)), "Unauthorized");
    assert!(users_data("g", ListState::Setting, permission(true, true)).is_none());
}

#[test]
fn view_permissions_are_checked() {
    for vp in ["disabled", "managers", "members"] {
        let body = ViewPermBody { view_permission: vp.to_string() };
        assert_eq!(
            render(&set_view_permission(&body).unwrap()),
            format!("{{\"success\":true,\"view_permission\":\"{vp}\"}}")
        );
    }
    let body = ViewPermBody { view_permission: "all".to_string() };
    assert_eq!(
        said(set_view_permission(&body)),
        "Invalid request: Unknown view_permission 'all' (expected disabled|managers|members)."
    );
}

#[test]
fn a_bearer_token_stands_in_for_the_origin() {
    let none: Vec<String> = vec![];
    let mut h = HeaderMap::new();
    assert!(check_origin(&h, &none).is_err());
    h.insert("authorization", HeaderValue::from_static("Bearer ifs:x"));
    assert!(check_origin(&h, &none).is_ok());
    let mut h = HeaderMap::new();
    h.insert("origin", HeaderValue::from_static("https://a.example"));
    assert!(check_origin(&h, &vec!["https://a.example".to_string()]).is_ok());
}

#[test]
fn escaping_is_undone() {
    for s in ["<b class=\"x\">&amp;</b>", "&lt;", "plain", ""] {
        let back = html_escape(s)
            .replace("&quot;", "\"")
            .replace("&gt;", ">")
            .replace("&lt;", "<")
            .replace("&amp;", "&");
        assert_eq!(back, s);
        assert_eq!(html_escape(&format!("{s}<{s}")), format!("{0}&lt;{0}", html_escape(s)));
    }
}

#[test]
fn origin_and_path_make_up_the_url() {
    for url in ["https://a.example/p//", "https://a.example/", "https://a.example:8/p/q"] {
        let whole = format!("{}{}", derive_origin(url), path_only(url));
        assert_eq!(whole, url.trim_end_matches('/'));
    }
}

#[test]
fn linking_needs_both_credentials() {
    for config in [osu(Some("42"), None), osu(None, Some("hush"))] {
        let status = verify_status(None, None, &config);
        assert_eq!(status.get("osu_oauth_configured").unwrap().as_bool(), Some(false));
    }
}
