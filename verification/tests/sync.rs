//! The sync engine, step by step.

use osu_player_role::error::AppError;
use osu_player_role::json::Value;
use osu_player_role::models::condition::{Condition, ConditionOperator, ConditionTarget};
use osu_player_role::models::facts::{Facts, Timestamp};
use osu_player_role::models::mode::Mode;
use osu_player_role::models::rule::{ConditionGroup, RuleTree};
use osu_player_role::services::rule_sql::Bind;
use osu_player_role::services::sync::{
    after_call, plan, player_step, player_step_at, qualifying_query, role_link_step,
    start_player_sync, start_role_link_sync, Assignment, FactsRow, FollowUp, PlayerAction,
    PlayerAsk, PlayerEvent, PlayerSync, RoleLink, RoleLinkAsk, RoleLinkEvent, RoleLinkSync,
    FACTS_SELECT,
};

fn row() -> FactsRow {
    FactsRow {
        is_supporter: true,
        is_active: false,
        is_restricted: false,
        has_badge: true,
        has_group_badge: false,
        osu_joined_at: Timestamp { secs: 100, nanos: 0 },
        last_visit_at: None,
        badge_count: 1,
        follower_count: 2,
        mapping_subscribers: 3,
        kudosu: 4,
        ranked_beatmaps: 5,
        loved_beatmaps: 6,
        mapping_playcount: 7,
        replays_watched_by_others: 8,
        favourite_count: 9,
        country_code: Some("JP".to_string()),
        username: "peppy".to_string(),
        groups: vec!["DEV".to_string()],
        playstyles: vec![],
        global_rank: Some(10),
        country_rank: None,
        performance_points: 11,
        play_count: 12,
        play_time_hours: 13,
        total_score: 14,
        ranked_score: 15,
        hit_accuracy: 16,
        max_combo: 17,
        level_int: 18,
        ss_count: 19,
        s_count: 20,
        a_count: -21,
    }
}

fn rank_rule(mode: Mode, rank: i64) -> RuleTree {
    RuleTree {
        grant_on_any_player: false,
        default_mode: mode,
        groups: vec![ConditionGroup {
            conditions: vec![Condition {
                target: ConditionTarget::GlobalRank,
                operator: ConditionOperator::Lte,
                value: Value::number(rank),
                value_end: None,
            }],
        }],
    }
}

fn any_player() -> RuleTree {
    RuleTree { grant_on_any_player: true, ..Default::default() }
}

fn link(role: &str, tree: RuleTree) -> RoleLink {
    RoleLink {
        guild_id: "g".to_string(),
        role_id: role.to_string(),
        api_token: format!("token-{role}"),
        tree,
    }
}

fn held(role: &str) -> Assignment {
    Assignment { guild_id: "g".to_string(), role_id: role.to_string() }
}

fn add(role: &str) -> PlayerAction {
    PlayerAction::Add {
        guild_id: "g".to_string(),
        role_id: role.to_string(),
        api_token: format!("token-{role}"),
    }
}

fn remove(role: &str) -> PlayerAction {
    PlayerAction::Remove {
        guild_id: "g".to_string(),
        role_id: role.to_string(),
        api_token: format!("token-{role}"),
    }
}

#[test]
fn facts_come_from_their_columns() {
    let f = Facts::from(row());
    assert_eq!(f.osu_joined_at, Some(Timestamp { secs: 100, nanos: 0 }));
    assert_eq!((f.badge_count, f.kudosu, f.favourite_count), (1, 4, 9));
    assert_eq!((f.global_rank, f.country_rank), (Some(10), None));
    assert_eq!((f.s_count, f.a_count), (20, -21));
    assert_eq!(f.country_code.as_deref(), Some("JP"));
    assert!(FACTS_SELECT.starts_with("SELECT ou.is_supporter"));
    assert!(FACTS_SELECT.ends_with("WHERE ou.discord_id = $1"));
}

#[test]
fn a_player_is_synced() {
    let (state, ask) = start_player_sync();
    assert!(matches!(ask, PlayerAsk::FetchGuildIds));
    let (state, ask) =
        player_step(state, PlayerEvent::GuildIds(vec!["g".to_string()])).unwrap();
    match ask {
        PlayerAsk::FetchRoleLinks { guild_ids } => assert_eq!(guild_ids, vec!["g"]),
        _ => panic!(),
    }
    let links = vec![
        link("any", any_player()),
        link("top", rank_rule(Mode::Taiko, 5)),
        link("none", RuleTree::default()),
        link("good", rank_rule(Mode::Mania, 50)),
        link("kept", any_player()),
    ];
    let (state, ask) = player_step(state, PlayerEvent::RoleLinks(links)).unwrap();
    assert!(matches!(ask, PlayerAsk::CheckLinked));
    let (state, ask) = player_step(state, PlayerEvent::IsLinked(true)).unwrap();
    assert!(matches!(ask, PlayerAsk::FetchAssignments));
    let existing = vec![held("top"), held("none"), held("kept")];
    let (state, ask) = player_step(state, PlayerEvent::Assignments(existing)).unwrap();
    assert!(matches!(ask, PlayerAsk::FetchFacts { mode: Mode::Taiko }));
    let (state, ask) = player_step(state, PlayerEvent::FactsRow(Some(row()))).unwrap();
    assert!(matches!(ask, PlayerAsk::FetchFacts { mode: Mode::Mania }));
    let (state, ask) = player_step(state, PlayerEvent::FactsRow(Some(row()))).unwrap();
    match ask {
        PlayerAsk::Apply(actions) => assert_eq!(
            actions,
            vec![add("any"), remove("top"), remove("none"), add("good")]
        ),
        _ => panic!(),
    }
    assert!(player_step(state, PlayerEvent::IsLinked(true)).is_none());
}

#[test]
fn nothing_to_do_ends_early() {
    let (_, ask) = player_step(PlayerSync::Guilds, PlayerEvent::GuildIds(vec![])).unwrap();
    assert!(matches!(ask, PlayerAsk::Done));
    let (_, ask) = player_step(PlayerSync::Links, PlayerEvent::RoleLinks(vec![])).unwrap();
    assert!(matches!(ask, PlayerAsk::Done));
    let state = PlayerSync::Assigned { links: vec![link("a", any_player())], is_linked: false };
    let (_, ask) = player_step(state, PlayerEvent::Assignments(vec![])).unwrap();
    assert!(matches!(ask, PlayerAsk::Done));
}

#[test]
fn an_unlinked_player_loses_everything() {
    let state = PlayerSync::Assigned {
        links: vec![link("a", any_player()), link("b", rank_rule(Mode::Osu, 5))],
        is_linked: false,
    };
    let (state, _) =
        player_step(state, PlayerEvent::Assignments(vec![held("a"), held("b")])).unwrap();
    let now = Timestamp { secs: 0, nanos: 0 };
    let (_, ask) = player_step_at(state, PlayerEvent::FactsRow(None), now).unwrap();
    match ask {
        PlayerAsk::Apply(actions) => assert_eq!(actions, vec![remove("a"), remove("b")]),
        _ => panic!(),
    }
}

#[test]
fn a_failed_lookup_ends_the_sync() {
    let failure = AppError::Internal("gateway".to_string());
    let (_, ask) = player_step(PlayerSync::Guilds, PlayerEvent::Failed(failure)).unwrap();
    match ask {
        PlayerAsk::Fail(e) => assert_eq!(e.message(), "Internal error: gateway"),
        _ => panic!(),
    }
    assert!(player_step(PlayerSync::Guilds, PlayerEvent::IsLinked(true)).is_none());
}

#[test]
fn a_settled_plan_is_empty() {
    let links = vec![link("a", any_player()), link("b", any_player())];
    let actions = plan(&links, &vec![true, false], &vec![held("b")]);
    assert_eq!(actions, vec![add("a"), remove("b")]);
    assert_eq!(plan(&links, &vec![true, false], &vec![held("a")]), vec![]);
}

#[test]
fn calls_are_followed_up() {
    assert_eq!(after_call(&None), FollowUp::Store);
    assert_eq!(after_call(&Some(AppError::RoleLinkNotFound)), FollowUp::DeleteOrphan);
    assert_eq!(after_call(&Some(AppError::UserLimitReached { limit: 1 })), FollowUp::Leave);
    assert_eq!(after_call(&Some(AppError::RoleLogic("x".to_string()))), FollowUp::Leave);
}

#[test]
fn the_query_of_a_rule() {
    let members = || vec!["1".to_string(), "2".to_string()];
    let q = qualifying_query(&any_player(), members(), 30);
    assert_eq!(
        q.sql,
        "SELECT discord_id FROM osu_users WHERE discord_id = ANY($1::text[]) \
         ORDER BY discord_id LIMIT $2"
    );
    assert_eq!(q.binds, vec![Bind::TextArray(members()), Bind::Int(30)]);
    let q = qualifying_query(&rank_rule(Mode::Fruits, 9), members(), 30);
    assert_eq!(
        q.sql,
        "SELECT DISTINCT ou.discord_id FROM osu_users ou LEFT JOIN osu_stats os \
         ON os.osu_user_id = ou.osu_user_id AND os.mode = $1 \
         WHERE ou.discord_id = ANY($2::text[]) AND ((((os.global_rank) <= $3))) \
         ORDER BY ou.discord_id LIMIT $4"
    );
    assert_eq!(
        q.binds,
        vec![
            Bind::Text("fruits".to_string()),
            Bind::TextArray(members()),
            Bind::Int(9),
            Bind::Int(30)
        ]
    );
}

fn token() -> String {
    "token".to_string()
}

#[test]
fn a_role_link_is_synced() {
    let (state, ask) = start_role_link_sync();
    assert!(matches!(ask, RoleLinkAsk::FetchLink));
    let event = RoleLinkEvent::Link(Some((token(), rank_rule(Mode::Osu, 9))));
    let (state, ask) = role_link_step(state, event).unwrap();
    assert!(matches!(ask, RoleLinkAsk::FetchMemberIds));
    let (state, ask) =
        role_link_step(state, RoleLinkEvent::MemberIds(vec!["1".to_string()])).unwrap();
    match ask {
        RoleLinkAsk::FetchUserLimit { api_token } => assert_eq!(api_token, "token"),
        _ => panic!(),
    }
    let (state, ask) = role_link_step(state, RoleLinkEvent::UserLimit(100)).unwrap();
    match ask {
        RoleLinkAsk::RunQuery(q) => assert_eq!(q.binds.len(), 4),
        _ => panic!(),
    }
    let (state, ask) =
        role_link_step(state, RoleLinkEvent::Players(vec!["1".to_string()])).unwrap();
    assert!(matches!(ask, RoleLinkAsk::FetchAssigned));
    let (state, ask) = role_link_step(state, RoleLinkEvent::Players(vec![])).unwrap();
    match ask {
        RoleLinkAsk::Upload { api_token, users } => {
            assert_eq!((api_token, users), (token(), vec!["1".to_string()]))
        }
        _ => panic!(),
    }
    let (state, ask) = role_link_step(state, RoleLinkEvent::Done).unwrap();
    match ask {
        RoleLinkAsk::StoreAssigned { users } => assert_eq!(users, vec!["1"]),
        _ => panic!(),
    }
    let (state, ask) = role_link_step(state, RoleLinkEvent::Done).unwrap();
    assert!(matches!(ask, RoleLinkAsk::Done));
    assert!(role_link_step(state, RoleLinkEvent::Done).is_none());
}

#[test]
fn an_equal_list_is_not_uploaded() {
    let state =
        RoleLinkSync::Current { api_token: token(), qualifying: vec!["1".to_string()] };
    let (_, ask) = role_link_step(state, RoleLinkEvent::Players(vec!["1".to_string()])).unwrap();
    assert!(matches!(ask, RoleLinkAsk::Done));
}

#[test]
fn an_unconfigured_link_is_drained() {
    let event = RoleLinkEvent::Link(Some((token(), RuleTree::default())));
    let (state, ask) = role_link_step(RoleLinkSync::Link, event).unwrap();
    assert!(matches!(ask, RoleLinkAsk::CheckAssigned));
    let (state, ask) = role_link_step(state, RoleLinkEvent::AnyAssigned(true)).unwrap();
    match ask {
        RoleLinkAsk::Upload { users, .. } => assert!(users.is_empty()),
        _ => panic!(),
    }
    let (state, ask) = role_link_step(state, RoleLinkEvent::Done).unwrap();
    assert!(matches!(ask, RoleLinkAsk::ClearAssigned));
    let (_, ask) = role_link_step(state, RoleLinkEvent::Done).unwrap();
    assert!(matches!(ask, RoleLinkAsk::Done));
    let (_, ask) = role_link_step(
        RoleLinkSync::Drain { api_token: token() },
        RoleLinkEvent::AnyAssigned(false),
    )
    .unwrap();
    assert!(matches!(ask, RoleLinkAsk::Done));
}

#[test]
fn a_guild_without_members_is_drained() {
    let state = RoleLinkSync::Members { api_token: token(), tree: any_player() };
    let (_, ask) = role_link_step(state, RoleLinkEvent::MemberIds(vec![])).unwrap();
    assert!(matches!(ask, RoleLinkAsk::CheckAssigned));
}

#[test]
fn failures_never_clear_a_role() {
    let limit = || RoleLinkSync::Limit {
        api_token: token(),
        tree: any_player(),
        member_ids: vec!["1".to_string()],
    };
    let step = |state, e| role_link_step(state, RoleLinkEvent::Failed(e)).unwrap().1;
    assert!(matches!(step(limit(), AppError::RoleLinkNotFound), RoleLinkAsk::DeleteOrphan));
    assert!(matches!(step(limit(), AppError::RoleLinkDisabled), RoleLinkAsk::Done));
    assert!(matches!(step(limit(), AppError::StaleVersion), RoleLinkAsk::Fail(_)));
    assert!(matches!(
        step(RoleLinkSync::DrainUpload, AppError::RoleLinkNotFound),
        RoleLinkAsk::DeleteOrphan
    ));
    assert!(matches!(
        step(RoleLinkSync::DrainUpload, AppError::RoleLinkDisabled),
        RoleLinkAsk::Fail(_)
    ));
    let members = RoleLinkSync::Members { api_token: token(), tree: any_player() };
    assert!(matches!(step(members, AppError::RoleLinkNotFound), RoleLinkAsk::Fail(_)));
    let gone = role_link_step(RoleLinkSync::Link, RoleLinkEvent::Link(None)).unwrap().1;
    assert!(matches!(gone, RoleLinkAsk::Done));
}

/// Runs the sync of a role link to its end. Returns the lists that were uploaded.
fn run(assigned: &mut Vec<String>, selected: &[&str]) -> Vec<Vec<String>> {
    let list = |ids: &[&str]| -> Vec<String> { ids.iter().map(|s| s.to_string()).collect() };
    let mut uploads: Vec<Vec<String>> = Vec::new();
    let (mut state, mut ask) = start_role_link_sync();
    loop {
        let event = match ask {
            RoleLinkAsk::FetchLink => {
                RoleLinkEvent::Link(Some((token(), rank_rule(Mode::Osu, 9))))
            }
            RoleLinkAsk::FetchMemberIds => RoleLinkEvent::MemberIds(list(&["1", "2", "3"])),
            RoleLinkAsk::FetchUserLimit { .. } => RoleLinkEvent::UserLimit(2),
            RoleLinkAsk::RunQuery(_) => RoleLinkEvent::Players(list(selected)),
            RoleLinkAsk::FetchAssigned => RoleLinkEvent::Players(assigned.clone()),
            RoleLinkAsk::Upload { users, .. } => {
                uploads.push(users);
                RoleLinkEvent::Done
            }
            RoleLinkAsk::StoreAssigned { users } => {
                *assigned = users;
                RoleLinkEvent::Done
            }
            RoleLinkAsk::Done => return uploads,
            _ => panic!("unexpected request"),
        };
        (state, ask) = role_link_step(state, event).unwrap();
    }
}

#[test]
fn a_second_run_uploads_nothing() {
    let mut assigned = vec!["3".to_string()];
    assert_eq!(run(&mut assigned, &["1", "2"]), vec![vec!["1".to_string(), "2".to_string()]]);
    assert_eq!(assigned, vec!["1", "2"]);
    assert!(run(&mut assigned, &["1", "2"]).is_empty());
    assert_eq!(assigned, vec!["1", "2"]);
}

#[test]
fn the_facts_query_reads_what_the_clauses_read() {
    let words: Vec<&str> = FACTS_SELECT.split_whitespace().collect();
    let query = words.join(" ");
    for item in [
        "ou.is_supporter AS is_supporter,",
        "ou.osu_joined_at AS osu_joined_at,",
        "COALESCE(ou.kudosu_total, 0) AS kudosu,",
        "os.global_rank AS global_rank,",
        "COALESCE(os.total_score, 0)::bigint AS total_score,",
        "ou.groups AS groups,",
        "COALESCE(os.count_a, 0) AS a_count FROM osu_users ou",
    ] {
        assert!(query.contains(item), "{item}");
    }
}

/// Syncs a player of one guild and gives the changes that it asks for.
fn player_run(links: Vec<RoleLink>, existing: Vec<Assignment>) -> Vec<PlayerAction> {
    let (mut state, mut ask) = start_player_sync();
    let (mut links, mut existing) = (Some(links), Some(existing));
    loop {
        let event = match ask {
            PlayerAsk::FetchGuildIds => PlayerEvent::GuildIds(vec!["g".to_string()]),
            PlayerAsk::FetchRoleLinks { .. } => PlayerEvent::RoleLinks(links.take().unwrap()),
            PlayerAsk::CheckLinked => PlayerEvent::IsLinked(true),
            PlayerAsk::FetchAssignments => PlayerEvent::Assignments(existing.take().unwrap()),
            PlayerAsk::FetchFacts { mode: Mode::Osu } => PlayerEvent::FactsRow(Some(row())),
            PlayerAsk::FetchFacts { .. } => PlayerEvent::FactsRow(Some(FactsRow {
                global_rank: None,
                ..row()
            })),
            PlayerAsk::Apply(actions) => return actions,
            PlayerAsk::Done => return vec![],
            PlayerAsk::Fail(_) => panic!(),
        };
        (state, ask) = player_step(state, event).unwrap();
    }
}

#[test]
fn a_run_grants_what_is_due() {
    let links = || {
        vec![
            link("ranked", rank_rule(Mode::Osu, 10)),
            link("unranked", rank_rule(Mode::Fruits, 10)),
            link("any", any_player()),
            link("never", RuleTree::default()),
        ]
    };
    assert_eq!(
        player_run(links(), vec![held("unranked"), held("never"), held("other")]),
        vec![add("ranked"), remove("unranked"), add("any"), remove("never")]
    );
    assert_eq!(player_run(links(), vec![held("ranked"), held("any"), held("other")]), vec![]);
}
