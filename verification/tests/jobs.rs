//! The job queue, its workers and the refresh schedule.

use osu_player_role::config::{AppConfig, Environment};
use osu_player_role::error::AppError;
use osu_player_role::json::{render, Value};
use osu_player_role::models::facts::Timestamp;
use osu_player_role::services::jobs::{
    backoff_delay, config_sync_job, jittered_delay, player_sync_job, Job, JobKind,
    PlayerSyncPayload, JOBS_CHANNEL,
};
use osu_player_role::tasks::job_listener::{listener_step, ListenerAsk, ListenerEvent};
use osu_player_role::tasks::job_worker::{
    route, settle, worker_step, worker_step_with, JobError, Settlement, Task, WorkerAsk,
    WorkerEvent, WorkerState,
};
use osu_player_role::tasks::refresh::{next_refresh, next_refresh_at, plan_tick, Tick};

fn job(kind: &str, payload: Value, attempts: i32, max_attempts: i32) -> Job {
    Job { id: 7, kind: kind.to_string(), payload, attempts, max_attempts }
}

fn no_player() -> Result<PlayerSyncPayload, String> {
    Err("missing field `discord_id`".to_string())
}

#[test]
fn backoff_doubles_and_caps() {
    let delays: Vec<u64> = (0..11).map(|n| jittered_delay(n, 0)).collect();
    assert_eq!(
        delays,
        vec![
            2_000, 2_000, 4_000, 8_000, 16_000, 32_000, 64_000, 128_000, 256_000, 256_000, 256_000
        ]
    );
    assert_eq!(jittered_delay(i32::MIN, 999), 2_999);
    assert_eq!(jittered_delay(i32::MAX, 1), 256_001);
    for _ in 0..200 {
        let d = backoff_delay(3);
        assert!((8_000..9_000).contains(&d));
    }
    let first = backoff_delay(3);
    assert!((0..200).any(|_| backoff_delay(3) != first));
}

#[test]
fn kinds_round_trip() {
    assert_eq!(JobKind::from_db("player_sync"), Some(JobKind::PlayerSync));
    assert_eq!(JobKind::from_db(JobKind::ConfigSync.as_str()), Some(JobKind::ConfigSync));
    assert_eq!(JobKind::from_db("other"), None);
    assert_eq!(JOBS_CHANNEL, "jobs_pending");
}

#[test]
fn new_jobs() {
    let j = player_sync_job("123");
    assert_eq!((j.kind, j.delay_secs), (JobKind::PlayerSync, 0));
    assert_eq!(render(&j.payload), "{\"discord_id\":\"123\"}");
    let j = config_sync_job("g", "r");
    assert_eq!((j.kind, j.delay_secs), (JobKind::ConfigSync, 5));
    assert_eq!(render(&j.payload), "{\"guild_id\":\"g\",\"role_id\":\"r\"}");
}

#[test]
fn jobs_are_routed_by_kind() {
    let player = job("player_sync", player_sync_job("1").payload, 1, 5);
    assert_eq!(
        route(&player, Ok(PlayerSyncPayload { discord_id: "1".to_string() })),
        Ok(Task::Player { discord_id: "1".to_string() })
    );
    assert_eq!(
        route(&player, no_player()),
        Err(JobError::Terminal(
            "invalid player_sync payload: missing field `discord_id`".to_string()
        ))
    );
    let link = job("config_sync", config_sync_job("g", "r").payload, 1, 5);
    assert_eq!(
        route(&link, no_player()),
        Ok(Task::RoleLink { guild_id: "g".to_string(), role_id: "r".to_string() })
    );
    let no_guild = job("config_sync", Value::object().with("guild_id", Value::Null), 1, 5);
    assert_eq!(
        route(&no_guild, no_player()),
        Err(JobError::Terminal("config_sync missing guild_id".to_string()))
    );
    let no_role = job("config_sync", Value::object().with("guild_id", Value::text("g")), 1, 5);
    assert_eq!(
        route(&no_role, no_player()),
        Err(JobError::Terminal("config_sync missing role_id".to_string()))
    );
    assert_eq!(
        route(&job("sweep", Value::Null, 1, 5), no_player()),
        Err(JobError::Terminal("unknown job kind 'sweep'".to_string()))
    );
}

#[test]
fn errors_are_terminal_or_retried() {
    assert_eq!(
        JobError::from_app(&AppError::RoleLinkNotFound),
        JobError::Terminal("role link no longer exists upstream".to_string())
    );
    assert_eq!(
        JobError::from_app(&AppError::UserLimitReached { limit: 30 }),
        JobError::Terminal("role link user limit reached (30); retry won't help".to_string())
    );
    assert_eq!(
        JobError::from_app(&AppError::RoleLinkDisabled),
        JobError::Retry("Role link is disabled on RoleLogic".to_string())
    );
}

#[test]
fn jobs_are_settled() {
    let j = job("player_sync", Value::Null, 2, 3);
    let retry = || Some(JobError::Retry("later".to_string()));
    assert_eq!(settle(&j, None, 0), Settlement::Complete);
    assert_eq!(
        settle(&j, Some(JobError::Terminal("no".to_string())), 0),
        Settlement::Dead { error: "no".to_string() }
    );
    assert_eq!(
        settle(&j, retry(), 5),
        Settlement::Retry { error: "later".to_string(), delay_ms: 4_005 }
    );
    let last = job("player_sync", Value::Null, 3, 3);
    assert_eq!(settle(&last, retry(), 5), Settlement::Dead { error: "later".to_string() });
}

#[test]
fn a_worker_runs_its_batch() {
    let start = WorkerEvent::LoopStarts { shutdown: false, since_reap_secs: 120 };
    let (state, ask) = worker_step(WorkerState::Top, start).unwrap();
    assert!(matches!(ask, WorkerAsk::Reap { max_lock_secs: 2700 }));
    let (state, ask) = worker_step(state, WorkerEvent::Reaped).unwrap();
    assert!(matches!(ask, WorkerAsk::Claim { batch_size: 8 }));
    let jobs =
        vec![job("player_sync", Value::Null, 1, 5), job("player_sync", Value::Null, 1, 5)];
    let (state, ask) = worker_step(state, WorkerEvent::Claimed(jobs)).unwrap();
    assert!(matches!(ask, WorkerAsk::StartJob));
    let (state, ask) = worker_step(state, WorkerEvent::JobStarts { shutdown: false }).unwrap();
    assert!(matches!(ask, WorkerAsk::Dispatch));
    let (state, ask) = worker_step(state, WorkerEvent::JobEnded(None)).unwrap();
    assert!(matches!(ask, WorkerAsk::Store { id: 7, settlement: Settlement::Complete }));
    let (state, ask) = worker_step(state, WorkerEvent::Stored).unwrap();
    assert!(matches!(ask, WorkerAsk::StartJob));
    // Shutdown: the second job is released, not run.
    let (state, ask) =
        worker_step_with(state, WorkerEvent::JobStarts { shutdown: true }, 1).unwrap();
    match ask {
        WorkerAsk::Store { settlement, .. } => assert_eq!(
            settlement,
            Settlement::Retry { error: "worker shutting down".to_string(), delay_ms: 2_001 }
        ),
        _ => panic!(),
    }
    let (state, ask) = worker_step(state, WorkerEvent::Stored).unwrap();
    assert!(matches!(ask, WorkerAsk::StartLoop));
    let end = WorkerEvent::LoopStarts { shutdown: true, since_reap_secs: 0 };
    let (state, ask) = worker_step(state, end).unwrap();
    assert!(matches!(ask, WorkerAsk::Stop));
    assert!(worker_step(state, WorkerEvent::Stored).is_none());
}

#[test]
fn an_idle_worker_waits() {
    let start = WorkerEvent::LoopStarts { shutdown: false, since_reap_secs: 119 };
    let (state, ask) = worker_step(WorkerState::Top, start).unwrap();
    assert!(matches!(ask, WorkerAsk::Claim { .. }));
    let (state, ask) = worker_step(state, WorkerEvent::Claimed(vec![])).unwrap();
    assert!(matches!(ask, WorkerAsk::AwaitWork { ms: 2000 }));
    let (_, ask) = worker_step(state, WorkerEvent::Waited { shutdown: false }).unwrap();
    assert!(matches!(ask, WorkerAsk::StartLoop));
    let (state, ask) = worker_step(WorkerState::Claiming, WorkerEvent::ClaimFailed).unwrap();
    assert!(matches!(ask, WorkerAsk::Pause { ms: 2000 }));
    let (_, ask) = worker_step(state, WorkerEvent::Waited { shutdown: true }).unwrap();
    assert!(matches!(ask, WorkerAsk::Stop));
    assert!(worker_step(WorkerState::Top, WorkerEvent::Reaped).is_none());
}

fn config(extra: &[(&str, &str)]) -> AppConfig {
    let mut vars = vec![
        ("BASE_URL", "https://a.example"),
        ("DATABASE_URL", "d"),
        ("SESSION_SECRET", "s"),
        ("INTERNAL_API_KEY", "k"),
    ];
    vars.extend_from_slice(extra);
    let vars = vars.into_iter().map(|(k, v)| (k.to_string(), v.to_string())).collect();
    match AppConfig::from_env(&Environment { vars }) {
        Ok(c) => c,
        Err(msg) => panic!("{msg}"),
    }
}

#[test]
fn refresh_needs_credentials() {
    assert_eq!(plan_tick(&config(&[])), Tick::Skip);
    assert_eq!(plan_tick(&config(&[("OSU_CLIENT_ID", "1")])), Tick::Skip);
    let full = [("OSU_CLIENT_ID", "1"), ("OSU_CLIENT_SECRET", "2"), ("REFRESH_CONCURRENCY", "0")];
    assert_eq!(plan_tick(&config(&full)), Tick::Refresh { concurrency: 1, batch_size: 4 });
    let full = [("OSU_CLIENT_ID", "1"), ("OSU_CLIENT_SECRET", "2"), ("REFRESH_CONCURRENCY", "3")];
    assert_eq!(plan_tick(&config(&full)), Tick::Refresh { concurrency: 3, batch_size: 12 });
}

#[test]
fn refresh_backs_off() {
    let now = Timestamp { secs: 1_000, nanos: 5 };
    let hours = |failures: Option<i32>| (next_refresh_at(now, failures).secs - 1_000) / 3600;
    assert_eq!(hours(None), 6);
    let grown: Vec<i64> = (0..7).map(|n| hours(Some(n))).collect();
    assert_eq!(grown, vec![2, 4, 8, 16, 24, 24, 24]);
    assert_eq!(hours(Some(-3)), 2);
    assert_eq!(hours(Some(i32::MAX)), 24);
    assert_eq!(next_refresh_at(now, None).nanos, 5);
    let soon = next_refresh(None).secs - chrono::Utc::now().timestamp();
    assert!((6 * 3600 - 5..=6 * 3600).contains(&soon));
}

#[test]
fn shutdown_releases_the_batch_and_stops() {
    let batch: Vec<Job> = (0..3).map(|_| job("player_sync", Value::Null, 0, 5)).collect();
    let (mut state, mut ask) =
        worker_step(WorkerState::Claiming, WorkerEvent::Claimed(batch)).unwrap();
    let mut steps = 0;
    let mut released = 0;
    loop {
        let event = match ask {
            WorkerAsk::StartJob => WorkerEvent::JobStarts { shutdown: true },
            WorkerAsk::StartLoop => {
                WorkerEvent::LoopStarts { shutdown: true, since_reap_secs: 9_000 }
            }
            WorkerAsk::Store { settlement, .. } => {
                match settlement {
                    Settlement::Retry { error, .. } => assert_eq!(error, "worker shutting down"),
                    other => panic!("{other:?}"),
                }
                released += 1;
                WorkerEvent::Stored
            }
            WorkerAsk::Stop => break,
            other => panic!("{other:?}"),
        };
        (state, ask) = worker_step(state, event).unwrap();
        steps += 1;
    }
    assert!(matches!(state, WorkerState::Stopped));
    assert_eq!((released, steps), (3, 7));
}

#[test]
fn the_listener_waits_after_a_failed_connection_only() {
    assert_eq!(
        listener_step(ListenerEvent::LoopStarts { shutdown: false }),
        ListenerAsk::Subscribe
    );
    assert_eq!(listener_step(ListenerEvent::SubscribeFailed), ListenerAsk::Wait { secs: 5 });
    assert_eq!(
        listener_step(ListenerEvent::Waited { shutdown: false }),
        ListenerAsk::StartLoop
    );
    assert_eq!(listener_step(ListenerEvent::Subscribed), ListenerAsk::Receive);
    assert_eq!(listener_step(ListenerEvent::Notified), ListenerAsk::Wake);
    assert_eq!(listener_step(ListenerEvent::Woken), ListenerAsk::Receive);
    assert_eq!(listener_step(ListenerEvent::Lost), ListenerAsk::StartLoop);
    for end in [
        ListenerEvent::LoopStarts { shutdown: true },
        ListenerEvent::Waited { shutdown: true },
        ListenerEvent::ShutDown,
    ] {
        assert_eq!(listener_step(end), ListenerAsk::Stop);
    }
}
