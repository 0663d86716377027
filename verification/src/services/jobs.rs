//! Durable background-job queue.
//!
//! Events survive replica crashes / SIGTERM; any replica can pick up a job;
//! transient upstream failures retry with exponential backoff + jitter;
//! permanently-failing jobs land in a DLQ (`status = 'dead'`).

use crate::entropy;
use crate::json::{Json, Value};
use crate::text;
use vstd::arithmetic::power2;
use vstd::prelude::*;

verus! {

/// Postgres NOTIFY channel: fired when an immediately-runnable job is inserted.
/// The listener wakes the workers on it.
pub const JOBS_CHANNEL: &'static str = "jobs_pending";

#[derive(Debug, Clone, Copy, PartialEq, Eq, Structural)]
pub enum JobKind {
    PlayerSync,
    ConfigSync,
}

impl JobKind {
    /// The name under which a kind is stored.
    pub open spec fn key(self) -> Seq<char> {
        match self {
            JobKind::PlayerSync => "player_sync"@,
            JobKind::ConfigSync => "config_sync"@,
        }
    }

    pub fn as_str(&self) -> (r: &'static str)
        ensures
            r@ == self.key(),
    {
        match self {
            JobKind::PlayerSync => "player_sync",
            JobKind::ConfigSync => "config_sync",
        }
    }

    /// The kind that a stored name stands for, if it is one.
    pub open spec fn of_name(s: Seq<char>) -> Option<JobKind> {
        if s == "player_sync"@ {
            Some(JobKind::PlayerSync)
        } else if s == "config_sync"@ {
            Some(JobKind::ConfigSync)
        } else {
            None
        }
    }

    pub fn from_db(s: &str) -> (r: Option<Self>)
        ensures
            r == JobKind::of_name(s@),
    {
        if text::same(s, "player_sync") {
            Some(JobKind::PlayerSync)
        } else if text::same(s, "config_sync") {
            Some(JobKind::ConfigSync)
        } else {
            None
        }
    }
}

#[derive(Debug, PartialEq)]
pub struct Job {
    pub id: i64,
    pub kind: String,
    pub payload: Value,
    pub attempts: i32,
    pub max_attempts: i32,
}

#[derive(Debug, PartialEq)]
pub struct PlayerSyncPayload {
    pub discord_id: String,
}

/// A job to enqueue. `delay_secs` rolls into the time of its first run.
#[derive(Debug, PartialEq)]
pub struct NewJob {
    pub kind: JobKind,
    pub payload: Value,
    pub delay_secs: u64,
}

/// A number held within a range.
pub open spec fn clamped(n: int, lo: int, hi: int) -> int {
    if n < lo {
        lo
    } else if n > hi {
        hi
    } else {
        n
    }
}

/// The seconds that an attempt is put off by, without jitter: two to the power of
/// the attempt, which counts from 1 to 8.
pub open spec fn backoff_secs(attempt: int) -> nat {
    power2::pow2(clamped(attempt, 1, 8) as nat)
}

/// Exponential backoff with up-to-1s jitter, in milliseconds. Attempts 1..=7 sleep
/// 2s..128s; attempt 8 caps at 256s.
pub fn backoff_delay(attempt: i32) -> (r: u64)
    ensures
        backoff_secs(attempt as int) * 1000 <= r < backoff_secs(attempt as int) * 1000 + 1000,
{
    let jitter_ms: u64 = entropy::random_below(1000);
    jittered_delay(attempt, jitter_ms)
}

/// The delay of an attempt in milliseconds, given the jitter.
pub fn jittered_delay(attempt: i32, jitter_ms: u64) -> (r: u64)
    requires
        jitter_ms < 1000,
    ensures
        r == backoff_secs(attempt as int) * 1000 + jitter_ms,
{
    let capped: i32 = if attempt < 1 {
        1
    } else if attempt > 8 {
        8
    } else {
        attempt
    };
    let base_secs: u64 = match capped {
        1 => 2,
        2 => 4,
        3 => 8,
        4 => 16,
        5 => 32,
        6 => 64,
        7 => 128,
        _ => 256,
    };
    proof {
        power2::lemma2_to64();
    }
    base_secs * 1000 + jitter_ms
}

/// A job that re-evaluates the roles of a player, at once.
pub fn player_sync_job(discord_id: &str) -> (r: NewJob)
    ensures
        r.kind == JobKind::PlayerSync,
        r.payload@ == Json::object().with("discord_id"@, Json::Text(discord_id@)),
        r.delay_secs == 0,
{
    NewJob {
        kind: JobKind::PlayerSync,
        payload: Value::object().with("discord_id", Value::text(discord_id)),
        delay_secs: 0,
    }
}

/// A job that re-evaluates a role link. Config-sync is debounced 5s to absorb
/// autosave bursts.
pub fn config_sync_job(guild_id: &str, role_id: &str) -> (r: NewJob)
    ensures
        r.kind == JobKind::ConfigSync,
        r.payload@ == Json::object().with("guild_id"@, Json::Text(guild_id@)).with(
            "role_id"@,
            Json::Text(role_id@),
        ),
        r.delay_secs == 5,
{
    NewJob {
        kind: JobKind::ConfigSync,
        payload: Value::object().with("guild_id", Value::text(guild_id)).with(
            "role_id",
            Value::text(role_id),
        ),
        delay_secs: 5,
    }
}

/// Reading back the stored name of a kind gives that kind.
pub proof fn law_kind_round_trip(kind: JobKind)
    ensures
        JobKind::of_name(kind.key()) == Some(kind),
{
    reveal_strlit("player_sync");
    reveal_strlit("config_sync");
    assert("player_sync"@[0] == 'p');
    assert("config_sync"@[0] == 'c');
}

/// The backoff starts at two seconds, doubles with every attempt from the first to
/// the eighth, and stays at 256 seconds from there on.
pub proof fn law_backoff_doubles_and_caps(attempt: int)
    ensures
        2 <= backoff_secs(attempt) <= 256,
        attempt <= 1 ==> backoff_secs(attempt) == 2,
        1 <= attempt < 8 ==> backoff_secs(attempt + 1) == 2 * backoff_secs(attempt),
        attempt >= 8 ==> backoff_secs(attempt) == 256,
{
    power2::lemma2_to64();
}

/// A player sync names its player under the name that the worker reads, and waits
/// for nothing.
pub proof fn law_player_syncs_name_their_player(discord_id: &str, job: NewJob)
    requires
        call_ensures(player_sync_job, (discord_id,), job),
    ensures
        JobKind::of_name(job.kind.key()) == Some(JobKind::PlayerSync),
        job.payload@.field("discord_id"@) == Some(Json::Text(discord_id@)),
        job.payload@->Fields_0.len() == 1,
        job.delay_secs == 0,
{
    law_kind_round_trip(job.kind);
    let fields = job.payload@->Fields_0;
    assert(fields[0] == ("discord_id"@, Json::Text(discord_id@)));
}

/// The delay of an attempt lies between the doubling backoff and a second more, and
/// grows with the jitter alone for one attempt.
pub proof fn law_delays_lie_within_a_second(attempt: i32, a: u64, b: u64, da: u64, db: u64)
    requires
        a < 1000,
        b < 1000,
        call_ensures(jittered_delay, (attempt, a), da),
        call_ensures(jittered_delay, (attempt, b), db),
    ensures
        2_000 <= da < 257_000,
        da - a == db - b,
        (da - a) % 2_000 == 0,
        1 <= attempt <= 8 ==> (da - a) == 1000 * power2::pow2(attempt as nat),
{
    power2::lemma2_to64();
}

} // verus!
