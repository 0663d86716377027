//! Refresh worker: keeps each linked user's cached osu! profile + per-mode
//! stats fresh by polling the osu! API. The "live" state of an osu! player
//! (PP, rank, plays, …) drifts continuously; each user is re-fetched at most
//! once per cycle (default ≈ 6h) so role thresholds get re-checked.
//!
//!   * Bounded concurrency (`REFRESH_CONCURRENCY`, default 2) so that osu!'s
//!     ~60 req/min ceiling is kept. Each user costs ~5 HTTP calls (1 profile +
//!     4 per-mode stats), so keeping concurrency low is essential.
//!   * Failures back off exponentially per user.

use crate::clock;
use crate::config::AppConfig;
use crate::models::facts::Timestamp;
use crate::services::jobs;
use vstd::arithmetic::power2;
use vstd::prelude::*;

verus! {

/// How often the worker wakes up to pull a batch from the queue, in seconds.
/// Short enough that brand-new links get refreshed quickly; long enough that an
/// idle pod isn't busy-looping.
pub const TICK_SECS: u64 = 60;

/// Soonest a successful refresh re-queues a user, in hours.
pub const REFRESH_INTERVAL_HOURS: u32 = 6;

/// Keeps retries from stretching past a day.
pub const MAX_BACKOFF_HOURS: u32 = 24;

/// What the worker does on a tick.
#[derive(Debug, Clone, Copy, PartialEq, Eq, Structural)]
pub enum Tick {
    /// Without app credentials no API call can be made.
    Skip,
    /// Refresh up to `batch_size` users, `concurrency` of them at a time.
    Refresh { concurrency: u32, batch_size: i64 },
}

/// The larger of a number and one.
pub open spec fn at_least_one(n: u32) -> u32 {
    if n < 1 {
        1
    } else {
        n
    }
}

/// Decide what to do on a tick: a batch holds four users for each that is
/// refreshed at a time, a bit of headroom.
pub fn plan_tick(config: &AppConfig) -> (r: Tick)
    ensures
        r == if config.osu.client_id is None || config.osu.client_secret is None {
            Tick::Skip
        } else {
            Tick::Refresh {
                concurrency: at_least_one(config.refresh_concurrency),
                batch_size: (at_least_one(config.refresh_concurrency) * 4) as i64,
            }
        },
{
    if config.osu.client_id.is_none() || config.osu.client_secret.is_none() {
        return Tick::Skip;
    }
    let concurrency: u32 = if config.refresh_concurrency < 1 {
        1
    } else {
        config.refresh_concurrency
    };
    Tick::Refresh { concurrency, batch_size: concurrency as i64 * 4 }
}

/// The hours until a user is tried again whose refresh failed after the given
/// number of failures: two to the power of the failures, capped.
pub open spec fn backoff_hours(failures: int) -> nat {
    let hours = power2::pow2(jobs::clamped(failures + 1, 1, 5) as nat);
    if hours > MAX_BACKOFF_HOURS {
        MAX_BACKOFF_HOURS as nat
    } else {
        hours
    }
}

/// The hours until a user is refreshed next: `failures` counts the failures before
/// the one that just came, and is nothing after a success.
pub open spec fn wait_hours(failures: Option<i32>) -> nat {
    match failures {
        None => REFRESH_INTERVAL_HOURS as nat,
        Some(n) => backoff_hours(n as int),
    }
}

fn hours_to_wait(failures: Option<i32>) -> (r: u32)
    ensures
        r == wait_hours(failures),
        r <= 24,
{
    proof {
        power2::lemma2_to64();
    }
    match failures {
        None => REFRESH_INTERVAL_HOURS,
        Some(n) => if n <= 0 {
            2
        } else if n == 1 {
            4
        } else if n == 2 {
            8
        } else if n == 3 {
            16
        } else {
            MAX_BACKOFF_HOURS
        },
    }
}

/// When a user is refreshed next, from now on.
pub fn next_refresh(failures: Option<i32>) -> (r: Timestamp)
    ensures
        exists|now: Timestamp|
            clock::is_reading(now) && r == #[trigger] clock::later(
                now,
                wait_hours(failures) * 3600,
            ),
{
    let now = clock::utc_now();
    next_refresh_at(now, failures)
}

/// When a user is refreshed next, from the given instant on.
pub fn next_refresh_at(now: Timestamp, failures: Option<i32>) -> (r: Timestamp)
    requires
        now.secs <= clock::LAST_SECOND,
    ensures
        r == clock::later(now, wait_hours(failures) * 3600),
{
    clock::after(now, hours_to_wait(failures) * 3600)
}

/// The wait after a failure grows with the failures and never passes a day.
pub proof fn law_refresh_backoff_grows_to_a_day(a: int, b: int)
    requires
        a <= b,
    ensures
        2 <= backoff_hours(a) <= backoff_hours(b) <= 24,
        a >= 4 ==> backoff_hours(a) == 24,
{
    power2::lemma2_to64();
}

/// After a success a user is refreshed in six hours; after failures in two hours, and
/// twice as long for each further one, up to a day. The wait is counted from now.
pub proof fn law_waits_are_counted_from_now(now: Timestamp, failures: Option<i32>, r: Timestamp)
    requires
        now.secs <= clock::LAST_SECOND,
        now.secs >= clock::FIRST_SECOND,
        call_ensures(next_refresh_at, (now, failures), r),
    ensures
        failures is None ==> r.instant() - now.instant() == 6 * 60 * 60 * 1_000_000_000int,
        failures matches Some(n) ==> n <= 0 ==> r.instant() - now.instant() == 2 * 60 * 60
            * 1_000_000_000int,
        failures matches Some(n) ==> 0 <= n < 3 ==> wait_hours(Some((n + 1) as i32)) == 2
            * wait_hours(failures),
        failures matches Some(n) ==> n >= 4 ==> r.instant() - now.instant() == 24 * 60 * 60
            * 1_000_000_000int,
        r.instant() - now.instant() == wait_hours(failures) * 3600 * 1_000_000_000,
{
    power2::lemma2_to64();
    assert(wait_hours(failures) <= 24);
    assert(r.secs == now.secs + wait_hours(failures) * 3600);
}

/// Without both credentials nothing is refreshed; with them, at least one user at a
/// time, as many as configured, and four for each in a batch.
pub proof fn law_ticks_follow_the_configuration(config: &AppConfig, r: Tick)
    requires
        call_ensures(plan_tick, (config,), r),
    ensures
        r is Skip <==> config.osu.client_id is None || config.osu.client_secret is None,
        r matches Tick::Refresh { concurrency, batch_size } ==> concurrency >= 1 && batch_size
            == concurrency + concurrency + concurrency + concurrency && (
        config.refresh_concurrency >= 1 ==> concurrency == config.refresh_concurrency) && (
        config.refresh_concurrency == 0 ==> concurrency == 1),
{
}

} // verus!
