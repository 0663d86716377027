//! Instants and the days between them.

use crate::models::facts::Timestamp;
use vstd::prelude::*;

verus! {

/// Whole days from `then` to `now`, cut off towards zero.
pub open spec fn days_between(now: Timestamp, then: Timestamp) -> int {
    let elapsed = now.instant() - then.instant();
    if elapsed >= 0 {
        elapsed / 86_400_000_000_000
    } else {
        -((-elapsed) / 86_400_000_000_000)
    }
}

/// The last second of the year 262142, up to which instants are kept.
pub const LAST_SECOND: i64 = 8_210_266_876_799;

/// The first second of the year -262143.
pub const FIRST_SECOND: i64 = -8_334_601_228_800;

/// What holds of every reading of the clock.
pub open spec fn is_reading(t: Timestamp) -> bool {
    0 <= t.secs <= LAST_SECOND && t.nanos < 1_000_000_000
}

/// `chrono::Utc::now`: the current instant, as seconds and nanoseconds. Of every
/// reading only this holds: it is not before the Unix epoch, nor beyond the last
/// second that the crate represents, and the nanoseconds stay below a second.
#[verifier::external_body]
pub(crate) fn utc_now() -> (r: Timestamp)
    ensures
        is_reading(r),
{
    let now = chrono::Utc::now();
    Timestamp { secs: now.timestamp(), nanos: now.timestamp_subsec_nanos() }
}

/// The instant that lies the given number of seconds behind another.
pub open spec fn later(t: Timestamp, secs: nat) -> Timestamp {
    Timestamp { secs: (t.secs + secs) as i64, nanos: t.nanos }
}

/// The instant that lies the given number of seconds behind another.
pub fn after(t: Timestamp, secs: u32) -> (r: Timestamp)
    requires
        t.secs <= LAST_SECOND,
    ensures
        r == later(t, secs as nat),
        r.instant() == t.instant() + secs * 1_000_000_000,
{
    Timestamp { secs: t.secs + secs as i64, nanos: t.nanos }
}

/// Counts the whole days from `then` to `now`.
pub fn whole_days(now: Timestamp, then: Timestamp) -> (r: i64)
    ensures
        r == days_between(now, then),
{
    let elapsed: i128 = (now.secs as i128 * 1_000_000_000 + now.nanos as i128) - (then.secs as i128
        * 1_000_000_000 + then.nanos as i128);
    if elapsed >= 0 {
        (elapsed / 86_400_000_000_000) as i64
    } else {
        let days: i128 = (-elapsed) / 86_400_000_000_000;
        (-days) as i64
    }
}

/// What `chrono::DateTime::parse_from_rfc3339` makes of a text, in UTC: seconds
/// since the Unix epoch and the nanoseconds beyond them, or the words of its
/// error.
pub uninterp spec fn rfc3339(s: Seq<char>) -> Result<(i64, u32), Seq<char>>;

/// `chrono::DateTime::parse_from_rfc3339`, then `with_timezone` to UTC. The grammar
/// is the crate's and is only named here.
#[verifier::external_body]
pub(crate) fn parse_rfc3339(s: &str) -> (r: Result<(i64, u32), String>)
    ensures
        rfc3339(s@) == match r {
            Ok(t) => Ok::<(i64, u32), Seq<char>>(t),
            Err(e) => Err::<(i64, u32), Seq<char>>(e@),
        },
{
    chrono::DateTime::parse_from_rfc3339(s)
        .map(|d| d.with_timezone(&chrono::Utc))
        .map(|d| (d.timestamp(), d.timestamp_subsec_nanos()))
        .map_err(|e| e.to_string())
}

/// What `chrono::DateTime::to_rfc3339` shows of an instant in UTC.
pub uninterp spec fn rfc3339_text(secs: i64, nanos: u32) -> Seq<char>;

impl Timestamp {
    /// An instant that the calendar knows.
    pub open spec fn valid(self) -> bool {
        FIRST_SECOND <= self.secs <= LAST_SECOND && self.nanos < 1_000_000_000
    }
}

/// `chrono::DateTime::from_timestamp`, which knows every such instant, then
/// `to_rfc3339`. The calendar is the crate's and is only named here.
#[verifier::external_body]
pub(crate) fn show_rfc3339(t: Timestamp) -> (r: String)
    requires
        t.valid(),
    ensures
        r@ == rfc3339_text(t.secs, t.nanos),
{
    chrono::DateTime::<chrono::Utc>::from_timestamp(t.secs, t.nanos)
        .expect("an instant that the calendar knows")
        .to_rfc3339()
}

} // verus!
