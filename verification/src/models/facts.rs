//! Plain-data view of an osu! player's facts needed for condition
//! evaluation. Constructed from the stored profile and the stats row of
//! the rule's game mode.

use vstd::prelude::*;

verus! {

/// An instant: seconds since the Unix epoch, and the nanoseconds beyond them.
#[derive(Debug, Clone, Copy, PartialEq, Eq, Structural)]
pub struct Timestamp {
    pub secs: i64,
    pub nanos: u32,
}

impl Timestamp {
    /// Nanoseconds since the Unix epoch.
    pub open spec fn instant(self) -> int {
        self.secs * 1_000_000_000 + self.nanos
    }
}

#[derive(Debug, PartialEq)]
pub struct Facts {
    // ---- profile (mode-independent) ----
    pub is_supporter: bool,
    pub is_active: bool,
    pub is_restricted: bool,
    pub has_badge: bool,
    pub has_group_badge: bool,
    pub osu_joined_at: Option<Timestamp>,
    pub last_visit_at: Option<Timestamp>,
    pub badge_count: i64,
    pub follower_count: i64,
    pub mapping_subscribers: i64,
    pub kudosu: i64,
    pub ranked_beatmaps: i64,
    pub loved_beatmaps: i64,
    pub mapping_playcount: i64,
    pub replays_watched_by_others: i64,
    pub favourite_count: i64,
    pub country_code: Option<String>,
    pub username: String,
    pub groups: Vec<String>,
    pub playstyles: Vec<String>,
    // ---- per-mode (for the role link's default_mode) ----
    /// `None` if the player has no ranked plays in this mode.
    pub global_rank: Option<i64>,
    pub country_rank: Option<i64>,
    pub performance_points: i64,
    pub play_count: i64,
    pub play_time_hours: i64,
    pub total_score: i64,
    pub ranked_score: i64,
    pub hit_accuracy: i64,
    pub max_combo: i64,
    pub level_int: i64,
    pub ss_count: i64,
    pub s_count: i64,
    pub a_count: i64,
}

impl Default for Facts {
    /// A player of whom nothing is known.
    fn default() -> (r: Self)
        ensures
            r.is_blank(),
    {
        Facts {
            is_supporter: false,
            is_active: false,
            is_restricted: false,
            has_badge: false,
            has_group_badge: false,
            osu_joined_at: None,
            last_visit_at: None,
            badge_count: 0,
            follower_count: 0,
            mapping_subscribers: 0,
            kudosu: 0,
            ranked_beatmaps: 0,
            loved_beatmaps: 0,
            mapping_playcount: 0,
            replays_watched_by_others: 0,
            favourite_count: 0,
            country_code: None,
            username: String::new(),
            groups: Vec::new(),
            playstyles: Vec::new(),
            global_rank: None,
            country_rank: None,
            performance_points: 0,
            play_count: 0,
            play_time_hours: 0,
            total_score: 0,
            ranked_score: 0,
            hit_accuracy: 0,
            max_combo: 0,
            level_int: 0,
            ss_count: 0,
            s_count: 0,
            a_count: 0,
        }
    }
}

impl Facts {
    /// True for the facts of a player of whom nothing is known.
    pub open spec fn is_blank(self) -> bool {
        &&& !self.is_supporter && !self.is_active && !self.is_restricted && !self.has_badge
            && !self.has_group_badge
        &&& self.osu_joined_at is None && self.last_visit_at is None
        &&& self.badge_count == 0 && self.follower_count == 0 && self.mapping_subscribers == 0
            && self.kudosu == 0 && self.ranked_beatmaps == 0 && self.loved_beatmaps == 0
            && self.mapping_playcount == 0 && self.replays_watched_by_others == 0
            && self.favourite_count == 0
        &&& self.country_code is None && self.username@.len() == 0 && self.groups@.len() == 0
            && self.playstyles@.len() == 0
        &&& self.global_rank is None && self.country_rank is None
        &&& self.performance_points == 0 && self.play_count == 0 && self.play_time_hours == 0
            && self.total_score == 0 && self.ranked_score == 0 && self.hit_accuracy == 0
            && self.max_combo == 0 && self.level_int == 0 && self.ss_count == 0 && self.s_count == 0
            && self.a_count == 0
    }

    /// True when the two agree on what does not depend on the game mode.
    pub open spec fn same_profile(self, other: Facts) -> bool {
        &&& self.is_supporter == other.is_supporter
        &&& self.is_active == other.is_active
        &&& self.is_restricted == other.is_restricted
        &&& self.has_badge == other.has_badge
        &&& self.has_group_badge == other.has_group_badge
        &&& self.osu_joined_at == other.osu_joined_at
        &&& self.last_visit_at == other.last_visit_at
        &&& self.badge_count == other.badge_count
        &&& self.follower_count == other.follower_count
        &&& self.mapping_subscribers == other.mapping_subscribers
        &&& self.kudosu == other.kudosu
        &&& self.ranked_beatmaps == other.ranked_beatmaps
        &&& self.loved_beatmaps == other.loved_beatmaps
        &&& self.mapping_playcount == other.mapping_playcount
        &&& self.replays_watched_by_others == other.replays_watched_by_others
        &&& self.favourite_count == other.favourite_count
        &&& self.country_code == other.country_code
        &&& self.username == other.username
        &&& self.groups == other.groups
        &&& self.playstyles == other.playstyles
    }

    /// True when the two agree on what is read for a game mode.
    pub open spec fn same_stats(self, other: Facts) -> bool {
        &&& self.global_rank == other.global_rank
        &&& self.country_rank == other.country_rank
        &&& self.performance_points == other.performance_points
        &&& self.play_count == other.play_count
        &&& self.play_time_hours == other.play_time_hours
        &&& self.total_score == other.total_score
        &&& self.ranked_score == other.ranked_score
        &&& self.hit_accuracy == other.hit_accuracy
        &&& self.max_combo == other.max_combo
        &&& self.level_int == other.level_int
        &&& self.ss_count == other.ss_count
        &&& self.s_count == other.s_count
        &&& self.a_count == other.a_count
    }
}

} // verus!
