//! Condition target / operator types used in the rule tree.
//!
//! - [`ConditionTarget`] names a fact that is read from a linked osu! user.
//! - [`ConditionOperator`] names a comparison.
//! - Which operators a target takes is decided by the target's `kind()`.
//!
//! Targets split into two groups (see `is_per_mode`):
//!   * **profile**: mode-independent (supporter status, country, badges, ...)
//!   * **per-mode**: uses the rule's `default_mode` (rank, PP, plays, ...)

use crate::json::Value;
use crate::text;
use vstd::prelude::*;

verus! {

/// What kind of data a target produces. Drives which operators are valid
/// and how literal values are coerced.
#[derive(Debug, Clone, Copy, PartialEq, Eq, Structural)]
pub enum TargetKind {
    Bool,
    Int,
    String,
}

#[derive(Debug, Clone, Copy, PartialEq, Eq, Structural)]
pub enum ConditionTarget {
    // ---- Profile facts (mode-independent) ----
    /// User has an active osu!supporter tag.
    IsSupporter,
    /// `last_visit` within the last 30 days, as osu! reports it.
    IsActive,
    /// Account is silenced / banned / restricted.
    IsRestricted,
    /// `badge_count > 0`.
    HasBadge,
    /// In at least one osu! user group (BN / GMT / NAT / DEV / ALM / etc.).
    HasGroupBadge,
    /// Days since the osu! account was created.
    AccountAgeDays,
    /// Days since the last recorded visit to osu!. Lower = more active.
    DaysSinceLastVisit,
    /// Total badges on the profile.
    BadgeCount,
    /// People following this user.
    FollowerCount,
    /// People subscribed to this user's beatmaps (mapper following).
    MappingSubscribers,
    /// Total kudosu earned (mapping reputation).
    Kudosu,
    /// Count of ranked/approved beatmaps the user has authored.
    RankedBeatmaps,
    /// Count of loved beatmaps.
    LovedBeatmaps,
    /// Total playcount across all of the user's maps (mapper popularity).
    MappingPlaycount,
    /// Replays of this user's plays watched by other players.
    ReplaysWatchedByOthers,
    /// Beatmapsets this user has favourited.
    FavouriteCount,
    /// ISO-3166 country code, uppercase ("US", "JP", ...).
    CountryCode,
    /// osu! username.
    Username,
    /// Exact osu! user group short name. Use `in` / `not_in` for "any of".
    GroupName,
    /// One of "mouse" | "keyboard" | "tablet" | "touch". Use `in` to allow
    /// multiple.
    Playstyle,

    // ---- Per-mode facts (use rule's default_mode) ----
    /// Global PP rank in this mode. `lte 1000` means "top 1k".
    GlobalRank,
    /// Country PP rank in this mode.
    CountryRank,
    /// Performance points, rounded to nearest integer.
    PerformancePoints,
    /// Total play count in this mode.
    PlayCount,
    /// Total time played in this mode, rounded down to hours.
    PlayTimeHours,
    /// Total score in this mode (BIGINT-backed).
    TotalScore,
    /// Ranked score in this mode (BIGINT-backed).
    RankedScore,
    /// Whole-percent hit accuracy in this mode (rounded down).
    HitAccuracy,
    /// Highest combo in this mode.
    MaxCombo,
    /// Integer level (drops the level progress fraction).
    LevelInt,
    /// Count of SS grades (regular *and* silver SS).
    SsCount,
    /// Count of S grades (regular *and* silver S).
    SCount,
    /// Count of A grades.
    ACount,
}

impl ConditionTarget {
    /// True for the targets that are a yes-or-no fact.
    pub open spec fn is_flag(self) -> bool {
        self is IsSupporter || self is IsActive || self is IsRestricted || self is HasBadge
            || self is HasGroupBadge
    }

    /// True for the targets that are a text or a list of texts.
    pub open spec fn is_textual(self) -> bool {
        self is CountryCode || self is Username || self is GroupName || self is Playstyle
    }

    /// True for the targets that are a list of texts.
    pub open spec fn is_list(self) -> bool {
        self is GroupName || self is Playstyle
    }

    /// What kind of data this target produces: everything that is neither a
    /// flag nor a text is a number.
    pub open spec fn spec_kind(self) -> TargetKind {
        if self.is_flag() {
            TargetKind::Bool
        } else if self.is_textual() {
            TargetKind::String
        } else {
            TargetKind::Int
        }
    }

    pub fn kind(self) -> (r: TargetKind)
        ensures
            r == self.spec_kind(),
    {
        match self {
            ConditionTarget::IsSupporter
            | ConditionTarget::IsActive
            | ConditionTarget::IsRestricted
            | ConditionTarget::HasBadge
            | ConditionTarget::HasGroupBadge => TargetKind::Bool,
            ConditionTarget::CountryCode
            | ConditionTarget::Username
            | ConditionTarget::GroupName
            | ConditionTarget::Playstyle => TargetKind::String,
            ConditionTarget::AccountAgeDays
            | ConditionTarget::DaysSinceLastVisit
            | ConditionTarget::BadgeCount
            | ConditionTarget::FollowerCount
            | ConditionTarget::MappingSubscribers
            | ConditionTarget::Kudosu
            | ConditionTarget::RankedBeatmaps
            | ConditionTarget::LovedBeatmaps
            | ConditionTarget::MappingPlaycount
            | ConditionTarget::ReplaysWatchedByOthers
            | ConditionTarget::FavouriteCount
            | ConditionTarget::GlobalRank
            | ConditionTarget::CountryRank
            | ConditionTarget::PerformancePoints
            | ConditionTarget::PlayCount
            | ConditionTarget::PlayTimeHours
            | ConditionTarget::TotalScore
            | ConditionTarget::RankedScore
            | ConditionTarget::HitAccuracy
            | ConditionTarget::MaxCombo
            | ConditionTarget::LevelInt
            | ConditionTarget::SsCount
            | ConditionTarget::SCount
            | ConditionTarget::ACount => TargetKind::Int,
        }
    }

    /// True for the targets that are read from the statistics of one game mode.
    pub open spec fn spec_per_mode(self) -> bool {
        match self {
            ConditionTarget::GlobalRank
            | ConditionTarget::CountryRank
            | ConditionTarget::PerformancePoints
            | ConditionTarget::PlayCount
            | ConditionTarget::PlayTimeHours
            | ConditionTarget::TotalScore
            | ConditionTarget::RankedScore
            | ConditionTarget::HitAccuracy
            | ConditionTarget::MaxCombo
            | ConditionTarget::LevelInt
            | ConditionTarget::SsCount
            | ConditionTarget::SCount
            | ConditionTarget::ACount => true,
            _ => false,
        }
    }

    /// True iff this target reads a per-game-mode stat and therefore depends
    /// on the rule tree's `default_mode`.
    pub fn is_per_mode(self) -> (r: bool)
        ensures
            r == self.spec_per_mode(),
    {
        match self {
            ConditionTarget::GlobalRank
            | ConditionTarget::CountryRank
            | ConditionTarget::PerformancePoints
            | ConditionTarget::PlayCount
            | ConditionTarget::PlayTimeHours
            | ConditionTarget::TotalScore
            | ConditionTarget::RankedScore
            | ConditionTarget::HitAccuracy
            | ConditionTarget::MaxCombo
            | ConditionTarget::LevelInt
            | ConditionTarget::SsCount
            | ConditionTarget::SCount
            | ConditionTarget::ACount => true,
            _ => false,
        }
    }

    /// The name under which a saved rule holds this target.
    pub open spec fn key(self) -> Seq<char> {
        match self {
            ConditionTarget::IsSupporter => "is_supporter"@,
            ConditionTarget::IsActive => "is_active"@,
            ConditionTarget::IsRestricted => "is_restricted"@,
            ConditionTarget::HasBadge => "has_badge"@,
            ConditionTarget::HasGroupBadge => "has_group_badge"@,
            ConditionTarget::AccountAgeDays => "account_age_days"@,
            ConditionTarget::DaysSinceLastVisit => "days_since_last_visit"@,
            ConditionTarget::BadgeCount => "badge_count"@,
            ConditionTarget::FollowerCount => "follower_count"@,
            ConditionTarget::MappingSubscribers => "mapping_subscribers"@,
            ConditionTarget::Kudosu => "kudosu"@,
            ConditionTarget::RankedBeatmaps => "ranked_beatmaps"@,
            ConditionTarget::LovedBeatmaps => "loved_beatmaps"@,
            ConditionTarget::MappingPlaycount => "mapping_playcount"@,
            ConditionTarget::ReplaysWatchedByOthers => "replays_watched_by_others"@,
            ConditionTarget::FavouriteCount => "favourite_count"@,
            ConditionTarget::CountryCode => "country_code"@,
            ConditionTarget::Username => "username"@,
            ConditionTarget::GroupName => "group_name"@,
            ConditionTarget::Playstyle => "playstyle"@,
            ConditionTarget::GlobalRank => "global_rank"@,
            ConditionTarget::CountryRank => "country_rank"@,
            ConditionTarget::PerformancePoints => "performance_points"@,
            ConditionTarget::PlayCount => "play_count"@,
            ConditionTarget::PlayTimeHours => "play_time_hours"@,
            ConditionTarget::TotalScore => "total_score"@,
            ConditionTarget::RankedScore => "ranked_score"@,
            ConditionTarget::HitAccuracy => "hit_accuracy"@,
            ConditionTarget::MaxCombo => "max_combo"@,
            ConditionTarget::LevelInt => "level_int"@,
            ConditionTarget::SsCount => "ss_count"@,
            ConditionTarget::SCount => "s_count"@,
            ConditionTarget::ACount => "a_count"@,
        }
    }

    pub fn as_str(self) -> (r: &'static str)
        ensures
            r@ == self.key(),
    {
        match self {
            ConditionTarget::IsSupporter => "is_supporter",
            ConditionTarget::IsActive => "is_active",
            ConditionTarget::IsRestricted => "is_restricted",
            ConditionTarget::HasBadge => "has_badge",
            ConditionTarget::HasGroupBadge => "has_group_badge",
            ConditionTarget::AccountAgeDays => "account_age_days",
            ConditionTarget::DaysSinceLastVisit => "days_since_last_visit",
            ConditionTarget::BadgeCount => "badge_count",
            ConditionTarget::FollowerCount => "follower_count",
            ConditionTarget::MappingSubscribers => "mapping_subscribers",
            ConditionTarget::Kudosu => "kudosu",
            ConditionTarget::RankedBeatmaps => "ranked_beatmaps",
            ConditionTarget::LovedBeatmaps => "loved_beatmaps",
            ConditionTarget::MappingPlaycount => "mapping_playcount",
            ConditionTarget::ReplaysWatchedByOthers => "replays_watched_by_others",
            ConditionTarget::FavouriteCount => "favourite_count",
            ConditionTarget::CountryCode => "country_code",
            ConditionTarget::Username => "username",
            ConditionTarget::GroupName => "group_name",
            ConditionTarget::Playstyle => "playstyle",
            ConditionTarget::GlobalRank => "global_rank",
            ConditionTarget::CountryRank => "country_rank",
            ConditionTarget::PerformancePoints => "performance_points",
            ConditionTarget::PlayCount => "play_count",
            ConditionTarget::PlayTimeHours => "play_time_hours",
            ConditionTarget::TotalScore => "total_score",
            ConditionTarget::RankedScore => "ranked_score",
            ConditionTarget::HitAccuracy => "hit_accuracy",
            ConditionTarget::MaxCombo => "max_combo",
            ConditionTarget::LevelInt => "level_int",
            ConditionTarget::SsCount => "ss_count",
            ConditionTarget::SCount => "s_count",
            ConditionTarget::ACount => "a_count",
        }
    }

    /// True when `s` names this target: its key, or one of the short forms.
    pub open spec fn named(self, s: Seq<char>) -> bool {
        ||| s == self.key()
        ||| self is PerformancePoints && s == "pp"@
        ||| self is PlayCount && s == "playcount"@
        ||| self is HitAccuracy && s == "accuracy"@
        ||| self is LevelInt && s == "level"@
    }

    /// The target that `s` stands for, if it names one.
    pub open spec fn of_name(s: Seq<char>) -> Option<ConditionTarget> {
        if exists|t: ConditionTarget| t.named(s) {
            Some(choose|t: ConditionTarget| t.named(s))
        } else {
            None
        }
    }

    pub fn from_key(s: &str) -> (r: Option<Self>)
        ensures
            r == ConditionTarget::of_name(s@),
    {
        let r = if text::same(s, "is_supporter") {
            Some(ConditionTarget::IsSupporter)
        } else if text::same(s, "is_active") {
            Some(ConditionTarget::IsActive)
        } else if text::same(s, "is_restricted") {
            Some(ConditionTarget::IsRestricted)
        } else if text::same(s, "has_badge") {
            Some(ConditionTarget::HasBadge)
        } else if text::same(s, "has_group_badge") {
            Some(ConditionTarget::HasGroupBadge)
        } else if text::same(s, "account_age_days") {
            Some(ConditionTarget::AccountAgeDays)
        } else if text::same(s, "days_since_last_visit") {
            Some(ConditionTarget::DaysSinceLastVisit)
        } else if text::same(s, "badge_count") {
            Some(ConditionTarget::BadgeCount)
        } else if text::same(s, "follower_count") {
            Some(ConditionTarget::FollowerCount)
        } else if text::same(s, "mapping_subscribers") {
            Some(ConditionTarget::MappingSubscribers)
        } else if text::same(s, "kudosu") {
            Some(ConditionTarget::Kudosu)
        } else if text::same(s, "ranked_beatmaps") {
            Some(ConditionTarget::RankedBeatmaps)
        } else if text::same(s, "loved_beatmaps") {
            Some(ConditionTarget::LovedBeatmaps)
        } else if text::same(s, "mapping_playcount") {
            Some(ConditionTarget::MappingPlaycount)
        } else if text::same(s, "replays_watched_by_others") {
            Some(ConditionTarget::ReplaysWatchedByOthers)
        } else if text::same(s, "favourite_count") {
            Some(ConditionTarget::FavouriteCount)
        } else if text::same(s, "country_code") {
            Some(ConditionTarget::CountryCode)
        } else if text::same(s, "username") {
            Some(ConditionTarget::Username)
        } else if text::same(s, "group_name") {
            Some(ConditionTarget::GroupName)
        } else if text::same(s, "playstyle") {
            Some(ConditionTarget::Playstyle)
        } else if text::same(s, "global_rank") {
            Some(ConditionTarget::GlobalRank)
        } else if text::same(s, "country_rank") {
            Some(ConditionTarget::CountryRank)
        } else if text::same(s, "performance_points") || text::same(s, "pp") {
            Some(ConditionTarget::PerformancePoints)
        } else if text::same(s, "play_count") || text::same(s, "playcount") {
            Some(ConditionTarget::PlayCount)
        } else if text::same(s, "play_time_hours") {
            Some(ConditionTarget::PlayTimeHours)
        } else if text::same(s, "total_score") {
            Some(ConditionTarget::TotalScore)
        } else if text::same(s, "ranked_score") {
            Some(ConditionTarget::RankedScore)
        } else if text::same(s, "hit_accuracy") || text::same(s, "accuracy") {
            Some(ConditionTarget::HitAccuracy)
        } else if text::same(s, "max_combo") {
            Some(ConditionTarget::MaxCombo)
        } else if text::same(s, "level_int") || text::same(s, "level") {
            Some(ConditionTarget::LevelInt)
        } else if text::same(s, "ss_count") {
            Some(ConditionTarget::SsCount)
        } else if text::same(s, "s_count") {
            Some(ConditionTarget::SCount)
        } else if text::same(s, "a_count") {
            Some(ConditionTarget::ACount)
        } else {
            None
        };
        proof {
            if let Some(t) = r {
                assert(t.named(s@));
                law_target_names_are_unambiguous(t, ConditionTarget::of_name(s@)->0, s@);
            }
        }
        r
    }
}

#[derive(Debug, Clone, Copy, PartialEq, Eq, Structural)]
pub enum ConditionOperator {
    Eq,
    Neq,
    Gt,
    Gte,
    Lt,
    Lte,
    Between,
    Contains,
    Regex,
    In,
    NotIn,
}

impl ConditionOperator {
    /// The name under which a saved rule holds this operator.
    pub open spec fn key(self) -> Seq<char> {
        match self {
            ConditionOperator::Eq => "eq"@,
            ConditionOperator::Neq => "neq"@,
            ConditionOperator::Gt => "gt"@,
            ConditionOperator::Gte => "gte"@,
            ConditionOperator::Lt => "lt"@,
            ConditionOperator::Lte => "lte"@,
            ConditionOperator::Between => "between"@,
            ConditionOperator::Contains => "contains"@,
            ConditionOperator::Regex => "regex"@,
            ConditionOperator::In => "in"@,
            ConditionOperator::NotIn => "not_in"@,
        }
    }

    pub fn as_str(self) -> (r: &'static str)
        ensures
            r@ == self.key(),
    {
        match self {
            ConditionOperator::Eq => "eq",
            ConditionOperator::Neq => "neq",
            ConditionOperator::Gt => "gt",
            ConditionOperator::Gte => "gte",
            ConditionOperator::Lt => "lt",
            ConditionOperator::Lte => "lte",
            ConditionOperator::Between => "between",
            ConditionOperator::Contains => "contains",
            ConditionOperator::Regex => "regex",
            ConditionOperator::In => "in",
            ConditionOperator::NotIn => "not_in",
        }
    }

    /// The operator that `s` stands for, if it names one.
    pub open spec fn of_name(s: Seq<char>) -> Option<ConditionOperator> {
        if exists|o: ConditionOperator| o.key() == s {
            Some(choose|o: ConditionOperator| o.key() == s)
        } else {
            None
        }
    }

    pub fn from_key(s: &str) -> (r: Option<Self>)
        ensures
            r == ConditionOperator::of_name(s@),
    {
        let r = if text::same(s, "eq") {
            Some(ConditionOperator::Eq)
        } else if text::same(s, "neq") {
            Some(ConditionOperator::Neq)
        } else if text::same(s, "gt") {
            Some(ConditionOperator::Gt)
        } else if text::same(s, "gte") {
            Some(ConditionOperator::Gte)
        } else if text::same(s, "lt") {
            Some(ConditionOperator::Lt)
        } else if text::same(s, "lte") {
            Some(ConditionOperator::Lte)
        } else if text::same(s, "between") {
            Some(ConditionOperator::Between)
        } else if text::same(s, "contains") {
            Some(ConditionOperator::Contains)
        } else if text::same(s, "regex") {
            Some(ConditionOperator::Regex)
        } else if text::same(s, "in") {
            Some(ConditionOperator::In)
        } else if text::same(s, "not_in") {
            Some(ConditionOperator::NotIn)
        } else {
            None
        };
        proof {
            if let Some(o) = r {
                assert(o.key() == s@);
                law_operator_keys_differ(o, ConditionOperator::of_name(s@)->0);
            }
        }
        r
    }

    /// Which operators produce a meaningful predicate on each kind of target.
    pub open spec fn suits(self, kind: TargetKind) -> bool {
        match kind {
            TargetKind::Bool => self is Eq,
            TargetKind::Int => !(self is Contains || self is Regex || self is In || self is NotIn),
            TargetKind::String => self is Eq || self is Neq || self is Contains || self is Regex
                || self is In || self is NotIn,
        }
    }

    /// Operators that produce a meaningful predicate on each target kind.
    /// Save-time validation rejects mismatches.
    pub fn valid_for(self, kind: TargetKind) -> (r: bool)
        ensures
            r == self.suits(kind),
    {
        match kind {
            // `neq` on a flag collapses to `eq` on the opposite and would
            // surprise admins, so it is not offered.
            TargetKind::Bool => matches!(self, ConditionOperator::Eq),
            TargetKind::Int => matches!(
                self,
                ConditionOperator::Eq
                    | ConditionOperator::Neq
                    | ConditionOperator::Gt
                    | ConditionOperator::Gte
                    | ConditionOperator::Lt
                    | ConditionOperator::Lte
                    | ConditionOperator::Between
            ),
            TargetKind::String => matches!(
                self,
                ConditionOperator::Eq
                    | ConditionOperator::Neq
                    | ConditionOperator::Contains
                    | ConditionOperator::Regex
                    | ConditionOperator::In
                    | ConditionOperator::NotIn
            ),
        }
    }
}

/// A single condition row inside an AND-group.
#[derive(Debug, PartialEq)]
pub struct Condition {
    pub target: ConditionTarget,
    pub operator: ConditionOperator,
    pub value: Value,
    pub value_end: Option<Value>,
}

impl Condition {
    /// The shape of a condition that has been validated: the operator suits the
    /// target, and the value is what the two call for.
    pub open spec fn well_formed(self) -> bool {
        &&& self.operator.suits(self.target.spec_kind())
        &&& match self.target.spec_kind() {
            TargetKind::Bool => self.value@ is Bool,
            TargetKind::Int => self.value@.as_i64() is Some,
            TargetKind::String => if self.operator is In || self.operator is NotIn {
                self.value@ is List && self.value@->List_0.len() > 0
            } else {
                self.value@ is Text
            },
        }
        &&& if self.operator is Between {
            self.value_end is Some && self.value_end->0@.as_i64() is Some
        } else {
            self.value_end is None
        }
    }
}

/// The length of a target's key, and the characters it starts and ends with.
spec fn target_key_shape(t: ConditionTarget) -> (int, char, char) {
    match t {
        ConditionTarget::IsSupporter => (12, 'i', 'r'),
        ConditionTarget::IsActive => (9, 'i', 'e'),
        ConditionTarget::IsRestricted => (13, 'i', 'd'),
        ConditionTarget::HasBadge => (9, 'h', 'e'),
        ConditionTarget::HasGroupBadge => (15, 'h', 'e'),
        ConditionTarget::AccountAgeDays => (16, 'a', 's'),
        ConditionTarget::DaysSinceLastVisit => (21, 'd', 't'),
        ConditionTarget::BadgeCount => (11, 'b', 't'),
        ConditionTarget::FollowerCount => (14, 'f', 't'),
        ConditionTarget::MappingSubscribers => (19, 'm', 's'),
        ConditionTarget::Kudosu => (6, 'k', 'u'),
        ConditionTarget::RankedBeatmaps => (15, 'r', 's'),
        ConditionTarget::LovedBeatmaps => (14, 'l', 's'),
        ConditionTarget::MappingPlaycount => (17, 'm', 't'),
        ConditionTarget::ReplaysWatchedByOthers => (25, 'r', 's'),
        ConditionTarget::FavouriteCount => (15, 'f', 't'),
        ConditionTarget::CountryCode => (12, 'c', 'e'),
        ConditionTarget::Username => (8, 'u', 'e'),
        ConditionTarget::GroupName => (10, 'g', 'e'),
        ConditionTarget::Playstyle => (9, 'p', 'e'),
        ConditionTarget::GlobalRank => (11, 'g', 'k'),
        ConditionTarget::CountryRank => (12, 'c', 'k'),
        ConditionTarget::PerformancePoints => (18, 'p', 's'),
        ConditionTarget::PlayCount => (10, 'p', 't'),
        ConditionTarget::PlayTimeHours => (15, 'p', 's'),
        ConditionTarget::TotalScore => (11, 't', 'e'),
        ConditionTarget::RankedScore => (12, 'r', 'e'),
        ConditionTarget::HitAccuracy => (12, 'h', 'y'),
        ConditionTarget::MaxCombo => (9, 'm', 'o'),
        ConditionTarget::LevelInt => (9, 'l', 't'),
        ConditionTarget::SsCount => (8, 's', 't'),
        ConditionTarget::SCount => (7, 's', 't'),
        ConditionTarget::ACount => (7, 'a', 't'),
    }
}

proof fn lemma_target_key(t: ConditionTarget)
    ensures
        t.key().len() == target_key_shape(t).0,
        t.key()[0] == target_key_shape(t).1,
        t.key().last() == target_key_shape(t).2,
{
    match t {
        ConditionTarget::IsSupporter => {
            reveal_strlit("is_supporter");
        },
        ConditionTarget::IsActive => {
            reveal_strlit("is_active");
        },
        ConditionTarget::IsRestricted => {
            reveal_strlit("is_restricted");
        },
        ConditionTarget::HasBadge => {
            reveal_strlit("has_badge");
        },
        ConditionTarget::HasGroupBadge => {
            reveal_strlit("has_group_badge");
        },
        ConditionTarget::AccountAgeDays => {
            reveal_strlit("account_age_days");
        },
        ConditionTarget::DaysSinceLastVisit => {
            reveal_strlit("days_since_last_visit");
        },
        ConditionTarget::BadgeCount => {
            reveal_strlit("badge_count");
        },
        ConditionTarget::FollowerCount => {
            reveal_strlit("follower_count");
        },
        ConditionTarget::MappingSubscribers => {
            reveal_strlit("mapping_subscribers");
        },
        ConditionTarget::Kudosu => {
            reveal_strlit("kudosu");
        },
        ConditionTarget::RankedBeatmaps => {
            reveal_strlit("ranked_beatmaps");
        },
        ConditionTarget::LovedBeatmaps => {
            reveal_strlit("loved_beatmaps");
        },
        ConditionTarget::MappingPlaycount => {
            reveal_strlit("mapping_playcount");
        },
        ConditionTarget::ReplaysWatchedByOthers => {
            reveal_strlit("replays_watched_by_others");
        },
        ConditionTarget::FavouriteCount => {
            reveal_strlit("favourite_count");
        },
        ConditionTarget::CountryCode => {
            reveal_strlit("country_code");
        },
        ConditionTarget::Username => {
            reveal_strlit("username");
        },
        ConditionTarget::GroupName => {
            reveal_strlit("group_name");
        },
        ConditionTarget::Playstyle => {
            reveal_strlit("playstyle");
        },
        ConditionTarget::GlobalRank => {
            reveal_strlit("global_rank");
        },
        ConditionTarget::CountryRank => {
            reveal_strlit("country_rank");
        },
        ConditionTarget::PerformancePoints => {
            reveal_strlit("performance_points");
        },
        ConditionTarget::PlayCount => {
            reveal_strlit("play_count");
        },
        ConditionTarget::PlayTimeHours => {
            reveal_strlit("play_time_hours");
        },
        ConditionTarget::TotalScore => {
            reveal_strlit("total_score");
        },
        ConditionTarget::RankedScore => {
            reveal_strlit("ranked_score");
        },
        ConditionTarget::HitAccuracy => {
            reveal_strlit("hit_accuracy");
        },
        ConditionTarget::MaxCombo => {
            reveal_strlit("max_combo");
        },
        ConditionTarget::LevelInt => {
            reveal_strlit("level_int");
        },
        ConditionTarget::SsCount => {
            reveal_strlit("ss_count");
        },
        ConditionTarget::SCount => {
            reveal_strlit("s_count");
        },
        ConditionTarget::ACount => {
            reveal_strlit("a_count");
        },
    }
}

/// A name stands for at most one target.
pub proof fn law_target_names_are_unambiguous(a: ConditionTarget, b: ConditionTarget, s: Seq<char>)
    requires
        a.named(s),
        b.named(s),
    ensures
        a == b,
{
    lemma_target_key(a);
    lemma_target_key(b);
    reveal_strlit("pp");
    assert("pp"@.len() == 2);
    reveal_strlit("playcount");
    assert("playcount"@.len() == 9 && "playcount"@[0] == 'p' && "playcount"@.last() == 't');
    reveal_strlit("accuracy");
    assert("accuracy"@.len() == 8 && "accuracy"@[0] == 'a');
    reveal_strlit("level");
    assert("level"@.len() == 5);
}

/// Reading back the key of a target gives that target.
pub proof fn law_target_key_round_trip(t: ConditionTarget)
    ensures
        ConditionTarget::of_name(t.key()) == Some(t),
{
    assert(t.named(t.key()));
    law_target_names_are_unambiguous(t, ConditionTarget::of_name(t.key())->0, t.key());
}

/// Reading back the key of an operator gives that operator.
pub proof fn law_operator_key_round_trip(o: ConditionOperator)
    ensures
        ConditionOperator::of_name(o.key()) == Some(o),
{
    assert(o.key() == o.key());
    law_operator_keys_differ(o, ConditionOperator::of_name(o.key())->0);
}

/// The length of an operator's key, and the characters it starts and ends with.
spec fn operator_key_shape(o: ConditionOperator) -> (int, char, char) {
    match o {
        ConditionOperator::Eq => (2, 'e', 'q'),
        ConditionOperator::Neq => (3, 'n', 'q'),
        ConditionOperator::Gt => (2, 'g', 't'),
        ConditionOperator::Gte => (3, 'g', 'e'),
        ConditionOperator::Lt => (2, 'l', 't'),
        ConditionOperator::Lte => (3, 'l', 'e'),
        ConditionOperator::Between => (7, 'b', 'n'),
        ConditionOperator::Contains => (8, 'c', 's'),
        ConditionOperator::Regex => (5, 'r', 'x'),
        ConditionOperator::In => (2, 'i', 'n'),
        ConditionOperator::NotIn => (6, 'n', 'n'),
    }
}

proof fn lemma_operator_key(o: ConditionOperator)
    ensures
        o.key().len() == operator_key_shape(o).0,
        o.key()[0] == operator_key_shape(o).1,
        o.key().last() == operator_key_shape(o).2,
{
    match o {
        ConditionOperator::Eq => {
            reveal_strlit("eq");
        },
        ConditionOperator::Neq => {
            reveal_strlit("neq");
        },
        ConditionOperator::Gt => {
            reveal_strlit("gt");
        },
        ConditionOperator::Gte => {
            reveal_strlit("gte");
        },
        ConditionOperator::Lt => {
            reveal_strlit("lt");
        },
        ConditionOperator::Lte => {
            reveal_strlit("lte");
        },
        ConditionOperator::Between => {
            reveal_strlit("between");
        },
        ConditionOperator::Contains => {
            reveal_strlit("contains");
        },
        ConditionOperator::Regex => {
            reveal_strlit("regex");
        },
        ConditionOperator::In => {
            reveal_strlit("in");
        },
        ConditionOperator::NotIn => {
            reveal_strlit("not_in");
        },
    }
}

/// Two operators never share a key.
pub proof fn law_operator_keys_differ(a: ConditionOperator, b: ConditionOperator)
    requires
        a.key() == b.key(),
    ensures
        a == b,
{
    lemma_operator_key(a);
    lemma_operator_key(b);
}

/// The key of a target has no space around it.
pub proof fn law_target_keys_are_trimmed(t: ConditionTarget)
    ensures
        text::trimmed(t.key()) == t.key(),
        t.key().len() > 0,
{
    lemma_target_key(t);
    text::lemma_nothing_to_trim(t.key());
}

/// The key of an operator has no space around it.
pub proof fn law_operator_keys_are_trimmed(o: ConditionOperator)
    ensures
        text::trimmed(o.key()) == o.key(),
        o.key().len() > 0,
{
    lemma_operator_key(o);
    text::lemma_nothing_to_trim(o.key());
}

/// Every operator suits numbers or texts: comparisons by size suit numbers alone,
/// looking inside and looking up in a list suit texts alone, `eq` suits everything, and
/// `neq` everything but flags.
pub proof fn law_operators_suit_what_they_compare(op: ConditionOperator)
    ensures
        op.suits(TargetKind::Int) || op.suits(TargetKind::String),
        op.suits(TargetKind::Bool) <==> op is Eq,
        op.suits(TargetKind::Int) && op.suits(TargetKind::String) <==> op is Eq || op is Neq,
        op is Gt || op is Gte || op is Lt || op is Lte || op is Between ==> op.suits(
            TargetKind::Int,
        ) && !op.suits(TargetKind::String),
        op is Contains || op is Regex || op is In || op is NotIn ==> op.suits(TargetKind::String)
            && !op.suits(TargetKind::Int),
{
}

/// The short forms that rules may use stand for the targets that they abbreviate.
pub proof fn law_short_forms_of_targets()
    ensures
        ConditionTarget::of_name("pp"@) == Some(ConditionTarget::PerformancePoints),
        ConditionTarget::of_name("playcount"@) == Some(ConditionTarget::PlayCount),
        ConditionTarget::of_name("accuracy"@) == Some(ConditionTarget::HitAccuracy),
        ConditionTarget::of_name("level"@) == Some(ConditionTarget::LevelInt),
{
    assert(ConditionTarget::PerformancePoints.named("pp"@));
    assert(ConditionTarget::PlayCount.named("playcount"@));
    assert(ConditionTarget::HitAccuracy.named("accuracy"@));
    assert(ConditionTarget::LevelInt.named("level"@));
    law_target_names_are_unambiguous(
        ConditionTarget::PerformancePoints,
        ConditionTarget::of_name("pp"@)->0,
        "pp"@,
    );
    law_target_names_are_unambiguous(
        ConditionTarget::PlayCount,
        ConditionTarget::of_name("playcount"@)->0,
        "playcount"@,
    );
    law_target_names_are_unambiguous(
        ConditionTarget::HitAccuracy,
        ConditionTarget::of_name("accuracy"@)->0,
        "accuracy"@,
    );
    law_target_names_are_unambiguous(
        ConditionTarget::LevelInt,
        ConditionTarget::of_name("level"@)->0,
        "level"@,
    );
}

} // verus!
