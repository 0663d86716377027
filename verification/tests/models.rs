//! Names of targets, operators and modes.

use osu_player_role::models::condition::{ConditionOperator, ConditionTarget, TargetKind};
use osu_player_role::models::facts::Facts;
use osu_player_role::models::mode::Mode;
use osu_player_role::models::rule::{ConditionGroup, RuleTree};

const TARGETS: [&str; 33] = [
    "is_supporter",
    "is_active",
    "is_restricted",
    "has_badge",
    "has_group_badge",
    "account_age_days",
    "days_since_last_visit",
    "badge_count",
    "follower_count",
    "mapping_subscribers",
    "kudosu",
    "ranked_beatmaps",
    "loved_beatmaps",
    "mapping_playcount",
    "replays_watched_by_others",
    "favourite_count",
    "country_code",
    "username",
    "group_name",
    "playstyle",
    "global_rank",
    "country_rank",
    "performance_points",
    "play_count",
    "play_time_hours",
    "total_score",
    "ranked_score",
    "hit_accuracy",
    "max_combo",
    "level_int",
    "ss_count",
    "s_count",
    "a_count",
];

#[test]
fn targets_round_trip() {
    for name in TARGETS {
        assert_eq!(ConditionTarget::from_key(name).unwrap().as_str(), name);
    }
    assert_eq!(ConditionTarget::from_key("Username"), None);
}

#[test]
fn short_forms_of_targets() {
    assert_eq!(ConditionTarget::from_key("pp"), Some(ConditionTarget::PerformancePoints));
    assert_eq!(ConditionTarget::from_key("playcount"), Some(ConditionTarget::PlayCount));
    assert_eq!(ConditionTarget::from_key("accuracy"), Some(ConditionTarget::HitAccuracy));
    assert_eq!(ConditionTarget::from_key("level"), Some(ConditionTarget::LevelInt));
}

#[test]
fn thirteen_targets_depend_on_the_mode() {
    let per_mode: Vec<&str> = TARGETS
        .into_iter()
        .filter(|name| ConditionTarget::from_key(name).unwrap().is_per_mode())
        .collect();
    assert_eq!(per_mode, TARGETS[20..].to_vec());
}

#[test]
fn kinds_and_operators() {
    assert_eq!(ConditionTarget::HasBadge.kind(), TargetKind::Bool);
    assert_eq!(ConditionTarget::MaxCombo.kind(), TargetKind::Int);
    assert_eq!(ConditionTarget::Playstyle.kind(), TargetKind::String);
    for name in
        ["eq", "neq", "gt", "gte", "lt", "lte", "between", "contains", "regex", "in", "not_in"]
    {
        let op = ConditionOperator::from_key(name).unwrap();
        assert_eq!(op.as_str(), name);
        assert_eq!(op.valid_for(TargetKind::Bool), name == "eq");
    }
    assert_eq!(ConditionOperator::from_key("like"), None);
    assert!(ConditionOperator::Between.valid_for(TargetKind::Int));
    assert!(!ConditionOperator::Between.valid_for(TargetKind::String));
    assert!(ConditionOperator::NotIn.valid_for(TargetKind::String));
    assert!(!ConditionOperator::NotIn.valid_for(TargetKind::Int));
}

#[test]
fn modes_round_trip() {
    let names: Vec<&str> = Mode::ALL.iter().map(|m| m.as_str()).collect();
    assert_eq!(names, vec!["osu", "taiko", "fruits", "mania"]);
    for mode in Mode::ALL {
        assert_eq!(Mode::from_key(mode.as_str()), Some(mode));
    }
    assert_eq!(Mode::from_key("standard"), Some(Mode::Osu));
    assert_eq!(Mode::from_key("catch"), Some(Mode::Fruits));
    assert_eq!(Mode::from_key("ctb"), Some(Mode::Fruits));
    assert_eq!(Mode::from_key("OSU"), None);
    assert_eq!(Mode::default(), Mode::Osu);
    assert_eq!(Mode::Osu.label(), "osu! (standard)");
    assert_eq!(Mode::Taiko.label(), "osu!taiko");
    assert_eq!(Mode::Fruits.label(), "osu!catch");
    assert_eq!(Mode::Mania.label(), "osu!mania");
}

#[test]
fn defaults_are_blank() {
    let tree = RuleTree::default();
    assert!(!tree.grant_on_any_player);
    assert!(tree.groups.is_empty());
    assert!(ConditionGroup::default().conditions.is_empty());
    assert_eq!(Facts::default().global_rank, None);
    assert_eq!(Facts::default().username, "");
}
