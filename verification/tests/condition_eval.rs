//! The evaluator on concrete players.

use chrono::Duration;
use osu_player_role::clock;
use osu_player_role::json::Value;
use osu_player_role::models::condition::{Condition, ConditionOperator, ConditionTarget as T};
use osu_player_role::models::facts::{Facts, Timestamp};
use osu_player_role::models::mode::Mode;
use osu_player_role::models::rule::{ConditionGroup, RuleTree};
use osu_player_role::pattern;
use osu_player_role::services::condition_eval::{
    bool_match, evaluate, evaluate_at, evaluate_single, int_match, list_string_match, string_match,
};
use osu_player_role::text;

fn c(target: T, op: ConditionOperator, value: Value) -> Condition {
    Condition { target, operator: op, value, value_end: None }
}

fn one_group(conds: Vec<Condition>) -> RuleTree {
    RuleTree {
        grant_on_any_player: false,
        default_mode: Mode::Osu,
        groups: vec![ConditionGroup { conditions: conds }],
    }
}

fn or_groups(g: Vec<Vec<Condition>>) -> RuleTree {
    RuleTree {
        grant_on_any_player: false,
        default_mode: Mode::Osu,
        groups: g.into_iter().map(|cs| ConditionGroup { conditions: cs }).collect(),
    }
}

fn texts(list: &[&str]) -> Value {
    Value::Array(list.iter().map(|s| Value::text(s)).collect())
}

fn days_ago(days: i64) -> Option<Timestamp> {
    let t = chrono::Utc::now() - Duration::days(days);
    Some(Timestamp { secs: t.timestamp(), nanos: t.timestamp_subsec_nanos() })
}

#[test]
fn convention_42_unconfigured_means_nobody() {
    assert!(!evaluate(&RuleTree::default(), &Facts::default()));
}

#[test]
fn grant_on_any_short_circuits_true() {
    let t = RuleTree { grant_on_any_player: true, ..Default::default() };
    assert!(evaluate(&t, &Facts::default()));
}

#[test]
fn top_1k_globally_rule() {
    let t = one_group(vec![c(T::GlobalRank, ConditionOperator::Lte, Value::number(1000))]);
    let mut f = Facts::default();
    f.global_rank = Some(800);
    assert!(evaluate(&t, &f));
    f.global_rank = Some(2000);
    assert!(!evaluate(&t, &f));
    // Unranked player: no rank set must NOT match.
    f.global_rank = None;
    assert!(!evaluate(&t, &f));
}

#[test]
fn supporter_or_jp_rule() {
    let t = or_groups(vec![
        vec![c(T::IsSupporter, ConditionOperator::Eq, Value::Bool(true))],
        vec![c(T::CountryCode, ConditionOperator::Eq, Value::text("JP"))],
    ]);
    let mut f = Facts::default();
    f.is_supporter = true;
    assert!(evaluate(&t, &f));
    f.is_supporter = false;
    f.country_code = Some("JP".into());
    assert!(evaluate(&t, &f));
    f.country_code = Some("US".into());
    assert!(!evaluate(&t, &f));
}

#[test]
fn between_pp_inclusive() {
    let mut cond = c(T::PerformancePoints, ConditionOperator::Between, Value::number(5000));
    cond.value_end = Some(Value::number(10000));
    let t = one_group(vec![cond]);
    let mut f = Facts::default();
    f.performance_points = 5000;
    assert!(evaluate(&t, &f));
    f.performance_points = 10000;
    assert!(evaluate(&t, &f));
    f.performance_points = 4999;
    assert!(!evaluate(&t, &f));
}

#[test]
fn account_age_days_from_join_date() {
    let t = one_group(vec![c(T::AccountAgeDays, ConditionOperator::Gte, Value::number(365))]);
    let mut f = Facts::default();
    f.osu_joined_at = days_ago(400);
    assert!(evaluate(&t, &f));
    f.osu_joined_at = days_ago(100);
    assert!(!evaluate(&t, &f));
}

#[test]
fn group_name_in_list() {
    let t = one_group(vec![c(T::GroupName, ConditionOperator::In, texts(&["BN", "NAT"]))]);
    let mut f = Facts::default();
    f.groups = vec!["GMT".into()];
    assert!(!evaluate(&t, &f));
    f.groups = vec!["BN".into(), "GMT".into()];
    assert!(evaluate(&t, &f));
}

#[test]
fn realistic_tiered_rule() {
    // Top 1k globally OR (supporter AND ≥10k plays in the mode) OR
    // (group ∈ {BN, GMT, NAT, DEV})
    let t = or_groups(vec![
        vec![c(T::GlobalRank, ConditionOperator::Lte, Value::number(1000))],
        vec![
            c(T::IsSupporter, ConditionOperator::Eq, Value::Bool(true)),
            c(T::PlayCount, ConditionOperator::Gte, Value::number(10_000)),
        ],
        vec![c(T::GroupName, ConditionOperator::In, texts(&["BN", "GMT", "NAT", "DEV"]))],
    ]);
    let mut f = Facts::default();
    f.global_rank = Some(500);
    assert!(evaluate(&t, &f));

    let mut f = Facts::default();
    f.is_supporter = true;
    f.play_count = 12_000;
    assert!(evaluate(&t, &f));

    let mut f = Facts::default();
    f.groups = vec!["BN".into()];
    assert!(evaluate(&t, &f));

    // Plain unranked viewer: nothing matches.
    assert!(!evaluate(&t, &Facts::default()));
}

#[test]
fn bad_regex_returns_false_not_panic() {
    let t = one_group(vec![c(T::Username, ConditionOperator::Regex, Value::text("(("))]);
    let mut f = Facts::default();
    f.username = "anything".into();
    assert!(!evaluate(&t, &f));
}

#[test]
fn regex_searches_the_whole_text() {
    let t = one_group(vec![c(T::Username, ConditionOperator::Regex, Value::text("^pp[0-9]+$"))]);
    let mut f = Facts::default();
    f.username = "pp4000".into();
    assert!(evaluate(&t, &f));
    f.username = "my pp4000".into();
    assert!(!evaluate(&t, &f));
    assert!(pattern::compiles("a|b"));
    assert!(!pattern::compiles("a{99999}{99999}"));
    assert!(pattern::search("b+", "aabba"));
    assert!(!pattern::search("c", "aabba"));
    assert!(!pattern::verdict(None));
    assert!(pattern::verdict(Some(true)));
}

#[test]
fn unset_country_passes_neq_only() {
    let f = Facts::default();
    let neq = one_group(vec![c(T::CountryCode, ConditionOperator::Neq, Value::text("JP"))]);
    assert!(evaluate(&neq, &f));
    let not_in = one_group(vec![c(T::CountryCode, ConditionOperator::NotIn, texts(&["JP"]))]);
    assert!(!evaluate(&not_in, &f));
    let contains = one_group(vec![c(T::CountryCode, ConditionOperator::Contains, Value::text("J"))]);
    assert!(!evaluate(&contains, &f));
}

#[test]
fn empty_list_passes_negations() {
    let f = Facts::default();
    let neq = one_group(vec![c(T::Playstyle, ConditionOperator::Neq, Value::text("mouse"))]);
    assert!(evaluate(&neq, &f));
    let not_in = one_group(vec![c(T::Playstyle, ConditionOperator::NotIn, texts(&["mouse"]))]);
    assert!(evaluate(&not_in, &f));
    let eq = one_group(vec![c(T::Playstyle, ConditionOperator::Eq, Value::text("mouse"))]);
    assert!(!evaluate(&eq, &f));
}

#[test]
fn empty_group_matches_nobody() {
    assert!(!evaluate(&one_group(vec![]), &Facts::default()));
}

#[test]
fn flags_take_eq_only() {
    let t = one_group(vec![c(T::IsActive, ConditionOperator::Neq, Value::Bool(true))]);
    assert!(!evaluate(&t, &Facts::default()));
}

#[test]
fn profile_conditions_ignore_the_stats() {
    let t = one_group(vec![c(T::Kudosu, ConditionOperator::Gt, Value::number(3))]);
    let mut f = Facts::default();
    f.kudosu = 4;
    assert!(evaluate(&t, &f));
    f.play_count = 99;
    f.global_rank = Some(1);
    assert!(evaluate(&t, &f));
}

#[test]
fn days_are_cut_off_towards_zero() {
    let now = Timestamp { secs: 10 * 86_400, nanos: 0 };
    let a_day_less_a_bit = Timestamp { secs: 9 * 86_400, nanos: 1 };
    assert_eq!(clock::whole_days(now, a_day_less_a_bit), 0);
    assert_eq!(clock::whole_days(a_day_less_a_bit, now), 0);
    assert_eq!(clock::whole_days(now, Timestamp { secs: 0, nanos: 0 }), 10);
    let t = one_group(vec![c(T::DaysSinceLastVisit, ConditionOperator::Eq, Value::number(0))]);
    let mut f = Facts::default();
    f.last_visit_at = Some(a_day_less_a_bit);
    assert!(evaluate_at(&t, &f, now));
    f.last_visit_at = Some(Timestamp { secs: 9 * 86_400, nanos: 0 });
    assert!(!evaluate_at(&t, &f, now));
}

#[test]
fn an_instant_just_ahead_is_no_days_away() {
    let now = Timestamp { secs: 1_000_000, nanos: 0 };
    let facts = Facts {
        last_visit_at: Some(Timestamp { secs: 1_000_001, nanos: 0 }),
        ..Default::default()
    };
    let is = |n: i64| {
        one_group(vec![c(T::DaysSinceLastVisit, ConditionOperator::Eq, Value::number(n))])
    };
    assert!(evaluate_at(&is(0), &facts, now));
    assert!(!evaluate_at(&is(-1), &facts, now));
}

#[test]
fn unsuited_operators_never_match() {
    let facts = Facts { username: "5".to_string(), kudosu: 5, ..Default::default() };
    let holds = |target, op, value| evaluate(&one_group(vec![c(target, op, value)]), &facts);
    assert!(!holds(T::Username, ConditionOperator::Gte, Value::number(5)));
    assert!(!holds(T::Kudosu, ConditionOperator::In, texts(&["5"])));
    assert!(!holds(T::Kudosu, ConditionOperator::NotIn, texts(&["6"])));
    assert!(!holds(T::IsActive, ConditionOperator::Neq, Value::Bool(true)));
    assert!(!holds(T::GroupName, ConditionOperator::Lt, Value::number(5)));
}

#[test]
fn exclusions_are_complements() {
    let facts = Facts {
        country_code: Some("JP".to_string()),
        groups: vec!["BN".to_string(), "NAT".to_string()],
        ..Default::default()
    };
    let holds = |target, op, value| evaluate(&one_group(vec![c(target, op, value)]), &facts);
    for list in [&["JP", "BN"][..], &["US"][..], &[][..]] {
        for target in [T::CountryCode, T::GroupName] {
            assert_ne!(
                holds(target, ConditionOperator::In, texts(list)),
                holds(target, ConditionOperator::NotIn, texts(list))
            );
        }
    }
    for s in ["BN", "GMT"] {
        assert_ne!(
            holds(T::GroupName, ConditionOperator::Eq, Value::text(s)),
            holds(T::GroupName, ConditionOperator::Neq, Value::text(s))
        );
    }
}

#[test]
fn single_conditions() {
    let now = Timestamp { secs: 1_000_000, nanos: 0 };
    let facts = Facts { kudosu: 5, username: "peppy".to_string(), ..Default::default() };
    let at_least = |n: i64| c(T::Kudosu, ConditionOperator::Gte, Value::number(n));
    assert!(evaluate_single(&at_least(5), &facts, now));
    assert!(!evaluate_single(&at_least(6), &facts, now));
    let flag = c(T::IsActive, ConditionOperator::Eq, Value::Bool(true));
    assert!(bool_match(&flag, true));
    assert!(!bool_match(&flag, false));
    assert!(int_match(&at_least(5), Some(7)));
    assert!(!int_match(&at_least(5), None));
}

#[test]
fn texts_that_are_missing_only_differ() {
    let country = |op, value| c(T::CountryCode, op, value);
    assert!(string_match(&country(ConditionOperator::Neq, Value::text("JP")), None));
    assert!(!string_match(&country(ConditionOperator::Eq, Value::text("JP")), None));
    assert!(!string_match(&country(ConditionOperator::NotIn, texts(&["JP"])), None));
    assert!(string_match(&country(ConditionOperator::In, texts(&["US", "JP"])), Some("JP")));
    let groups = ["BN".to_string(), "NAT".to_string()];
    let group = |op, s| c(T::GroupName, op, Value::text(s));
    assert!(list_string_match(&group(ConditionOperator::Eq, "NAT"), &groups));
    assert!(!list_string_match(&group(ConditionOperator::Neq, "NAT"), &groups));
    assert!(list_string_match(&group(ConditionOperator::Neq, "GMT"), &[]));
}

#[test]
fn texts_are_the_same_or_not() {
    for (a, b) in [("", ""), ("osu", "osu"), ("\u{e9}", "\u{e9}")] {
        assert!(text::same(a, b));
    }
    for (a, b) in [("osu", "os"), ("os", "osu"), ("osu", "Osu"), ("\u{e9}", "e")] {
        assert!(!text::same(a, b));
    }
}
