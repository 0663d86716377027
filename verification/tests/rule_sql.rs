//! The SQL pushdown on concrete rules.

use osu_player_role::json::Value;
use osu_player_role::models::condition::{Condition, ConditionOperator as Op, ConditionTarget as T};
use osu_player_role::models::mode::Mode;
use osu_player_role::models::rule::{ConditionGroup, RuleTree};
use osu_player_role::services::rule_sql::{build_rule_where, escape_like, target_expr, Bind};

fn cond(t: T, op: Op, v: Value) -> Condition {
    Condition { target: t, operator: op, value: v, value_end: None }
}

fn tree(groups: Vec<Vec<Condition>>) -> RuleTree {
    RuleTree {
        grant_on_any_player: false,
        default_mode: Mode::Osu,
        groups: groups.into_iter().map(|conditions| ConditionGroup { conditions }).collect(),
    }
}

fn texts(list: &[&str]) -> Value {
    Value::Array(list.iter().map(|s| Value::text(s)).collect())
}

#[test]
fn grant_on_any_is_true() {
    let t = RuleTree { grant_on_any_player: true, ..Default::default() };
    let (sql, binds) = build_rule_where(&t, 1);
    assert_eq!(sql, "TRUE");
    assert!(binds.is_empty());
}

#[test]
fn convention_42_empty_is_false() {
    let t = RuleTree::default();
    let (sql, _) = build_rule_where(&t, 1);
    assert_eq!(sql, "FALSE");
}

#[test]
fn top_1k_pp_clause() {
    let t = RuleTree {
        grant_on_any_player: false,
        default_mode: Mode::Mania,
        groups: vec![ConditionGroup {
            conditions: vec![cond(T::GlobalRank, Op::Lte, Value::number(1000))],
        }],
    };
    let (sql, binds) = build_rule_where(&t, 1);
    assert!(sql.contains("os.global_rank"));
    assert!(sql.contains("<= $2"));
    assert_eq!(binds.len(), 1);
    assert!(matches!(binds[0], Bind::Int(1000)));
}

#[test]
fn supporter_or_jp_or() {
    let t = RuleTree {
        grant_on_any_player: false,
        default_mode: Mode::Osu,
        groups: vec![
            ConditionGroup { conditions: vec![cond(T::IsSupporter, Op::Eq, Value::Bool(true))] },
            ConditionGroup { conditions: vec![cond(T::CountryCode, Op::Eq, Value::text("JP"))] },
        ],
    };
    let (sql, _) = build_rule_where(&t, 1);
    assert!(sql.contains(" OR "));
    assert!(sql.contains("ou.is_supporter"));
    assert!(sql.contains("ou.country_code"));
}

#[test]
fn group_in_uses_array_overlap() {
    let t = RuleTree {
        grant_on_any_player: false,
        default_mode: Mode::Osu,
        groups: vec![ConditionGroup {
            conditions: vec![cond(T::GroupName, Op::In, texts(&["BN", "NAT"]))],
        }],
    };
    let (sql, binds) = build_rule_where(&t, 1);
    assert!(sql.contains(" && $2::text[]"));
    match &binds[0] {
        Bind::TextArray(v) => assert_eq!(v, &vec!["BN".to_string(), "NAT".to_string()]),
        _ => panic!(),
    }
}

#[test]
fn between_emits_two_binds() {
    let mut c = cond(T::PerformancePoints, Op::Between, Value::number(5000));
    c.value_end = Some(Value::number(10_000));
    let t = RuleTree {
        grant_on_any_player: false,
        default_mode: Mode::Osu,
        groups: vec![ConditionGroup { conditions: vec![c] }],
    };
    let (sql, binds) = build_rule_where(&t, 0);
    assert!(sql.contains(">= $1") && sql.contains("<= $2"));
    assert_eq!(binds.len(), 2);
}

#[test]
fn like_escapes_wildcards() {
    let t = RuleTree {
        grant_on_any_player: false,
        default_mode: Mode::Osu,
        groups: vec![ConditionGroup {
            conditions: vec![cond(T::Username, Op::Contains, Value::text("100%_real"))],
        }],
    };
    let (_, binds) = build_rule_where(&t, 0);
    match &binds[0] {
        Bind::Text(s) => assert_eq!(s, "%100\\%\\_real%"),
        _ => panic!(),
    }
}

#[test]
fn backslashes_are_escaped_too() {
    assert_eq!(escape_like("a\\b%c_d"), "a\\\\b\\%c\\_d");
    assert_eq!(escape_like("plain"), "plain");
    assert_eq!(escape_like(""), "");
}

#[test]
fn whole_clause_with_numbered_parameters() {
    let mut pp = cond(T::PerformancePoints, Op::Between, Value::number(1));
    pp.value_end = Some(Value::number(2));
    let t = tree(vec![
        vec![cond(T::IsSupporter, Op::Eq, Value::Bool(true)), pp],
        vec![cond(T::Username, Op::Neq, Value::text("x"))],
    ]);
    let (sql, binds) = build_rule_where(&t, 2);
    let flag = target_expr(T::IsSupporter);
    let points = target_expr(T::PerformancePoints);
    let name = target_expr(T::Username);
    assert_eq!(
        sql,
        format!(
            "(({flag} = $3 AND (({points}) >= $4 AND ({points}) <= $5)) OR ({name} IS DISTINCT FROM $6))"
        )
    );
    assert_eq!(
        binds,
        vec![Bind::Bool(true), Bind::Int(1), Bind::Int(2), Bind::Text("x".to_string())]
    );
}

#[test]
fn numbers_of_two_digits_are_written_out() {
    let conditions = |n: usize| -> Vec<Condition> {
        (0..n).map(|_| cond(T::Kudosu, Op::Gt, Value::number(0))).collect()
    };
    let (sql, binds) = build_rule_where(&tree(vec![conditions(12)]), 0);
    assert_eq!(binds.len(), 12);
    assert!(sql.ends_with("> $12))"));
}

#[test]
fn an_empty_group_is_false() {
    let (sql, binds) = build_rule_where(&tree(vec![vec![]]), 0);
    assert_eq!(sql, "(FALSE)");
    assert!(binds.is_empty());
}

#[test]
fn lists_without_texts_name_nothing() {
    let numbers = || Value::Array(vec![Value::number(5)]);
    let (sql, binds) = build_rule_where(
        &tree(vec![vec![
            cond(T::CountryCode, Op::In, numbers()),
            cond(T::CountryCode, Op::NotIn, numbers()),
            cond(T::GroupName, Op::In, numbers()),
            cond(T::GroupName, Op::NotIn, numbers()),
        ]]),
        0,
    );
    assert_eq!(sql, "((FALSE AND ou.country_code IS NOT NULL AND FALSE AND TRUE))");
    assert!(binds.is_empty());
}

#[test]
fn every_operator_has_its_form() {
    let code = target_expr(T::CountryCode);
    let groups = target_expr(T::GroupName);
    let rank = target_expr(T::GlobalRank);
    let form = |c: Condition| build_rule_where(&tree(vec![vec![c]]), 0).0;
    assert_eq!(form(cond(T::GlobalRank, Op::Neq, Value::number(1))), format!("(({rank} <> $1))"));
    assert_eq!(form(cond(T::GlobalRank, Op::Gt, Value::number(1))), format!("((({rank}) > $1))"));
    assert_eq!(form(cond(T::GlobalRank, Op::Gte, Value::number(1))), format!("((({rank}) >= $1))"));
    assert_eq!(form(cond(T::GlobalRank, Op::Lt, Value::number(1))), format!("((({rank}) < $1))"));
    assert_eq!(
        form(cond(T::CountryCode, Op::Contains, Value::text("J"))),
        format!("(({code} LIKE $1))")
    );
    assert_eq!(form(cond(T::CountryCode, Op::Regex, Value::text("J"))), format!("(({code} ~ $1))"));
    assert_eq!(
        form(cond(T::CountryCode, Op::In, texts(&["J"]))),
        format!("(({code} = ANY($1::text[])))")
    );
    assert_eq!(
        form(cond(T::CountryCode, Op::NotIn, texts(&["J"]))),
        format!("((({code} IS NOT NULL AND {code} <> ALL($1::text[]))))")
    );
    assert_eq!(
        form(cond(T::GroupName, Op::Eq, Value::text("BN"))),
        format!("((({groups} @> ARRAY[$1::text])))")
    );
    assert_eq!(
        form(cond(T::GroupName, Op::Neq, Value::text("BN"))),
        format!("((NOT ({groups} @> ARRAY[$1::text])))")
    );
    assert_eq!(
        form(cond(T::GroupName, Op::Contains, Value::text("B"))),
        format!("((EXISTS (SELECT 1 FROM unnest({groups}) AS x WHERE x LIKE $1)))")
    );
    assert_eq!(
        form(cond(T::GroupName, Op::Regex, Value::text("B"))),
        format!("((EXISTS (SELECT 1 FROM unnest({groups}) AS x WHERE x ~ $1)))")
    );
    assert_eq!(
        form(cond(T::GroupName, Op::NotIn, texts(&["BN"]))),
        format!("((NOT ({groups} && $1::text[])))")
    );
    assert_eq!(form(cond(T::GroupName, Op::Gt, Value::number(1))), "((FALSE))");
}

#[test]
fn expressions_read_their_table() {
    assert_eq!(
        target_expr(T::DaysSinceLastVisit),
        "TRUNC(EXTRACT(EPOCH FROM (now() - ou.last_visit_at)) / 86400)"
    );
    for (target, alias, default) in [
        (T::IsActive, "ou.", true),
        (T::AccountAgeDays, "ou.", false),
        (T::CountryCode, "ou.", false),
        (T::GlobalRank, "os.", false),
        (T::SsCount, "os.", true),
    ] {
        let expr = target_expr(target);
        assert_eq!(expr.contains("os."), alias == "os.");
        assert_eq!(expr.contains("ou."), alias == "ou.");
        assert_eq!(expr.contains("COALESCE("), default);
    }
}
