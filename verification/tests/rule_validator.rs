//! The validator on concrete payloads.

use osu_player_role::error::AppError;
use osu_player_role::json::{Number, Value};
use osu_player_role::models::condition::{ConditionOperator, TargetKind};
use osu_player_role::models::mode::Mode;
use osu_player_role::models::rule::{MAX_CONDITIONS_PER_GROUP, MAX_GROUPS};
use osu_player_role::services::rule_validator::{
    normalize_value, parse_rule_tree, settle_condition, shape_condition, ConditionGroupInput,
    ConditionInput, RuleTreeBody,
};

fn input(target: &str, operator: &str, value: Value) -> ConditionInput {
    ConditionInput { target: target.into(), operator: operator.into(), value, value_end: None }
}

fn one_group(conds: Vec<ConditionInput>) -> RuleTreeBody {
    RuleTreeBody {
        grant_on_any_player: false,
        default_mode: Some("osu".into()),
        groups: vec![ConditionGroupInput { conditions: conds }],
    }
}

fn texts(list: &[&str]) -> Value {
    Value::Array(list.iter().map(|s| Value::text(s)).collect())
}

fn refusal(body: RuleTreeBody) -> String {
    match parse_rule_tree(body) {
        Err(AppError::BadRequest(msg)) => msg,
        _ => panic!("expected a refusal"),
    }
}

fn stored(body: RuleTreeBody) -> Value {
    let mut parsed = parse_rule_tree(body).unwrap();
    parsed.rule_tree.groups.remove(0).conditions.remove(0).value
}

#[test]
fn grant_on_any_no_groups_ok() {
    let body = RuleTreeBody {
        grant_on_any_player: true,
        default_mode: Some("mania".into()),
        groups: vec![],
    };
    let parsed = parse_rule_tree(body).unwrap();
    assert!(parsed.rule_tree.grant_on_any_player);
    assert_eq!(parsed.rule_tree.default_mode, Mode::Mania);
    assert!(parsed.rule_tree.groups.is_empty());
}

#[test]
fn rejects_unknown_mode() {
    let body = RuleTreeBody {
        grant_on_any_player: true,
        default_mode: Some("typing-game".into()),
        groups: vec![],
    };
    assert!(matches!(parse_rule_tree(body), Err(AppError::BadRequest(_))));
}

#[test]
fn mode_aliases_accepted() {
    for alias in ["standard", "ctb", "catch"] {
        let body = RuleTreeBody {
            grant_on_any_player: true,
            default_mode: Some(alias.into()),
            groups: vec![],
        };
        assert!(parse_rule_tree(body).is_ok(), "alias {alias} should parse");
    }
}

#[test]
fn convention_42_rejects_no_groups_no_grant() {
    let body = RuleTreeBody {
        grant_on_any_player: false,
        default_mode: Some("osu".into()),
        groups: vec![],
    };
    assert!(matches!(parse_rule_tree(body), Err(AppError::BadRequest(_))));
}

#[test]
fn rejects_operator_target_mismatch() {
    let body = one_group(vec![input("is_supporter", "gt", Value::number(0))]);
    assert!(matches!(parse_rule_tree(body), Err(AppError::BadRequest(_))));
}

#[test]
fn int_coerces_from_string() {
    let body = one_group(vec![input("global_rank", "lte", Value::text("1000"))]);
    let parsed = parse_rule_tree(body).unwrap();
    assert_eq!(parsed.rule_tree.groups[0].conditions[0].value, Value::number(1000));
}

#[test]
fn country_list_normalizes_csv() {
    let body = one_group(vec![input("country_code", "in", Value::text("JP, KR ,US"))]);
    let parsed = parse_rule_tree(body).unwrap();
    assert_eq!(parsed.rule_tree.groups[0].conditions[0].value, texts(&["JP", "KR", "US"]));
}

#[test]
fn between_requires_value_end() {
    let body = RuleTreeBody {
        grant_on_any_player: false,
        default_mode: Some("osu".into()),
        groups: vec![ConditionGroupInput {
            conditions: vec![ConditionInput {
                target: "performance_points".into(),
                operator: "between".into(),
                value: Value::number(5000),
                value_end: None,
            }],
        }],
    };
    assert!(matches!(parse_rule_tree(body), Err(AppError::BadRequest(_))));
}

#[test]
fn caps_max_groups() {
    let mut groups = Vec::new();
    for _ in 0..(MAX_GROUPS + 1) {
        groups.push(ConditionGroupInput {
            conditions: vec![input("is_supporter", "eq", Value::Bool(true))],
        });
    }
    let body =
        RuleTreeBody { grant_on_any_player: false, default_mode: Some("osu".into()), groups };
    assert!(matches!(parse_rule_tree(body), Err(AppError::BadRequest(_))));
}

#[test]
fn refusals_say_what_is_wrong() {
    let empty = RuleTreeBody { grant_on_any_player: false, default_mode: None, groups: vec![] };
    assert_eq!(refusal(empty), "Add at least one OR-group, or pick \"any linked osu! player\".");
    let mode = RuleTreeBody {
        grant_on_any_player: false,
        default_mode: Some(" chess ".into()),
        groups: vec![],
    };
    assert_eq!(refusal(mode), "Unknown game mode 'chess'. Pick osu, taiko, fruits, or mania.");
    assert_eq!(
        refusal(one_group(vec![])),
        "Group #1: add at least one condition (or remove the group)."
    );
    let many =
        (0..MAX_CONDITIONS_PER_GROUP + 1).map(|_| input("kudosu", "gt", Value::number(1))).collect();
    assert_eq!(refusal(one_group(many)), "Group #1: at most 12 conditions per group.");
    let groups = (0..9)
        .map(|_| ConditionGroupInput {
            conditions: vec![input("kudosu", "gt", Value::number(1))],
        })
        .collect();
    let nine = RuleTreeBody { grant_on_any_player: false, default_mode: None, groups };
    assert_eq!(refusal(nine), "At most 8 OR-groups per role.");
}

#[test]
fn refusals_name_group_and_condition() {
    let first = || ConditionGroupInput { conditions: vec![input("kudosu", "gt", Value::number(1))] };
    let second = |c: ConditionInput| RuleTreeBody {
        grant_on_any_player: false,
        default_mode: None,
        groups: vec![
            first(),
            ConditionGroupInput { conditions: vec![input("kudosu", "gt", Value::number(1)), c] },
        ],
    };
    assert_eq!(
        refusal(second(input("height", "gt", Value::number(1)))),
        "Group #2, condition #2: unknown target 'height'."
    );
    assert_eq!(
        refusal(second(input("kudosu", "above", Value::number(1)))),
        "Group #2, condition #2: unknown operator 'above'."
    );
    assert_eq!(
        refusal(second(input("kudosu", "regex", Value::number(1)))),
        "Group #2, condition #2: operator 'regex' is not valid for 'kudosu'."
    );
    assert_eq!(
        refusal(second(input("is_active", "eq", Value::text("maybe")))),
        "Group #2, condition #2: boolean value required (got \"maybe\")."
    );
    assert_eq!(
        refusal(second(input("kudosu", "eq", Value::Array(vec![Value::Null, Value::number(-3)])))),
        "Group #2, condition #2: integer value required (got [null,-3])."
    );
    assert_eq!(
        refusal(second(input("kudosu", "between", Value::number(1)))),
        "Group #2, condition #2: \"between\" needs both a min and a max value."
    );
    assert_eq!(
        refusal(second(input("country_code", "in", Value::text(" , ,")))),
        "Group #2, condition #2: list operator needs at least one value."
    );
    assert_eq!(
        refusal(second(input("username", "eq", Value::text("  ")))),
        "Group #2, condition #2: value required."
    );
    assert_eq!(
        refusal(second(input("username", "regex", Value::text("(")))),
        "Group #2, condition #2: regex pattern is invalid."
    );
}

#[test]
fn flags_read_words() {
    for word in ["true", " YES ", "1"] {
        assert_eq!(
            stored(one_group(vec![input("is_active", "eq", Value::text(word))])),
            Value::Bool(true)
        );
    }
    for word in ["False", "no", "0"] {
        assert_eq!(
            stored(one_group(vec![input("is_active", "eq", Value::text(word))])),
            Value::Bool(false)
        );
    }
}

#[test]
fn numbers_are_held_within_the_signed_range() {
    let int = |v: Value| stored(one_group(vec![input("total_score", "eq", v)]));
    assert_eq!(int(Value::Number(Number::UInt(u64::MAX))), Value::number(i64::MAX));
    assert_eq!(int(Value::Number(Number::UInt(7))), Value::number(7));
    assert_eq!(
        int(Value::Number(Number::Float { whole: -2, text: "-2.75".into() })),
        Value::number(-2)
    );
    assert_eq!(int(Value::text(" +12 ")), Value::number(12));
    assert_eq!(int(Value::text("-9223372036854775808")), Value::number(i64::MIN));
    assert!(parse_rule_tree(one_group(vec![input(
        "total_score",
        "eq",
        Value::text("9223372036854775808")
    )]))
    .is_err());
}

#[test]
fn texts_take_scalars() {
    let text = |v: Value| stored(one_group(vec![input("username", "eq", v)]));
    assert_eq!(text(Value::number(727)), Value::text("727"));
    assert_eq!(text(Value::Bool(true)), Value::text("true"));
    assert_eq!(text(Value::text(" padded ")), Value::text(" padded "));
}

#[test]
fn lists_drop_what_is_empty() {
    let list = |v: Value| stored(one_group(vec![input("group_name", "not_in", v)]));
    assert_eq!(
        list(Value::Array(vec![Value::Null, Value::text(""), Value::text("BN"), Value::number(1)])),
        Value::Array(vec![Value::text("BN"), Value::number(1)])
    );
    assert_eq!(list(Value::number(4)), Value::Array(vec![Value::number(4)]));
}

#[test]
fn a_blanket_grant_drops_the_groups() {
    let body = RuleTreeBody {
        grant_on_any_player: true,
        default_mode: Some("".into()),
        groups: vec![ConditionGroupInput { conditions: vec![] }],
    };
    let parsed = parse_rule_tree(body).unwrap();
    assert!(parsed.rule_tree.groups.is_empty());
    assert_eq!(parsed.rule_tree.default_mode, Mode::Osu);
}

#[test]
fn stored_values_are_stable() {
    for (kind, op, raw) in [
        (TargetKind::Bool, ConditionOperator::Eq, Value::text("yes")),
        (TargetKind::Int, ConditionOperator::Gt, Value::text("5")),
        (TargetKind::String, ConditionOperator::In, Value::text("a,,b")),
        (TargetKind::String, ConditionOperator::Eq, Value::number(-4)),
    ] {
        let once = normalize_value("here", kind, op, &raw).unwrap();
        let twice = normalize_value("here", kind, op, &once).unwrap();
        assert_eq!(once, twice);
    }
}

#[test]
fn a_condition_is_shaped_and_then_settled() {
    let raw = input(" username ", "regex", Value::text("a"));
    let c = shape_condition("here", &raw).unwrap();
    assert_eq!(c.operator, ConditionOperator::Regex);
    assert!(settle_condition("here", c, true).is_ok());
    let c = shape_condition("here", &raw).unwrap();
    match settle_condition("here", c, false) {
        Err(AppError::BadRequest(msg)) => assert_eq!(msg, "here: regex pattern is invalid."),
        _ => panic!(),
    }
}

#[test]
fn saving_again_changes_nothing() {
    let mut between = input("pp", "between", Value::text(" 100 "));
    between.value_end = Some(Value::text("200"));
    let body = RuleTreeBody {
        grant_on_any_player: false,
        default_mode: Some(" ctb ".into()),
        groups: vec![
            ConditionGroupInput {
                conditions: vec![between, input("is_supporter", "eq", Value::text("yes"))],
            },
            ConditionGroupInput {
                conditions: vec![
                    input("country_code", "not_in", Value::text("JP, ,US")),
                    input(
                        "username",
                        "eq",
                        Value::Number(Number::Float { whole: 1, text: "1.5".into() }),
                    ),
                ],
            },
        ],
    };
    let saved = parse_rule_tree(body).unwrap().rule_tree;
    let again = RuleTreeBody {
        grant_on_any_player: saved.grant_on_any_player,
        default_mode: Some(saved.default_mode.as_str().into()),
        groups: saved
            .groups
            .iter()
            .map(|g| ConditionGroupInput {
                conditions: g
                    .conditions
                    .iter()
                    .map(|c| ConditionInput {
                        target: c.target.as_str().into(),
                        operator: c.operator.as_str().into(),
                        value: c.value.clone(),
                        value_end: c.value_end.clone(),
                    })
                    .collect(),
            })
            .collect(),
    };
    assert_eq!(parse_rule_tree(again).unwrap().rule_tree, saved);
}
