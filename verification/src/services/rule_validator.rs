//! Validate the rule-tree payload sent by the iframe UI on save.
//! Returns a clean [`RuleTree`] ready to persist.

use crate::error::AppError;
use crate::json;
use crate::json::{Json, Number, Value};
use crate::models::condition;
use crate::models::condition::{Condition, ConditionOperator, ConditionTarget, TargetKind};
use crate::models::mode;
use crate::models::mode::Mode;
use crate::models::rule::{ConditionGroup, RuleTree, MAX_CONDITIONS_PER_GROUP, MAX_GROUPS};
use crate::pattern;
use crate::text;
use vstd::prelude::*;
use vstd::string::*;

verus! {

#[derive(Debug)]
pub struct RuleTreeBody {
    pub grant_on_any_player: bool,
    /// Game mode the per-mode conditions evaluate against. Accepts the
    /// canonical names ("osu", "taiko", "fruits", "mania") and a couple of
    /// historical aliases ("standard", "ctb", "catch").
    pub default_mode: Option<String>,
    pub groups: Vec<ConditionGroupInput>,
}

#[derive(Debug)]
pub struct ConditionGroupInput {
    pub conditions: Vec<ConditionInput>,
}

#[derive(Debug)]
pub struct ConditionInput {
    pub target: String,
    pub operator: String,
    pub value: Value,
    pub value_end: Option<Value>,
}

#[derive(Debug)]
pub struct ParsedRule {
    pub rule_tree: RuleTree,
}

/// What a validated condition says.
pub struct Entry {
    pub target: ConditionTarget,
    pub operator: ConditionOperator,
    pub value: Json,
    pub value_end: Option<Json>,
}

/// What a validated rule says.
pub struct Outline {
    pub grant_on_any_player: bool,
    pub default_mode: Mode,
    pub groups: Seq<Seq<Entry>>,
}

/// What a document that may be missing says.
pub open spec fn opt_json(v: Option<Value>) -> Option<Json> {
    match v {
        Some(v) => Some(v@),
        None => None,
    }
}

/// What a condition says.
pub open spec fn entry(c: Condition) -> Entry {
    Entry {
        target: c.target,
        operator: c.operator,
        value: c.value@,
        value_end: opt_json(c.value_end),
    }
}

/// What the conditions of a list say.
pub open spec fn entries(conditions: Seq<Condition>) -> Seq<Entry> {
    conditions.map_values(|c: Condition| entry(c))
}

/// What a rule says.
pub open spec fn outline(tree: RuleTree) -> Outline {
    Outline {
        grant_on_any_player: tree.grant_on_any_player,
        default_mode: tree.default_mode,
        groups: tree.groups@.map_values(|g: ConditionGroup| entries(g.conditions@)),
    }
}

/// Names a condition to the admin.
pub open spec fn place(group_num: nat, cond_num: nat) -> Seq<char> {
    "Group #"@ + text::dec(group_num) + ", condition #"@ + text::dec(cond_num)
}

/// The words for "yes" that a flag accepts.
pub open spec fn yes_word(s: Seq<char>) -> bool {
    s == "true"@ || s == "1"@ || s == "yes"@
}

/// The words for "no" that a flag accepts.
pub open spec fn no_word(s: Seq<char>) -> bool {
    s == "false"@ || s == "0"@ || s == "no"@
}

/// The flag that a raw value stands for.
pub open spec fn flag_value(raw: Json) -> Option<Json> {
    match raw {
        Json::Bool(b) => Some(Json::Bool(b)),
        Json::Text(s) => if yes_word(text::lowered(text::trimmed(s))) {
            Some(Json::Bool(true))
        } else if no_word(text::lowered(text::trimmed(s))) {
            Some(Json::Bool(false))
        } else {
            None
        },
        _ => None,
    }
}

/// The integer that a raw value stands for. A number is cut off towards zero and
/// held within the signed range.
pub open spec fn int_value(raw: Json) -> Option<Json> {
    match raw {
        Json::Int(n) => Some(
            Json::Int(
                if n > i64::MAX {
                    i64::MAX as int
                } else {
                    n
                },
            ),
        ),
        Json::Float(whole, _) => Some(Json::Int(whole as int)),
        Json::Text(s) => match text::i64_value(text::trimmed(s)) {
            Some(n) => Some(Json::Int(n as int)),
            None => None,
        },
        _ => None,
    }
}

/// True for an element that a list keeps: neither null nor an empty text.
pub open spec fn kept(v: Json) -> bool {
    !(v is Null) && !(v is Text && v->Text_0.len() == 0)
}

/// The elements that a list keeps.
pub open spec fn kept_of(items: Seq<Json>) -> Seq<Json>
    decreases items.len(),
{
    if items.len() == 0 {
        Seq::empty()
    } else if kept(items.last()) {
        kept_of(items.drop_last()).push(items.last())
    } else {
        kept_of(items.drop_last())
    }
}

/// The pieces of a comma-separated text as texts: trimmed, the empty ones left
/// out.
pub open spec fn pieces_of(pieces: Seq<Seq<char>>) -> Seq<Json>
    decreases pieces.len(),
{
    if pieces.len() == 0 {
        Seq::empty()
    } else if text::trimmed(pieces.last()).len() > 0 {
        pieces_of(pieces.drop_last()).push(Json::Text(text::trimmed(pieces.last())))
    } else {
        pieces_of(pieces.drop_last())
    }
}

/// The elements of the list that a raw value stands for.
pub open spec fn list_items(raw: Json) -> Seq<Json> {
    match raw {
        Json::List(items) => kept_of(items),
        Json::Text(s) => pieces_of(text::split_on(s, ',')),
        Json::Null => Seq::empty(),
        other => seq![other],
    }
}

/// The list that a raw value stands for: none where nothing is in it.
pub open spec fn list_value(raw: Json) -> Option<Json> {
    if list_items(raw).len() == 0 {
        None
    } else {
        Some(Json::List(list_items(raw)))
    }
}

/// The text that a raw value stands for: none where it is blank.
pub open spec fn text_value(raw: Json) -> Option<Json> {
    match raw {
        Json::Text(s) => if text::trimmed(s).len() == 0 {
            None
        } else {
            Some(raw)
        },
        Json::Int(_) | Json::Float(_, _) | Json::Bool(_) => Some(Json::Text(json::json_text(raw))),
        _ => None,
    }
}

/// The normal form of a raw value for a kind of target and an operator, if it
/// has one.
pub open spec fn normal(kind: TargetKind, op: ConditionOperator, raw: Json) -> Option<Json> {
    match kind {
        TargetKind::Bool => flag_value(raw),
        TargetKind::Int => int_value(raw),
        TargetKind::String => if op is In || op is NotIn {
            list_value(raw)
        } else {
            text_value(raw)
        },
    }
}

/// What the admin is told of a raw value without a normal form.
pub open spec fn complaint(
    place: Seq<char>,
    kind: TargetKind,
    op: ConditionOperator,
    raw: Json,
) -> Seq<char> {
    match kind {
        TargetKind::Bool => place + ": boolean value required (got "@ + json::json_text(raw)
            + ")."@,
        TargetKind::Int => place + ": integer value required (got "@ + json::json_text(raw)
            + ")."@,
        TargetKind::String => if op is In || op is NotIn {
            place + ": list operator needs at least one value."@
        } else {
            place + ": value required."@
        },
    }
}

/// A condition whose target and operator are known: its normal form, or what the
/// admin is told.
pub open spec fn shape_known(
    place: Seq<char>,
    target: ConditionTarget,
    operator: ConditionOperator,
    value: Json,
    value_end: Option<Json>,
) -> Result<Entry, Seq<char>> {
    let kind = target.spec_kind();
    if !operator.suits(kind) {
        Err(
            place + ": operator '"@ + operator.key() + "' is not valid for '"@ + target.key()
                + "'."@,
        )
    } else {
        match normal(kind, operator, value) {
            None => Err(complaint(place, kind, operator, value)),
            Some(v) => if operator is Between {
                match value_end {
                    None => Err(place + ": \"between\" needs both a min and a max value."@),
                    Some(end) => match normal(kind, operator, end) {
                        None => Err(complaint(place, kind, operator, end)),
                        Some(e) => Ok(Entry { target, operator, value: v, value_end: Some(e) }),
                    },
                }
            } else {
                Ok(Entry { target, operator, value: v, value_end: None })
            },
        }
    }
}

/// The normal form of a condition, or what the admin is told. A regular
/// expression is not tried yet.
pub open spec fn shape(place: Seq<char>, raw: ConditionInput) -> Result<Entry, Seq<char>> {
    match ConditionTarget::of_name(text::trimmed(raw.target@)) {
        None => Err(place + ": unknown target '"@ + raw.target@ + "'."@),
        Some(target) => match ConditionOperator::of_name(text::trimmed(raw.operator@)) {
            None => Err(place + ": unknown operator '"@ + raw.operator@ + "'."@),
            Some(operator) => shape_known(
                place,
                target,
                operator,
                raw.value@,
                opt_json(raw.value_end),
            ),
        },
    }
}

/// The pattern of a condition: its text, empty where it is none.
pub open spec fn pattern_text(e: Entry) -> Seq<char> {
    match e.value.as_text() {
        Some(p) => p,
        None => Seq::empty(),
    }
}

/// A shaped condition, given whether its pattern compiles.
pub open spec fn settled(place: Seq<char>, e: Entry, compiles: bool) -> Result<Entry, Seq<char>> {
    if e.operator is Regex && !compiles {
        Err(place + ": regex pattern is invalid."@)
    } else {
        Ok(e)
    }
}

/// The normal form of a condition, or what the admin is told.
pub open spec fn checked(place: Seq<char>, raw: ConditionInput) -> Result<Entry, Seq<char>> {
    match shape(place, raw) {
        Err(msg) => Err(msg),
        Ok(e) => settled(place, e, pattern::acceptable(pattern_text(e))),
    }
}

/// The normal forms of a group's conditions, or what the admin is told of the
/// first that has none.
pub open spec fn checked_conditions(group_num: nat, raw: Seq<ConditionInput>) -> Result<
    Seq<Entry>,
    Seq<char>,
>
    decreases raw.len(),
{
    if raw.len() == 0 {
        Ok(Seq::empty())
    } else {
        match checked_conditions(group_num, raw.drop_last()) {
            Err(msg) => Err(msg),
            Ok(before) => match checked(place(group_num, raw.len()), raw.last()) {
                Err(msg) => Err(msg),
                Ok(e) => Ok(before.push(e)),
            },
        }
    }
}

/// The normal form of a group, or what the admin is told.
pub open spec fn checked_group(group_num: nat, raw: ConditionGroupInput) -> Result<
    Seq<Entry>,
    Seq<char>,
> {
    if raw.conditions@.len() == 0 {
        Err(
            "Group #"@ + text::dec(group_num)
                + ": add at least one condition (or remove the group)."@,
        )
    } else if raw.conditions@.len() > MAX_CONDITIONS_PER_GROUP {
        Err(
            "Group #"@ + text::dec(group_num) + ": at most "@ + text::dec(
                MAX_CONDITIONS_PER_GROUP as nat,
            ) + " conditions per group."@,
        )
    } else {
        checked_conditions(group_num, raw.conditions@)
    }
}

/// The normal forms of the groups, or what the admin is told of the first that
/// has none.
pub open spec fn checked_groups(raw: Seq<ConditionGroupInput>) -> Result<
    Seq<Seq<Entry>>,
    Seq<char>,
>
    decreases raw.len(),
{
    if raw.len() == 0 {
        Ok(Seq::empty())
    } else {
        match checked_groups(raw.drop_last()) {
            Err(msg) => Err(msg),
            Ok(before) => match checked_group(raw.len(), raw.last()) {
                Err(msg) => Err(msg),
                Ok(g) => Ok(before.push(g)),
            },
        }
    }
}

/// The game mode that a payload asks for, or what the admin is told. No mode is
/// osu! standard.
pub open spec fn chosen_mode(raw: Option<String>) -> Result<Mode, Seq<char>> {
    match raw {
        None => Ok(Mode::Osu),
        Some(s) => if text::trimmed(s@).len() == 0 {
            Ok(Mode::Osu)
        } else {
            match Mode::of_name(text::trimmed(s@)) {
                Some(m) => Ok(m),
                None => Err(
                    "Unknown game mode '"@ + text::trimmed(s@)
                        + "'. Pick osu, taiko, fruits, or mania."@,
                ),
            }
        },
    }
}

/// What a payload becomes: a rule, or what the admin is told.
pub open spec fn parsed(body: RuleTreeBody) -> Result<Outline, Seq<char>> {
    match chosen_mode(body.default_mode) {
        Err(msg) => Err(msg),
        Ok(default_mode) => if body.grant_on_any_player {
            Ok(Outline { grant_on_any_player: true, default_mode, groups: Seq::empty() })
        } else if body.groups@.len() == 0 {
            Err("Add at least one OR-group, or pick \"any linked osu! player\"."@)
        } else if body.groups@.len() > MAX_GROUPS {
            Err("At most "@ + text::dec(MAX_GROUPS as nat) + " OR-groups per role."@)
        } else {
            match checked_groups(body.groups@) {
                Err(msg) => Err(msg),
                Ok(groups) => Ok(Outline { grant_on_any_player: false, default_mode, groups }),
            }
        },
    }
}

fn bad_request<T>(msg: String) -> (r: Result<T, AppError>)
    ensures
        r == Err::<T, AppError>(AppError::BadRequest(msg)),
{
    Err(AppError::BadRequest(msg))
}

/// True when an outcome agrees with what was to come out.
pub open spec fn agrees<T, V>(
    r: Result<T, AppError>,
    expected: Result<V, Seq<char>>,
    says: spec_fn(T) -> V,
) -> bool {
    match r {
        Ok(t) => expected == Ok::<V, Seq<char>>(says(t)),
        Err(AppError::BadRequest(msg)) => expected == Err::<V, Seq<char>>(msg@),
        Err(_) => false,
    }
}

/// Validate a payload.
pub fn parse_rule_tree(body: RuleTreeBody) -> (r: Result<ParsedRule, AppError>)
    ensures
        agrees(r, parsed(body), |p: ParsedRule| outline(p.rule_tree)),
{
    let default_mode = match parse_mode(&body.default_mode) {
        Ok(mode) => mode,
        Err(e) => return Err(e),
    };
    let mut groups: Vec<ConditionGroup> = Vec::new();
    if !body.grant_on_any_player {
        if body.groups.len() == 0 {
            return bad_request(
                "Add at least one OR-group, or pick \"any linked osu! player\".".to_owned(),
            );
        }
        if body.groups.len() > MAX_GROUPS {
            let n = text::decimal(MAX_GROUPS as u128);
            return bad_request(text::join3("At most ", n.as_str(), " OR-groups per role."));
        }
        let ghost say = |g: ConditionGroup| entries(g.conditions@);
        let mut gi: usize = 0;
        proof {
            assert(groups@.map_values(say) =~= Seq::empty());
        }
        while gi < body.groups.len()
            invariant
                gi <= body.groups@.len() <= MAX_GROUPS,
                say == |g: ConditionGroup| entries(g.conditions@),
                checked_groups(body.groups@.take(gi as int)) == Ok::<Seq<Seq<Entry>>, Seq<char>>(
                    groups@.map_values(say),
                ),
                !body.grant_on_any_player && body.groups@.len() > 0,
                chosen_mode(body.default_mode) == Ok::<Mode, Seq<char>>(default_mode),
            decreases body.groups@.len() - gi,
        {
            let ghost next = body.groups@.take(gi + 1);
            proof {
                assert(next.drop_last() =~= body.groups@.take(gi as int));
                assert(next.last() == body.groups@[gi as int]);
            }
            match validate_group(gi + 1, &body.groups[gi]) {
                Ok(group) => {
                    let ghost before = groups@;
                    groups.push(group);
                    proof {
                        assert(groups@.map_values(say) =~= before.map_values(say).push(
                            entries(group.conditions@),
                        ));
                    }
                },
                Err(e) => {
                    proof {
                        lemma_first_group_error(body.groups@, gi + 1);
                    }
                    return Err(e);
                },
            }
            gi += 1;
        }
        proof {
            assert(body.groups@.take(body.groups@.len() as int) =~= body.groups@);
        }
    }
    let tree = RuleTree { grant_on_any_player: body.grant_on_any_player, default_mode, groups };
    proof {
        if body.grant_on_any_player {
            assert(outline(tree).groups =~= Seq::empty());
        }
    }
    Ok(ParsedRule { rule_tree: tree })
}

/// An error among the first groups is the error of them all.
proof fn lemma_first_group_error(raw: Seq<ConditionGroupInput>, n: int)
    requires
        0 <= n <= raw.len(),
        checked_groups(raw.take(n)) is Err,
    ensures
        checked_groups(raw) == checked_groups(raw.take(n)),
    decreases raw.len(),
{
    if n < raw.len() {
        assert(raw.drop_last().take(n) =~= raw.take(n));
        lemma_first_group_error(raw.drop_last(), n);
    } else {
        assert(raw.take(n) =~= raw);
    }
}

/// An error among the first conditions is the error of them all.
proof fn lemma_first_condition_error(group_num: nat, raw: Seq<ConditionInput>, n: int)
    requires
        0 <= n <= raw.len(),
        checked_conditions(group_num, raw.take(n)) is Err,
    ensures
        checked_conditions(group_num, raw) == checked_conditions(group_num, raw.take(n)),
    decreases raw.len(),
{
    if n < raw.len() {
        assert(raw.drop_last().take(n) =~= raw.take(n));
        lemma_first_condition_error(group_num, raw.drop_last(), n);
    } else {
        assert(raw.take(n) =~= raw);
    }
}

fn parse_mode(raw: &Option<String>) -> (r: Result<Mode, AppError>)
    ensures
        agrees(r, chosen_mode(*raw), |m: Mode| m),
{
    match raw {
        None => Ok(Mode::Osu),
        Some(s) => {
            let name = text::trim(s.as_str());
            if name.unicode_len() == 0 {
                return Ok(Mode::Osu);
            }
            match Mode::from_key(name) {
                Some(m) => Ok(m),
                None => bad_request(
                    text::join3(
                        "Unknown game mode '",
                        name,
                        "'. Pick osu, taiko, fruits, or mania.",
                    ),
                ),
            }
        },
    }
}

fn validate_group(group_num: usize, raw: &ConditionGroupInput) -> (r: Result<
    ConditionGroup,
    AppError,
>)
    ensures
        agrees(
            r,
            checked_group(group_num as nat, *raw),
            |g: ConditionGroup| entries(g.conditions@),
        ),
{
    let number = text::decimal(group_num as u128);
    let group_name = text::join2("Group #", number.as_str());
    if raw.conditions.len() == 0 {
        return bad_request(
            text::join2(
                group_name.as_str(),
                ": add at least one condition (or remove the group).",
            ),
        );
    }
    if raw.conditions.len() > MAX_CONDITIONS_PER_GROUP {
        let limit = text::decimal(MAX_CONDITIONS_PER_GROUP as u128);
        let mut msg = text::join3(group_name.as_str(), ": at most ", limit.as_str());
        msg.append(" conditions per group.");
        return bad_request(msg);
    }
    let mut conditions: Vec<Condition> = Vec::new();
    let mut ci: usize = 0;
    proof {
        assert(entries(conditions@) =~= Seq::empty());
    }
    while ci < raw.conditions.len()
        invariant
            ci <= raw.conditions@.len() <= MAX_CONDITIONS_PER_GROUP,
            raw.conditions@.len() > 0,
            checked_conditions(group_num as nat, raw.conditions@.take(ci as int)) == Ok::<
                Seq<Entry>,
                Seq<char>,
            >(entries(conditions@)),
        decreases raw.conditions@.len() - ci,
    {
        let ghost next = raw.conditions@.take(ci + 1);
        proof {
            assert(next.drop_last() =~= raw.conditions@.take(ci as int));
            assert(next.last() == raw.conditions@[ci as int]);
        }
        match validate_condition(group_num, ci + 1, &raw.conditions[ci]) {
            Ok(c) => {
                let ghost before = conditions@;
                conditions.push(c);
                proof {
                    assert(entries(conditions@) =~= entries(before).push(entry(c)));
                }
            },
            Err(e) => {
                proof {
                    lemma_first_condition_error(group_num as nat, raw.conditions@, ci + 1);
                }
                return Err(e);
            },
        }
        ci += 1;
    }
    proof {
        assert(raw.conditions@.take(raw.conditions@.len() as int) =~= raw.conditions@);
    }
    Ok(ConditionGroup { conditions })
}

fn place_name(group_num: usize, cond_num: usize) -> (r: String)
    ensures
        r@ == place(group_num as nat, cond_num as nat),
{
    let g = text::decimal(group_num as u128);
    let c = text::decimal(cond_num as u128);
    let mut out = text::join3("Group #", g.as_str(), ", condition #");
    out.append(c.as_str());
    out
}

/// Validate one condition. The pattern of a regular expression is compiled at
/// save time so that a bad one can't surface only at evaluation.
pub fn validate_condition(group_num: usize, cond_num: usize, raw: &ConditionInput) -> (r: Result<
    Condition,
    AppError,
>)
    ensures
        agrees(
            r,
            checked(place(group_num as nat, cond_num as nat), *raw),
            |c: Condition| entry(c),
        ),
{
    let where_ = place_name(group_num, cond_num);
    match shape_condition(where_.as_str(), raw) {
        Err(e) => Err(e),
        Ok(c) => {
            let compiles = if matches!(c.operator, ConditionOperator::Regex) {
                match c.value.as_str() {
                    Some(p) => pattern::compiles(p),
                    None => {
                        proof {
                            reveal_strlit("");
                            assert(""@ =~= Seq::empty());
                        }
                        pattern::compiles("")
                    },
                }
            } else {
                true
            };
            settle_condition(where_.as_str(), c, compiles)
        },
    }
}

/// Accept a shaped condition, given whether its pattern compiles. Only a regular
/// expression asks.
pub fn settle_condition(where_: &str, c: Condition, compiles: bool) -> (r: Result<
    Condition,
    AppError,
>)
    ensures
        agrees(r, settled(where_@, entry(c), compiles), |c: Condition| entry(c)),
{
    if matches!(c.operator, ConditionOperator::Regex) && !compiles {
        return bad_request(text::join2(where_, ": regex pattern is invalid."));
    }
    Ok(c)
}

/// Bring one condition into its normal form. A regular expression is not tried.
pub fn shape_condition(where_: &str, raw: &ConditionInput) -> (r: Result<Condition, AppError>)
    ensures
        agrees(r, shape(where_@, *raw), |c: Condition| entry(c)),
{
    let target = match ConditionTarget::from_key(text::trim(raw.target.as_str())) {
        Some(target) => target,
        None => {
            let mut msg = text::join3(where_, ": unknown target '", raw.target.as_str());
            msg.append("'.");
            return bad_request(msg);
        },
    };
    let operator = match ConditionOperator::from_key(text::trim(raw.operator.as_str())) {
        Some(operator) => operator,
        None => {
            let mut msg = text::join3(where_, ": unknown operator '", raw.operator.as_str());
            msg.append("'.");
            return bad_request(msg);
        },
    };
    if !operator.valid_for(target.kind()) {
        let mut msg = text::join3(where_, ": operator '", operator.as_str());
        msg.append("' is not valid for '");
        msg.append(target.as_str());
        msg.append("'.");
        return bad_request(msg);
    }
    let value = match normalize_value(where_, target.kind(), operator, &raw.value) {
        Ok(value) => value,
        Err(e) => return Err(e),
    };
    let value_end = if matches!(operator, ConditionOperator::Between) {
        match &raw.value_end {
            Some(end) => match normalize_value(where_, target.kind(), operator, end) {
                Ok(end) => Some(end),
                Err(e) => return Err(e),
            },
            None => return bad_request(
                text::join2(where_, ": \"between\" needs both a min and a max value."),
            ),
        }
    } else {
        None
    };
    Ok(Condition { target, operator, value, value_end })
}

/// The message for a value of the wrong kind, which quotes it.
fn got(where_: &str, what: &str, raw: &Value) -> (r: String)
    ensures
        r@ == where_@ + what@ + json::json_text(raw@) + ")."@,
{
    let shown = json::render(raw);
    let mut msg = text::join3(where_, what, shown.as_str());
    msg.append(").");
    msg
}

/// Bring a raw value into its normal form.
pub fn normalize_value(
    where_: &str,
    kind: TargetKind,
    op: ConditionOperator,
    raw: &Value,
) -> (r: Result<Value, AppError>)
    ensures
        agrees(
            r,
            match normal(kind, op, raw@) {
                Some(v) => Ok::<Json, Seq<char>>(v),
                None => Err::<Json, Seq<char>>(complaint(where_@, kind, op, raw@)),
            },
            |v: Value| v@,
        ),
{
    match kind {
        TargetKind::Bool => match read_flag(raw) {
            Some(b) => Ok(Value::Bool(b)),
            None => bad_request(got(where_, ": boolean value required (got ", raw)),
        },
        TargetKind::Int => match read_int(raw) {
            Some(n) => Ok(Value::number(n)),
            None => bad_request(got(where_, ": integer value required (got ", raw)),
        },
        TargetKind::String => if matches!(op, ConditionOperator::In | ConditionOperator::NotIn) {
            let items = read_list(raw);
            if items.len() == 0 {
                return bad_request(
                    text::join2(where_, ": list operator needs at least one value."),
                );
            }
            proof {
                Value::array_view(items);
            }
            Ok(Value::Array(items))
        } else {
            match read_text(raw) {
                Some(s) => Ok(Value::String(s)),
                None => bad_request(text::join2(where_, ": value required.")),
            }
        },
    }
}

fn read_flag(raw: &Value) -> (r: Option<bool>)
    ensures
        flag_value(raw@) == match r {
            Some(b) => Some(Json::Bool(b)),
            None => None,
        },
{
    match raw {
        Value::Bool(b) => Some(*b),
        Value::String(s) => {
            let word = text::to_lower(text::trim(s.as_str()));
            let word = word.as_str();
            if text::same(word, "true") || text::same(word, "1") || text::same(word, "yes") {
                Some(true)
            } else if text::same(word, "false") || text::same(word, "0") || text::same(
                word,
                "no",
            ) {
                Some(false)
            } else {
                None
            }
        },
        _ => None,
    }
}

fn read_int(raw: &Value) -> (r: Option<i64>)
    ensures
        int_value(raw@) == match r {
            Some(n) => Some(Json::Int(n as int)),
            None => None,
        },
{
    match raw {
        Value::Number(Number::Int(n)) => Some(*n),
        Value::Number(Number::UInt(n)) => Some(
            if *n > i64::MAX as u64 {
                i64::MAX
            } else {
                *n as i64
            },
        ),
        Value::Number(Number::Float { whole, .. }) => Some(*whole),
        Value::String(s) => text::parse_i64(text::trim(s.as_str())),
        _ => None,
    }
}

fn read_list(raw: &Value) -> (r: Vec<Value>)
    ensures
        json::json_list(r@) == list_items(raw@),
{
    let mut out: Vec<Value> = Vec::new();
    proof {
        assert(json::json_list(out@) =~= Seq::empty());
    }
    match raw {
        Value::Array(items) => {
            let ghost all = json::json_list(items@);
            proof {
                Value::array_view(*items);
            }
            let mut i: usize = 0;
            while i < items.len()
                invariant
                    i <= items@.len(),
                    all == json::json_list(items@),
                    json::json_list(out@) == kept_of(all.take(i as int)),
                decreases items@.len() - i,
            {
                proof {
                    assert(all.take(i + 1).drop_last() =~= all.take(i as int));
                    assert(all.take(i + 1).last() == items@[i as int]@);
                }
                if keeps(&items[i]) {
                    let ghost before = out@;
                    let item = items[i].clone();
                    out.push(item);
                    proof {
                        assert(json::json_list(out@) =~= json::json_list(before).push(item@));
                    }
                }
                i += 1;
            }
            proof {
                assert(all.take(all.len() as int) =~= all);
            }
        },
        Value::String(s) => {
            let parts = text::split(s.as_str(), ',');
            let ghost all = text::views(parts@);
            let mut i: usize = 0;
            while i < parts.len()
                invariant
                    i <= parts@.len(),
                    all == text::views(parts@),
                    json::json_list(out@) == pieces_of(all.take(i as int)),
                decreases parts@.len() - i,
            {
                proof {
                    assert(all.take(i + 1).drop_last() =~= all.take(i as int));
                    assert(all.take(i + 1).last() == parts@[i as int]@);
                }
                let piece = text::trim(parts[i].as_str());
                if piece.unicode_len() > 0 {
                    let ghost before = out@;
                    let item = Value::text(piece);
                    out.push(item);
                    proof {
                        assert(json::json_list(out@) =~= json::json_list(before).push(item@));
                    }
                }
                i += 1;
            }
            proof {
                assert(all.take(all.len() as int) =~= all);
            }
        },
        Value::Null => {},
        other => {
            let item = other.clone();
            out.push(item);
            proof {
                assert(json::json_list(out@) =~= seq![other@]);
            }
        },
    }
    out
}

fn keeps(v: &Value) -> (r: bool)
    ensures
        r == kept(v@),
{
    match v {
        Value::Null => false,
        Value::String(s) => s.as_str().unicode_len() > 0,
        _ => true,
    }
}

fn read_text(raw: &Value) -> (r: Option<String>)
    ensures
        text_value(raw@) == match r {
            Some(s) => Some(Json::Text(s@)),
            None => None,
        },
{
    match raw {
        Value::String(s) => if text::trim(s.as_str()).unicode_len() == 0 {
            None
        } else {
            Some(s.clone())
        },
        Value::Number(_) | Value::Bool(_) => Some(json::render(raw)),
        _ => None,
    }
}

/// True when the pattern of a regular expression compiles.
pub open spec fn pattern_compiles(c: Condition) -> bool {
    c.operator is Regex ==> pattern::acceptable(pattern_text(entry(c)))
}

proof fn lemma_shape_known(
    place: Seq<char>,
    target: ConditionTarget,
    operator: ConditionOperator,
    value: Json,
    value_end: Option<Json>,
    c: Condition,
)
    requires
        shape_known(place, target, operator, value, value_end) == Ok::<Entry, Seq<char>>(entry(c)),
        value is Int ==> value->Int_0 >= i64::MIN,
        value_end is Some && value_end->0 is Int ==> value_end->0->Int_0 >= i64::MIN,
    ensures
        c.well_formed(),
{
}

/// A JSON document holds no integer below the signed range.
proof fn lemma_int_range(v: Value)
    ensures
        v@ is Int ==> v@->Int_0 >= i64::MIN,
{
}

proof fn lemma_checked(place: Seq<char>, raw: ConditionInput, c: Condition)
    requires
        checked(place, raw) == Ok::<Entry, Seq<char>>(entry(c)),
    ensures
        c.well_formed(),
        pattern_compiles(c),
{
    lemma_int_range(raw.value);
    if raw.value_end is Some {
        lemma_int_range(raw.value_end->0);
    }
    let target = ConditionTarget::of_name(text::trimmed(raw.target@))->0;
    let operator = ConditionOperator::of_name(text::trimmed(raw.operator@))->0;
    lemma_shape_known(place, target, operator, raw.value@, opt_json(raw.value_end), c);
}

proof fn lemma_checked_conditions(group_num: nat, raw: Seq<ConditionInput>, list: Seq<Condition>)
    requires
        checked_conditions(group_num, raw) == Ok::<Seq<Entry>, Seq<char>>(entries(list)),
    ensures
        list.len() == raw.len(),
        forall|i: int|
            0 <= i < list.len() ==> (#[trigger] list[i]).well_formed() && pattern_compiles(list[i]),
    decreases raw.len(),
{
    if raw.len() == 0 {
        assert(entries(list).len() == list.len());
    } else {
        let before = checked_conditions(group_num, raw.drop_last())->Ok_0;
        let e = checked(place(group_num, raw.len()), raw.last())->Ok_0;
        assert(entries(list) == before.push(e));
        assert(entries(list).len() == list.len());
        let rest = list.drop_last();
        assert(entries(rest) =~= before) by {
            assert forall|i: int| 0 <= i < rest.len() implies entries(rest)[i] == before[i] by {
                assert(before[i] == entries(list)[i]);
            }
        }
        assert(entry(list.last()) == entries(list).last());
        lemma_checked_conditions(group_num, raw.drop_last(), rest);
        lemma_checked(place(group_num, raw.len()), raw.last(), list.last());
        assert forall|i: int| 0 <= i < list.len() implies (#[trigger] list[i]).well_formed()
            && pattern_compiles(list[i]) by {
            if i < rest.len() {
                assert(rest[i] == list[i]);
            }
        }
    }
}

proof fn lemma_checked_groups(raw: Seq<ConditionGroupInput>, list: Seq<ConditionGroup>)
    requires
        checked_groups(raw) == Ok::<Seq<Seq<Entry>>, Seq<char>>(
            list.map_values(|g: ConditionGroup| entries(g.conditions@)),
        ),
    ensures
        list.len() == raw.len(),
        forall|i: int| 0 <= i < list.len() ==> (#[trigger] list[i]).well_formed(),
        forall|i: int, k: int|
            0 <= i < list.len() && 0 <= k < list[i].conditions@.len() ==> pattern_compiles(
                #[trigger] list[i].conditions@[k],
            ),
    decreases raw.len(),
{
    let say = |g: ConditionGroup| entries(g.conditions@);
    let said = list.map_values(say);
    assert(said.len() == list.len());
    if raw.len() > 0 {
        let before = checked_groups(raw.drop_last())->Ok_0;
        let last = checked_group(raw.len(), raw.last())->Ok_0;
        assert(said == before.push(last));
        let rest = list.drop_last();
        assert(rest.map_values(say) =~= before) by {
            assert forall|i: int| 0 <= i < rest.len() implies rest.map_values(say)[i]
                == before[i] by {
                assert(before[i] == said[i]);
            }
        }
        assert(entries(list.last().conditions@) == said.last());
        lemma_checked_groups(raw.drop_last(), rest);
        lemma_checked_conditions(raw.len(), raw.last().conditions@, list.last().conditions@);
        assert forall|i: int| 0 <= i < list.len() implies (#[trigger] list[i]).well_formed() by {
            if i < rest.len() {
                assert(rest[i] == list[i]);
            }
        }
        assert forall|i: int, k: int|
            0 <= i < list.len() && 0 <= k < list[i].conditions@.len() implies pattern_compiles(
            #[trigger] list[i].conditions@[k],
        ) by {
            if i < rest.len() {
                assert(rest[i].conditions@[k] == list[i].conditions@[k]);
            }
        }
    }
}

/// Whatever the validator accepts is well-formed: group and condition counts are
/// within their limits, operators suit their targets, values are in normal form,
/// and every pattern compiles at evaluation.
pub proof fn law_accepted_rules_are_well_formed(body: RuleTreeBody, tree: RuleTree)
    requires
        parsed(body) == Ok::<Outline, Seq<char>>(outline(tree)),
    ensures
        tree.well_formed(),
        tree.grant_on_any_player == body.grant_on_any_player,
        forall|g: int, k: int|
            0 <= g < tree.groups@.len() && 0 <= k < tree.groups@[g].conditions@.len()
                ==> pattern_compiles(#[trigger] tree.groups@[g].conditions@[k]),
{
    if body.grant_on_any_player {
        assert(outline(tree).groups.len() == tree.groups@.len());
    } else {
        lemma_checked_groups(body.groups@, tree.groups@);
    }
}

/// Convention 42 at save time: a payload that names nobody is refused, whatever
/// mode it asks for.
pub proof fn law_nobody_is_refused(body: RuleTreeBody)
    requires
        !body.grant_on_any_player,
        body.groups@.len() == 0,
    ensures
        parsed(body) is Err,
{
}

/// What the admin is told of a condition starts with the number of its group and
/// its own.
pub proof fn law_condition_errors_name_their_place(place: Seq<char>, raw: ConditionInput)
    requires
        checked(place, raw) is Err,
    ensures
        place.is_prefix_of(checked(place, raw)->Err_0),
{
    let msg = checked(place, raw)->Err_0;
    let kind = ConditionTarget::of_name(text::trimmed(raw.target@))->0.spec_kind();
    let op = ConditionOperator::of_name(text::trimmed(raw.operator@))->0;
    assert(place.is_prefix_of(complaint(place, kind, op, raw.value@)));
    if raw.value_end is Some {
        assert(place.is_prefix_of(complaint(place, kind, op, raw.value_end->0@)));
    }
}

proof fn lemma_conditions_error_place(group_num: nat, raw: Seq<ConditionInput>) -> (k: nat)
    requires
        checked_conditions(group_num, raw) is Err,
    ensures
        1 <= k <= raw.len(),
        place(group_num, k).is_prefix_of(checked_conditions(group_num, raw)->Err_0),
    decreases raw.len(),
{
    if checked_conditions(group_num, raw.drop_last()) is Err {
        lemma_conditions_error_place(group_num, raw.drop_last())
    } else {
        law_condition_errors_name_their_place(place(group_num, raw.len()), raw.last());
        raw.len()
    }
}

/// Where the mode is known and every count is within its limits, a refusal names
/// the group and the condition that it is about.
pub proof fn law_refusals_name_group_and_condition(body: RuleTreeBody) -> (r: (nat, nat))
    requires
        parsed(body) is Err,
        chosen_mode(body.default_mode) is Ok,
        1 <= body.groups@.len() <= MAX_GROUPS,
        forall|i: int|
            0 <= i < body.groups@.len() ==> 1 <= (#[trigger] body.groups@[i]).conditions@.len()
                <= MAX_CONDITIONS_PER_GROUP,
    ensures
        1 <= r.0 <= body.groups@.len(),
        1 <= r.1 <= body.groups@[r.0 - 1].conditions@.len(),
        place(r.0, r.1).is_prefix_of(parsed(body)->Err_0),
{
    lemma_groups_error_place(body.groups@)
}

proof fn lemma_groups_error_place(raw: Seq<ConditionGroupInput>) -> (r: (nat, nat))
    requires
        checked_groups(raw) is Err,
        forall|i: int|
            0 <= i < raw.len() ==> 1 <= (#[trigger] raw[i]).conditions@.len()
                <= MAX_CONDITIONS_PER_GROUP,
    ensures
        1 <= r.0 <= raw.len(),
        1 <= r.1 <= raw[r.0 - 1].conditions@.len(),
        place(r.0, r.1).is_prefix_of(checked_groups(raw)->Err_0),
    decreases raw.len(),
{
    if checked_groups(raw.drop_last()) is Err {
        lemma_groups_error_place(raw.drop_last())
    } else {
        assert(raw[raw.len() - 1] == raw.last());
        let k = lemma_conditions_error_place(raw.len(), raw.last().conditions@);
        (raw.len(), k)
    }
}

proof fn lemma_kept_of(items: Seq<Json>)
    ensures
        forall|i: int| 0 <= i < kept_of(items).len() ==> kept(#[trigger] kept_of(items)[i]),
    decreases items.len(),
{
    if items.len() > 0 {
        let before = kept_of(items.drop_last());
        lemma_kept_of(items.drop_last());
        assert forall|i: int| 0 <= i < kept_of(items).len() implies kept(
            #[trigger] kept_of(items)[i],
        ) by {
            if i < before.len() {
                assert(kept_of(items)[i] == before[i]);
            }
        }
    }
}

proof fn lemma_pieces_are_kept(pieces: Seq<Seq<char>>)
    ensures
        forall|i: int| 0 <= i < pieces_of(pieces).len() ==> kept(#[trigger] pieces_of(pieces)[i]),
    decreases pieces.len(),
{
    if pieces.len() > 0 {
        let before = pieces_of(pieces.drop_last());
        lemma_pieces_are_kept(pieces.drop_last());
        assert forall|i: int| 0 <= i < pieces_of(pieces).len() implies kept(
            #[trigger] pieces_of(pieces)[i],
        ) by {
            if i < before.len() {
                assert(pieces_of(pieces)[i] == before[i]);
            }
        }
    }
}

proof fn lemma_keep_all(items: Seq<Json>)
    requires
        forall|i: int| 0 <= i < items.len() ==> kept(#[trigger] items[i]),
    ensures
        kept_of(items) == items,
    decreases items.len(),
{
    if items.len() > 0 {
        let rest = items.drop_last();
        assert forall|i: int| 0 <= i < rest.len() implies kept(#[trigger] rest[i]) by {
            assert(rest[i] == items[i]);
        }
        lemma_keep_all(rest);
        assert(kept(items[items.len() - 1]));
        assert(rest.push(items.last()) =~= items);
    } else {
        assert(kept_of(items) =~= items);
    }
}

proof fn lemma_not_blank(s: Seq<char>)
    requires
        s.len() > 0,
        !text::is_white_space(s.last()),
    ensures
        text::trimmed(s).len() > 0,
    decreases s.len(),
{
    if text::is_white_space(s[0]) {
        assert(s.len() > 1);
        assert(s.skip(1).last() == s.last());
        lemma_not_blank(s.skip(1));
    }
}

/// The text of a number or a flag is never blank.
proof fn lemma_scalar_text(raw: Json)
    requires
        raw is Int || raw is Float || raw is Bool,
        raw.valid(),
    ensures
        text::trimmed(json::json_text(raw)).len() > 0,
{
    match raw {
        Json::Bool(b) => {
            reveal_strlit("true");
            reveal_strlit("false");
            assert("true"@.last() == 'e' && "false"@.last() == 'e');
            assert("true"@.len() == 4 && "false"@.len() == 5);
            lemma_not_blank(json::json_text(raw));
        },
        Json::Int(n) => {
            let m = if n < 0 {
                (-n) as nat
            } else {
                n as nat
            };
            let t = text::dec(m);
            assert(t.len() > 0 && text::is_digit(t.last()));
            assert(json::json_text(raw).last() == t.last());
            lemma_not_blank(json::json_text(raw));
        },
        Json::Float(_, t) => {
            lemma_not_blank(t);
        },
        _ => {},
    }
}

/// True for the values that a validated condition holds: a flag, an integer of the
/// signed range, a list of at least one element without nulls and empty texts, or a
/// text that is not blank.
pub open spec fn is_normal(kind: TargetKind, op: ConditionOperator, v: Json) -> bool {
    match kind {
        TargetKind::Bool => v is Bool,
        TargetKind::Int => v.as_i64() is Some,
        TargetKind::String => if op is In || op is NotIn {
            &&& v is List
            &&& v->List_0.len() > 0
            &&& forall|i: int| 0 <= i < v->List_0.len() ==> kept(#[trigger] v->List_0[i])
        } else {
            v is Text && text::trimmed(v->Text_0).len() > 0
        },
    }
}

proof fn lemma_list_items(raw: Json)
    requires
        list_items(raw).len() > 0,
    ensures
        forall|i: int| 0 <= i < list_items(raw).len() ==> kept(#[trigger] list_items(raw)[i]),
{
    match raw {
        Json::List(all) => {
            lemma_kept_of(all);
        },
        Json::Text(s) => {
            lemma_pieces_are_kept(text::split_on(s, ','));
        },
        _ => {},
    }
}

/// Every normal form has the shape that its target and its operator call for.
pub proof fn law_normal_forms_are_normal(kind: TargetKind, op: ConditionOperator, raw: Json)
    requires
        raw.valid(),
        normal(kind, op, raw) is Some,
    ensures
        is_normal(kind, op, normal(kind, op, raw)->0),
{
    if kind is String {
        if op is In || op is NotIn {
            lemma_list_items(raw);
        } else if raw is Int || raw is Float || raw is Bool {
            lemma_scalar_text(raw);
        }
    }
}

/// A value that is normal already is its own normal form.
proof fn lemma_normal_is_stable(kind: TargetKind, op: ConditionOperator, v: Json)
    requires
        is_normal(kind, op, v),
    ensures
        normal(kind, op, v) == Some(v),
{
    if kind is String && (op is In || op is NotIn) {
        lemma_keep_all(v->List_0);
    }
}

/// Normal forms are stable: what the validator stored comes back unchanged when
/// it is saved again.
pub proof fn law_normal_forms_are_stable(kind: TargetKind, op: ConditionOperator, raw: Json)
    requires
        raw.valid(),
        normal(kind, op, raw) is Some,
    ensures
        normal(kind, op, normal(kind, op, raw)->0) == normal(kind, op, raw),
{
    law_normal_forms_are_normal(kind, op, raw);
    lemma_normal_is_stable(kind, op, normal(kind, op, raw)->0);
}

impl ConditionInput {
    /// True when the values are documents of JSON.
    pub open spec fn valid(self) -> bool {
        self.value@.valid() && (self.value_end matches Some(end) ==> end@.valid())
    }

    /// True when this spells a condition out: the keys of its target and its
    /// operator, and its values.
    pub open spec fn spells(self, c: Condition) -> bool {
        &&& self.target@ == c.target.key()
        &&& self.operator@ == c.operator.key()
        &&& self.value@ == c.value@
        &&& opt_json(self.value_end) == opt_json(c.value_end)
    }
}

impl ConditionGroupInput {
    /// True when the values of all conditions are documents of JSON.
    pub open spec fn valid(self) -> bool {
        forall|i: int| 0 <= i < self.conditions@.len() ==> (#[trigger] self.conditions@[i]).valid()
    }

    /// True when this spells a group out, condition by condition.
    pub open spec fn spells(self, g: ConditionGroup) -> bool {
        &&& self.conditions@.len() == g.conditions@.len()
        &&& forall|i: int|
            0 <= i < g.conditions@.len() ==> (#[trigger] self.conditions@[i]).spells(
                g.conditions@[i],
            )
    }
}

impl RuleTreeBody {
    /// True when the values of all conditions are documents of JSON.
    pub open spec fn valid(self) -> bool {
        forall|i: int| 0 <= i < self.groups@.len() ==> (#[trigger] self.groups@[i]).valid()
    }

    /// True when this spells a rule out, group by group.
    pub open spec fn spells(self, tree: RuleTree) -> bool {
        &&& self.grant_on_any_player == tree.grant_on_any_player
        &&& self.default_mode matches Some(mode) && mode@ == tree.default_mode.key()
        &&& self.groups@.len() == tree.groups@.len()
        &&& forall|i: int|
            0 <= i < tree.groups@.len() ==> (#[trigger] self.groups@[i]).spells(tree.groups@[i])
    }
}

proof fn lemma_condition_again(
    place: Seq<char>,
    raw: ConditionInput,
    c: Condition,
    again: ConditionInput,
)
    requires
        raw.valid(),
        checked(place, raw) == Ok::<Entry, Seq<char>>(entry(c)),
        again.spells(c),
    ensures
        checked(place, again) == Ok::<Entry, Seq<char>>(entry(c)),
{
    condition::law_target_keys_are_trimmed(c.target);
    condition::law_operator_keys_are_trimmed(c.operator);
    condition::law_target_key_round_trip(c.target);
    condition::law_operator_key_round_trip(c.operator);
    let kind = c.target.spec_kind();
    law_normal_forms_are_stable(kind, c.operator, raw.value@);
    if c.operator is Between {
        law_normal_forms_are_stable(kind, c.operator, raw.value_end->0@);
    }
    assert(shape(place, again) == Ok::<Entry, Seq<char>>(entry(c)));
}

proof fn lemma_conditions_again(
    group_num: nat,
    raw: Seq<ConditionInput>,
    list: Seq<Condition>,
    again: Seq<ConditionInput>,
)
    requires
        forall|i: int| 0 <= i < raw.len() ==> (#[trigger] raw[i]).valid(),
        checked_conditions(group_num, raw) == Ok::<Seq<Entry>, Seq<char>>(entries(list)),
        again.len() == list.len(),
        forall|i: int| 0 <= i < list.len() ==> (#[trigger] again[i]).spells(list[i]),
    ensures
        checked_conditions(group_num, again) == Ok::<Seq<Entry>, Seq<char>>(entries(list)),
    decreases raw.len(),
{
    lemma_checked_conditions(group_num, raw, list);
    assert(entries(list).len() == list.len());
    if raw.len() == 0 {
        assert(entries(list) =~= Seq::empty());
    } else {
        let before = checked_conditions(group_num, raw.drop_last())->Ok_0;
        let e = checked(place(group_num, raw.len()), raw.last())->Ok_0;
        let rest = list.drop_last();
        assert(entries(list) == before.push(e));
        assert(entries(rest) =~= before) by {
            assert forall|i: int| 0 <= i < rest.len() implies entries(rest)[i] == before[i] by {
                assert(before[i] == entries(list)[i]);
            }
        }
        assert(entry(list.last()) == entries(list).last());
        assert forall|i: int| 0 <= i < raw.drop_last().len() implies (
        #[trigger] raw.drop_last()[i]).valid() by {
            assert(raw.drop_last()[i] == raw[i]);
        }
        assert forall|i: int| 0 <= i < rest.len() implies (
        #[trigger] again.drop_last()[i]).spells(rest[i]) by {
            assert(again.drop_last()[i] == again[i]);
        }
        lemma_conditions_again(group_num, raw.drop_last(), rest, again.drop_last());
        assert(raw[raw.len() - 1].valid() && again[list.len() - 1].spells(list[list.len() - 1]));
        lemma_condition_again(
            place(group_num, raw.len()),
            raw.last(),
            list.last(),
            again.last(),
        );
    }
}

proof fn lemma_groups_again(
    raw: Seq<ConditionGroupInput>,
    list: Seq<ConditionGroup>,
    again: Seq<ConditionGroupInput>,
)
    requires
        forall|i: int| 0 <= i < raw.len() ==> (#[trigger] raw[i]).valid(),
        checked_groups(raw) == Ok::<Seq<Seq<Entry>>, Seq<char>>(
            list.map_values(|g: ConditionGroup| entries(g.conditions@)),
        ),
        again.len() == list.len(),
        forall|i: int| 0 <= i < list.len() ==> (#[trigger] again[i]).spells(list[i]),
    ensures
        checked_groups(again) == checked_groups(raw),
    decreases raw.len(),
{
    lemma_checked_groups(raw, list);
    let say = |g: ConditionGroup| entries(g.conditions@);
    let said = list.map_values(say);
    assert(said.len() == list.len());
    if raw.len() > 0 {
        let before = checked_groups(raw.drop_last())->Ok_0;
        let last = checked_group(raw.len(), raw.last())->Ok_0;
        let rest = list.drop_last();
        assert(said == before.push(last));
        assert(rest.map_values(say) =~= before) by {
            assert forall|i: int| 0 <= i < rest.len() implies rest.map_values(say)[i]
                == before[i] by {
                assert(before[i] == said[i]);
            }
        }
        assert(entries(list.last().conditions@) == said.last());
        assert forall|i: int| 0 <= i < raw.drop_last().len() implies (
        #[trigger] raw.drop_last()[i]).valid() by {
            assert(raw.drop_last()[i] == raw[i]);
        }
        assert forall|i: int| 0 <= i < rest.len() implies (
        #[trigger] again.drop_last()[i]).spells(rest[i]) by {
            assert(again.drop_last()[i] == again[i]);
        }
        lemma_groups_again(raw.drop_last(), rest, again.drop_last());
        assert(raw[raw.len() - 1].valid() && again[list.len() - 1].spells(list[list.len() - 1]));
        assert(list[list.len() - 1].well_formed());
        lemma_conditions_again(
            raw.len(),
            raw.last().conditions@,
            list.last().conditions@,
            again.last().conditions@,
        );
    }
}

/// Saving a saved rule again changes nothing: a payload that spells the rule out is
/// accepted, and becomes the same rule.
pub proof fn law_saving_again_changes_nothing(
    body: RuleTreeBody,
    tree: RuleTree,
    again: RuleTreeBody,
)
    requires
        body.valid(),
        parsed(body) == Ok::<Outline, Seq<char>>(outline(tree)),
        again.spells(tree),
    ensures
        parsed(again) == Ok::<Outline, Seq<char>>(outline(tree)),
{
    law_accepted_rules_are_well_formed(body, tree);
    mode::law_mode_keys_are_trimmed(tree.default_mode);
    mode::law_mode_key_round_trip(tree.default_mode);
    if tree.grant_on_any_player {
        assert(outline(tree).groups =~= Seq::empty());
    } else {
        lemma_groups_again(body.groups@, tree.groups@, again.groups@);
    }
}

/// An accepted condition keeps what the payload says: its target and its operator are
/// those that are named there, its value is the normal form of the value, and its
/// upper bound, which `between` alone has, is the normal form of the upper bound.
pub proof fn law_accepted_conditions_say_what_was_sent(
    place: Seq<char>,
    raw: ConditionInput,
    c: Condition,
)
    requires
        checked(place, raw) == Ok::<Entry, Seq<char>>(entry(c)),
    ensures
        c.target.named(text::trimmed(raw.target@)),
        c.operator.key() == text::trimmed(raw.operator@),
        normal(c.target.spec_kind(), c.operator, raw.value@) == Some(c.value@),
        c.operator is Between ==> raw.value_end is Some && c.value_end is Some && normal(
            c.target.spec_kind(),
            c.operator,
            raw.value_end->0@,
        ) == Some(c.value_end->0@),
        !(c.operator is Between) ==> c.value_end is None,
{
    let e = checked(place, raw)->Ok_0;
    assert(e.target == c.target && e.operator == c.operator);
    assert(e.value == c.value@ && e.value_end == opt_json(c.value_end));
}

proof fn lemma_conditions_sent(
    group_num: nat,
    raw: Seq<ConditionInput>,
    list: Seq<Condition>,
    k: int,
)
    requires
        checked_conditions(group_num, raw) == Ok::<Seq<Entry>, Seq<char>>(entries(list)),
        0 <= k < raw.len(),
    ensures
        list.len() == raw.len(),
        checked(place(group_num, (k + 1) as nat), raw[k]) == Ok::<Entry, Seq<char>>(
            entry(list[k]),
        ),
    decreases raw.len(),
{
    lemma_checked_conditions(group_num, raw, list);
    let before = checked_conditions(group_num, raw.drop_last())->Ok_0;
    let e = checked(place(group_num, raw.len()), raw.last())->Ok_0;
    assert(entries(list) == before.push(e));
    assert(entries(list).len() == list.len());
    let rest = list.drop_last();
    assert(entries(rest) =~= before) by {
        assert forall|i: int| 0 <= i < rest.len() implies entries(rest)[i] == before[i] by {
            assert(before[i] == entries(list)[i]);
        }
    }
    assert(entry(list.last()) == entries(list).last());
    if k < raw.len() - 1 {
        lemma_conditions_sent(group_num, raw.drop_last(), rest, k);
        assert(raw.drop_last()[k] == raw[k] && rest[k] == list[k]);
    }
}

proof fn lemma_groups_sent(raw: Seq<ConditionGroupInput>, list: Seq<ConditionGroup>, g: int)
    requires
        checked_groups(raw) == Ok::<Seq<Seq<Entry>>, Seq<char>>(
            list.map_values(|g: ConditionGroup| entries(g.conditions@)),
        ),
        0 <= g < raw.len(),
    ensures
        list.len() == raw.len(),
        checked_conditions((g + 1) as nat, raw[g].conditions@) == Ok::<Seq<Entry>, Seq<char>>(
            entries(list[g].conditions@),
        ),
    decreases raw.len(),
{
    lemma_checked_groups(raw, list);
    let say = |g: ConditionGroup| entries(g.conditions@);
    let said = list.map_values(say);
    assert(said.len() == list.len());
    let before = checked_groups(raw.drop_last())->Ok_0;
    let last = checked_group(raw.len(), raw.last())->Ok_0;
    assert(said == before.push(last));
    let rest = list.drop_last();
    assert(rest.map_values(say) =~= before) by {
        assert forall|i: int| 0 <= i < rest.len() implies rest.map_values(say)[i] == before[i] by {
            assert(before[i] == said[i]);
        }
    }
    assert(entries(list.last().conditions@) == said.last());
    if g < raw.len() - 1 {
        lemma_groups_sent(raw.drop_last(), rest, g);
        assert(raw.drop_last()[g] == raw[g] && rest[g] == list[g]);
    }
}

/// An accepted rule says what the payload says, in the same order: as many groups, as
/// many conditions in each, and every condition with the target, the operator and the
/// normal forms of the values that stand in its place in the payload.
pub proof fn law_accepted_rules_say_what_was_sent(
    body: RuleTreeBody,
    tree: RuleTree,
    g: int,
    k: int,
)
    requires
        parsed(body) == Ok::<Outline, Seq<char>>(outline(tree)),
        !body.grant_on_any_player,
        0 <= g < body.groups@.len(),
        0 <= k < body.groups@[g].conditions@.len(),
    ensures
        tree.groups@.len() == body.groups@.len(),
        tree.groups@[g].conditions@.len() == body.groups@[g].conditions@.len(),
        ({
            let raw = body.groups@[g].conditions@[k];
            let c = tree.groups@[g].conditions@[k];
            &&& c.target.named(text::trimmed(raw.target@))
            &&& c.operator.key() == text::trimmed(raw.operator@)
            &&& normal(c.target.spec_kind(), c.operator, raw.value@) == Some(c.value@)
            &&& c.operator is Between ==> raw.value_end is Some && c.value_end is Some && normal(
                c.target.spec_kind(),
                c.operator,
                raw.value_end->0@,
            ) == Some(c.value_end->0@)
            &&& !(c.operator is Between) ==> c.value_end is None
        }),
        body.default_mode matches Some(m) && text::trimmed(m@).len() > 0 ==> tree.default_mode.named(
            text::trimmed(body.default_mode->0@),
        ),
        body.default_mode is None ==> tree.default_mode is Osu,
{
    lemma_groups_sent(body.groups@, tree.groups@, g);
    lemma_conditions_sent(
        (g + 1) as nat,
        body.groups@[g].conditions@,
        tree.groups@[g].conditions@,
        k,
    );
    law_accepted_conditions_say_what_was_sent(
        place((g + 1) as nat, (k + 1) as nat),
        body.groups@[g].conditions@[k],
        tree.groups@[g].conditions@[k],
    );
}

/// True when the values of a condition are normal and its pattern, if it has one,
/// compiles.
pub open spec fn ready(c: Condition) -> bool {
    &&& c.well_formed()
    &&& is_normal(c.target.spec_kind(), c.operator, c.value@)
    &&& pattern_compiles(c)
}

proof fn lemma_condition_kept(place: Seq<char>, raw: ConditionInput, c: Condition)
    requires
        raw.spells(c),
        ready(c),
    ensures
        checked(place, raw) == Ok::<Entry, Seq<char>>(entry(c)),
{
    condition::law_target_keys_are_trimmed(c.target);
    condition::law_operator_keys_are_trimmed(c.operator);
    condition::law_target_key_round_trip(c.target);
    condition::law_operator_key_round_trip(c.operator);
    let kind = c.target.spec_kind();
    lemma_normal_is_stable(kind, c.operator, c.value@);
    if c.operator is Between {
        lemma_normal_is_stable(kind, c.operator, c.value_end->0@);
    }
    assert(shape(place, raw) == Ok::<Entry, Seq<char>>(entry(c)));
}

proof fn lemma_conditions_kept(group_num: nat, raw: Seq<ConditionInput>, list: Seq<Condition>)
    requires
        raw.len() == list.len(),
        forall|i: int| 0 <= i < list.len() ==> (#[trigger] raw[i]).spells(list[i]),
        forall|i: int| 0 <= i < list.len() ==> ready(#[trigger] list[i]),
    ensures
        checked_conditions(group_num, raw) == Ok::<Seq<Entry>, Seq<char>>(entries(list)),
    decreases raw.len(),
{
    if raw.len() == 0 {
        assert(entries(list) =~= Seq::empty());
    } else {
        let rest = list.drop_last();
        assert forall|i: int| 0 <= i < rest.len() implies (#[trigger] raw.drop_last()[i]).spells(
            rest[i],
        ) by {
            assert(raw.drop_last()[i] == raw[i]);
        }
        assert forall|i: int| 0 <= i < rest.len() implies ready(#[trigger] rest[i]) by {
            assert(rest[i] == list[i]);
        }
        lemma_conditions_kept(group_num, raw.drop_last(), rest);
        assert(raw[raw.len() - 1].spells(list[raw.len() - 1]) && ready(list[raw.len() - 1]));
        lemma_condition_kept(place(group_num, raw.len()), raw.last(), list.last());
        assert(entries(list) =~= entries(rest).push(entry(list.last())));
    }
}

proof fn lemma_groups_kept(raw: Seq<ConditionGroupInput>, list: Seq<ConditionGroup>)
    requires
        raw.len() == list.len(),
        forall|i: int| 0 <= i < list.len() ==> (#[trigger] raw[i]).spells(list[i]),
        forall|i: int| 0 <= i < list.len() ==> (#[trigger] list[i]).well_formed(),
        forall|i: int, k: int|
            0 <= i < list.len() && 0 <= k < list[i].conditions@.len() ==> ready(
                #[trigger] list[i].conditions@[k],
            ),
    ensures
        checked_groups(raw) == Ok::<Seq<Seq<Entry>>, Seq<char>>(
            list.map_values(|g: ConditionGroup| entries(g.conditions@)),
        ),
    decreases raw.len(),
{
    let say = |g: ConditionGroup| entries(g.conditions@);
    if raw.len() == 0 {
        assert(list.map_values(say) =~= Seq::empty());
    } else {
        let rest = list.drop_last();
        let n = raw.len() - 1;
        assert forall|i: int| 0 <= i < rest.len() implies (#[trigger] raw.drop_last()[i]).spells(
            rest[i],
        ) by {
            assert(raw.drop_last()[i] == raw[i]);
        }
        assert forall|i: int| 0 <= i < rest.len() implies (#[trigger] rest[i]).well_formed() by {
            assert(rest[i] == list[i]);
        }
        assert forall|i: int, k: int|
            0 <= i < rest.len() && 0 <= k < rest[i].conditions@.len() implies ready(
            #[trigger] rest[i].conditions@[k],
        ) by {
            assert(list[i].conditions@[k] == rest[i].conditions@[k]);
        }
        lemma_groups_kept(raw.drop_last(), rest);
        assert(raw[n].spells(list[n]) && list[n].well_formed());
        assert forall|k: int| 0 <= k < list[n].conditions@.len() implies ready(
            #[trigger] list[n].conditions@[k],
        ) by {}
        lemma_conditions_kept(raw.len(), raw.last().conditions@, list.last().conditions@);
        assert(list.map_values(say) =~= rest.map_values(say).push(
            entries(list.last().conditions@),
        ));
    }
}

/// Every well-formed rule whose values are normal and whose patterns compile can be
/// sent as it is, and is saved exactly as it was sent: bounds, lists and texts among
/// them.
pub proof fn law_normal_rules_are_saved_as_sent(tree: RuleTree, body: RuleTreeBody)
    requires
        tree.well_formed(),
        body.spells(tree),
        forall|g: int, k: int|
            0 <= g < tree.groups@.len() && 0 <= k < tree.groups@[g].conditions@.len() ==> ready(
                #[trigger] tree.groups@[g].conditions@[k],
            ),
    ensures
        parsed(body) == Ok::<Outline, Seq<char>>(outline(tree)),
{
    mode::law_mode_keys_are_trimmed(tree.default_mode);
    mode::law_mode_key_round_trip(tree.default_mode);
    if tree.grant_on_any_player {
        assert(outline(tree).groups =~= Seq::empty());
    } else {
        lemma_groups_kept(body.groups@, tree.groups@);
    }
}

/// The normal form of a number is the number: as an integer, as its decimal text in
/// any margins of white space, and held within the signed range where it is above.
pub proof fn law_numbers_keep_their_value(
    op: ConditionOperator,
    n: int,
    a: Seq<char>,
    b: Seq<char>,
)
    requires
        i64::MIN <= n,
        text::is_blank(a),
        text::is_blank(b),
    ensures
        n <= i64::MAX ==> normal(TargetKind::Int, op, Json::Int(n)) == Some(Json::Int(n)),
        n > i64::MAX ==> normal(TargetKind::Int, op, Json::Int(n)) == Some(
            Json::Int(i64::MAX as int),
        ),
        n <= i64::MAX ==> normal(TargetKind::Int, op, Json::Text(a + text::int_dec(n) + b))
            == Some(Json::Int(n)),
{
    text::law_signed_decimals_read_back(n);
    let m = if n < 0 {
        (-n) as nat
    } else {
        n as nat
    };
    text::law_decimals_read_back(m);
    let s = text::int_dec(n);
    let d = text::dec(m);
    assert(text::is_digit(d[0]) && text::is_digit(d[d.len() - 1]));
    assert(s.last() == d.last());
    assert(s[0] == '-' || s[0] == d[0]);
    text::law_margins_are_ignored(a, s, b);
}

/// A number with a fraction is cut off, and nothing else but a number, or a text that
/// writes one, is an integer.
pub proof fn law_only_numbers_are_integers(op: ConditionOperator, raw: Json)
    ensures
        raw matches Json::Float(whole, _) ==> normal(TargetKind::Int, op, raw) == Some(
            Json::Int(whole as int),
        ),
        raw is Null || raw is Bool || raw is List || raw is Fields ==> normal(
            TargetKind::Int,
            op,
            raw,
        ) is None,
        raw matches Json::Text(s) ==> (normal(TargetKind::Int, op, raw) is Some
            <==> text::i64_value(text::trimmed(s)) is Some),
{
}

/// The normal form of a flag is the flag: as it is, as the text that JSON writes it as
/// and as the digit that stands for it, in any margins and in any case.
pub proof fn law_flags_keep_their_value(
    op: ConditionOperator,
    flag: bool,
    a: Seq<char>,
    s: Seq<char>,
    b: Seq<char>,
)
    requires
        text::is_blank(a),
        text::is_blank(b),
        text::lowered(s) == json::json_text(Json::Bool(flag)) || s == text::dec(
            if flag {
                1
            } else {
                0
            },
        ),
    ensures
        normal(TargetKind::Bool, op, Json::Bool(flag)) == Some(Json::Bool(flag)),
        normal(TargetKind::Bool, op, Json::Text(a + s + b)) == Some(Json::Bool(flag)),
{
    reveal_strlit("true");
    reveal_strlit("false");
    reveal_strlit("1");
    reveal_strlit("0");
    reveal_strlit("yes");
    reveal_strlit("no");
    let low = text::lowered(s);
    assert(low.len() == s.len());
    assert(s.len() > 0);
    text::law_lower_case(s, 0);
    text::law_lower_case(s, s.len() - 1);
    if s == text::dec(
        if flag {
            1
        } else {
            0
        },
    ) {
        assert(s =~= if flag {
            "1"@
        } else {
            "0"@
        });
        assert(low =~= s);
    }
    assert(!text::is_white_space(s[0]) && !text::is_white_space(s.last()));
    text::law_margins_are_ignored(a, s, b);
    assert(yes_word(low) == flag && no_word(low) == !flag);
}

/// A text is kept as it is, white space included; a number or a flag is kept as the
/// text that JSON writes it as. A blank text is no value.
pub proof fn law_texts_are_kept(op: ConditionOperator, raw: Json)
    requires
        !(op is In || op is NotIn),
    ensures
        raw matches Json::Text(s) ==> normal(TargetKind::String, op, raw) == if text::is_blank(s) {
            None
        } else {
            Some(Json::Text(s))
        },
        raw is Int || raw is Float || raw is Bool ==> normal(TargetKind::String, op, raw) == Some(
            Json::Text(json::json_text(raw)),
        ),
        raw is Null || raw is List || raw is Fields ==> normal(TargetKind::String, op, raw) is None,
{
    if let Json::Text(s) = raw {
        let (a, b) = text::law_trimming_takes_the_margins(s);
        let t = text::trimmed(s);
        if t.len() == 0 {
            assert forall|i: int| 0 <= i < s.len() implies text::is_white_space(
                #[trigger] s[i],
            ) by {
                if i < a.len() {
                    assert(s[i] == a[i]);
                } else {
                    assert(s[i] == b[i - a.len()]);
                }
            }
        } else {
            assert(s[a.len() as int] == t[0]);
        }
    }
}

/// A list keeps its elements in their order, but for nulls and empty texts; a list
/// without any other element is no value.
pub proof fn law_lists_keep_their_elements(op: ConditionOperator, items: Seq<Json>)
    requires
        op is In || op is NotIn,
    ensures
        ({
            let left = items.filter(|v: Json| !(v is Null) && v != Json::Text(Seq::empty()));
            normal(TargetKind::String, op, Json::List(items)) == if left.len() == 0 {
                None
            } else {
                Some(Json::List(left))
            }
        }),
{
    lemma_kept_is_filtered(items);
}

proof fn lemma_kept_is_filtered(items: Seq<Json>)
    ensures
        kept_of(items) == items.filter(
            |v: Json| !(v is Null) && v != Json::Text(Seq::empty()),
        ),
    decreases items.len(),
{
    reveal(Seq::filter);
    if items.len() > 0 {
        lemma_kept_is_filtered(items.drop_last());
        let v = items.last();
        if let Json::Text(s) = v {
            if s.len() == 0 {
                assert(s =~= Seq::empty());
            }
        }
    }
}

/// A comma-separated text stands for the list of its pieces: whatever margins of white
/// space they stand in, pieces without commas come back in their order.
pub proof fn law_comma_separated_texts_are_lists(
    op: ConditionOperator,
    pieces: Seq<Seq<char>>,
    padded: Seq<Seq<char>>,
)
    requires
        op is In || op is NotIn,
        pieces.len() > 0,
        padded.len() == pieces.len(),
        forall|i: int| 0 <= i < pieces.len() ==> !(#[trigger] padded[i]).contains(','),
        forall|i: int|
            0 <= i < pieces.len() ==> (#[trigger] pieces[i]).len() > 0 && text::trimmed(padded[i])
                == pieces[i],
    ensures
        normal(TargetKind::String, op, Json::Text(text::joined(padded, seq![',']))) == Some(
            Json::List(pieces.map_values(|p: Seq<char>| Json::Text(p))),
        ),
{
    text::law_joined_pieces_come_back(padded, ',');
    lemma_pieces(pieces, padded);
}

proof fn lemma_pieces(pieces: Seq<Seq<char>>, padded: Seq<Seq<char>>)
    requires
        padded.len() == pieces.len(),
        forall|i: int|
            0 <= i < pieces.len() ==> (#[trigger] pieces[i]).len() > 0 && text::trimmed(padded[i])
                == pieces[i],
    ensures
        pieces_of(padded) == pieces.map_values(|p: Seq<char>| Json::Text(p)),
    decreases pieces.len(),
{
    let say = |p: Seq<char>| Json::Text(p);
    if pieces.len() == 0 {
        assert(pieces_of(padded) =~= pieces.map_values(say));
    } else {
        let rest = pieces.drop_last();
        let n = pieces.len() - 1;
        assert forall|i: int| 0 <= i < rest.len() implies (#[trigger] rest[i]).len() > 0
            && text::trimmed(padded.drop_last()[i]) == rest[i] by {
            assert(rest[i] == pieces[i]);
        }
        lemma_pieces(rest, padded.drop_last());
        assert(pieces[n].len() > 0 && text::trimmed(padded[n]) == pieces[n]);
        assert(pieces.map_values(say) =~= rest.map_values(say).push(Json::Text(pieces[n])));
    }
}

/// What is refused: a payload with too many groups or none, a group with too many
/// conditions or none, an unknown target or operator, an operator that does not suit
/// its target, a value without a normal form, a `between` without an upper bound, and
/// a pattern that does not compile. Nothing else is: a condition that has none of
/// these faults is accepted.
pub proof fn law_faultless_conditions_are_accepted(
    place: Seq<char>,
    raw: ConditionInput,
    target: ConditionTarget,
    operator: ConditionOperator,
)
    requires
        target.named(text::trimmed(raw.target@)),
        operator.key() == text::trimmed(raw.operator@),
    ensures
        checked(place, raw) is Ok <==> {
            &&& operator.suits(target.spec_kind())
            &&& normal(target.spec_kind(), operator, raw.value@) is Some
            &&& operator is Between ==> raw.value_end is Some && normal(
                target.spec_kind(),
                operator,
                raw.value_end->0@,
            ) is Some
            &&& operator is Regex ==> pattern::acceptable(
                normal(target.spec_kind(), operator, raw.value@)->0->Text_0,
            )
        },
{
    let s = text::trimmed(raw.target@);
    let o = text::trimmed(raw.operator@);
    assert(ConditionTarget::of_name(s) is Some);
    condition::law_target_names_are_unambiguous(target, ConditionTarget::of_name(s)->0, s);
    condition::law_operator_key_round_trip(operator);
}

/// What the admin is told of a condition quotes what is wrong with it: the name that is
/// not known, the operator and the target that do not suit each other, or the value.
pub proof fn law_refusals_quote_the_fault(place: Seq<char>, raw: ConditionInput)
    requires
        checked(place, raw) is Err,
    ensures
        ({
            let msg = checked(place, raw)->Err_0;
            let target = ConditionTarget::of_name(text::trimmed(raw.target@));
            let operator = ConditionOperator::of_name(text::trimmed(raw.operator@));
            &&& target is None ==> text::has_part(msg, raw.target@)
            &&& target is Some && operator is None ==> text::has_part(msg, raw.operator@)
            &&& target is Some && operator is Some && !operator->0.suits(target->0.spec_kind())
                ==> text::has_part(msg, operator->0.key()) && text::has_part(msg, target->0.key())
            &&& target is Some && operator is Some && operator->0.suits(target->0.spec_kind())
                && !(target->0.spec_kind() is String) && normal(
                target->0.spec_kind(),
                operator->0,
                raw.value@,
            ) is None ==> text::has_part(msg, json::json_text(raw.value@))
        }),
{
    let msg = checked(place, raw)->Err_0;
    let target = ConditionTarget::of_name(text::trimmed(raw.target@));
    let operator = ConditionOperator::of_name(text::trimmed(raw.operator@));
    if target is None {
        text::law_a_part_cuts_the_text(msg, raw.target@);
        assert(place + ": unknown target '"@ + raw.target@ + "'."@ == msg);
    } else if operator is None {
        text::law_a_part_cuts_the_text(msg, raw.operator@);
        assert(place + ": unknown operator '"@ + raw.operator@ + "'."@ == msg);
    } else {
        let t = target->0.key();
        let o = operator->0.key();
        let kind = target->0.spec_kind();
        if !operator->0.suits(kind) {
            text::law_a_part_cuts_the_text(msg, o);
            text::law_a_part_cuts_the_text(msg, t);
            assert((place + ": operator '"@) + o + ("' is not valid for '"@ + t + "'."@) =~= msg);
            assert((place + ": operator '"@ + o + "' is not valid for '"@) + t + "'."@ =~= msg);
        } else if !(kind is String) && normal(kind, operator->0, raw.value@) is None {
            let shown = json::json_text(raw.value@);
            text::law_a_part_cuts_the_text(msg, shown);
            if kind is Bool {
                assert((place + ": boolean value required (got "@) + shown + ")."@ =~= msg);
            } else {
                assert((place + ": integer value required (got "@) + shown + ")."@ =~= msg);
            }
        }
    }
}

} // verus!
