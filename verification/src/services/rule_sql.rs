//! SQL WHERE-clause builder for bulk per-role-link sync.
//!
//! Pushes the same DNF semantics as [`crate::services::condition_eval::evaluate`]
//! down into Postgres so a bulk sync filters server-side instead of loading
//! every linked player's facts into memory.
//!
//! The clause references two aliases the caller must provide:
//!   * `ou`: osu_users
//!   * `os`: osu_stats (LEFT JOINed on the rule's `default_mode`; columns
//!     may be NULL for a player who never played the mode)
//!
//! NULL-handling mirrors the evaluator's fail-closed behavior: missing
//! per-mode rows COALESCE numeric columns to 0 and leave nullable columns
//! (global_rank, country_rank) NULL so comparisons fail closed.

use crate::json::Json;
use crate::models::condition::{Condition, ConditionOperator, ConditionTarget};
use crate::models::rule::{ConditionGroup, RuleTree};
use crate::text;
use vstd::prelude::*;
use vstd::string::*;

verus! {

/// A value for a numbered parameter of a statement.
#[derive(Debug, PartialEq)]
pub enum Bind {
    Bool(bool),
    Int(i64),
    Text(String),
    TextArray(Vec<String>),
}

/// What a parameter holds.
pub enum Param {
    Bool(bool),
    Int(i64),
    Text(Seq<char>),
    TextArray(Seq<Seq<char>>),
}

impl View for Bind {
    type V = Param;

    open spec fn view(&self) -> Param {
        match self {
            Bind::Bool(b) => Param::Bool(*b),
            Bind::Int(n) => Param::Int(*n),
            Bind::Text(s) => Param::Text(s@),
            Bind::TextArray(list) => Param::TextArray(text::views(list@)),
        }
    }
}

/// What the parameters of a list hold.
pub open spec fn params(binds: Seq<Bind>) -> Seq<Param> {
    binds.map_values(|b: Bind| b@)
}

/// The comparison signs of a clause on numbers.
pub enum Sign {
    Gt,
    Gte,
    Lt,
    Lte,
}

impl Sign {
    pub open spec fn sql(self) -> Seq<char> {
        match self {
            Sign::Gt => ">"@,
            Sign::Gte => ">="@,
            Sign::Lt => "<"@,
            Sign::Lte => "<="@,
        }
    }
}

/// The form of the clause that a condition becomes.
pub enum Clause {
    /// Holds of every row, or of none.
    Constant(bool),
    Equal(ConditionTarget, Param),
    Unequal(ConditionTarget, Param),
    Distinct(ConditionTarget, Param),
    Compared(ConditionTarget, Sign, Param),
    Within(ConditionTarget, Param, Param),
    Like(ConditionTarget, Param),
    Regex(ConditionTarget, Param),
    AnyOf(ConditionTarget, Param),
    NoneOf(ConditionTarget, Param),
    /// Holds of the rows that have a value.
    Present(ConditionTarget),
    /// On an array: it holds the element, or it does not.
    Holds(ConditionTarget, Param),
    Lacks(ConditionTarget, Param),
    /// On an array: some element matches.
    SomeLike(ConditionTarget, Param),
    SomeRegex(ConditionTarget, Param),
    /// On an array: it shares an element with the list, or shares none.
    Overlaps(ConditionTarget, Param),
    Disjoint(ConditionTarget, Param),
}

/// The SQL expression of a target. Bools COALESCE to false, ints to 0,
/// nullable strings and ages stay NULL-able (so comparisons fail closed).
/// Per-mode targets come off `os`.
pub open spec fn expr(target: ConditionTarget) -> Seq<char> {
    match target {
        ConditionTarget::IsSupporter => "COALESCE(ou.is_supporter, false)"@,
        ConditionTarget::IsActive => "COALESCE(ou.is_active, false)"@,
        ConditionTarget::IsRestricted => "COALESCE(ou.is_restricted, false)"@,
        ConditionTarget::HasBadge => "(COALESCE(ou.badge_count, 0) > 0)"@,
        ConditionTarget::HasGroupBadge => "(COALESCE(array_length(ou.groups, 1), 0) > 0)"@,
        ConditionTarget::AccountAgeDays => "TRUNC(EXTRACT(EPOCH FROM (now() - ou.osu_joined_at)) / 86400)"@,
        ConditionTarget::DaysSinceLastVisit => "TRUNC(EXTRACT(EPOCH FROM (now() - ou.last_visit_at)) / 86400)"@,
        ConditionTarget::BadgeCount => "COALESCE(ou.badge_count, 0)"@,
        ConditionTarget::FollowerCount => "COALESCE(ou.follower_count, 0)"@,
        ConditionTarget::MappingSubscribers => "COALESCE(ou.mapping_followers, 0)"@,
        ConditionTarget::Kudosu => "COALESCE(ou.kudosu_total, 0)"@,
        ConditionTarget::RankedBeatmaps => "COALESCE(ou.ranked_beatmaps, 0)"@,
        ConditionTarget::LovedBeatmaps => "COALESCE(ou.loved_beatmaps, 0)"@,
        ConditionTarget::MappingPlaycount => "COALESCE(ou.mapping_playcount, 0)"@,
        ConditionTarget::ReplaysWatchedByOthers => "COALESCE(ou.replays_watched_others, 0)"@,
        ConditionTarget::FavouriteCount => "COALESCE(ou.favourite_beatmapsets, 0)"@,
        ConditionTarget::CountryCode => "ou.country_code"@,
        ConditionTarget::Username => "ou.osu_username"@,
        ConditionTarget::GroupName => "ou.groups"@,
        ConditionTarget::Playstyle => "ou.playstyles"@,
        ConditionTarget::GlobalRank => "os.global_rank"@,
        ConditionTarget::CountryRank => "os.country_rank"@,
        ConditionTarget::PerformancePoints => "COALESCE(os.performance_points, 0)"@,
        ConditionTarget::PlayCount => "COALESCE(os.play_count, 0)"@,
        ConditionTarget::PlayTimeHours => "COALESCE(os.play_time_hours, 0)"@,
        ConditionTarget::TotalScore => "COALESCE(os.total_score, 0)"@,
        ConditionTarget::RankedScore => "COALESCE(os.ranked_score, 0)"@,
        ConditionTarget::HitAccuracy => "COALESCE(os.hit_accuracy, 0)"@,
        ConditionTarget::MaxCombo => "COALESCE(os.max_combo, 0)"@,
        ConditionTarget::LevelInt => "COALESCE(os.level_int, 0)"@,
        ConditionTarget::SsCount => "COALESCE(os.count_ss + os.count_ss_silver, 0)"@,
        ConditionTarget::SCount => "COALESCE(os.count_s + os.count_s_silver, 0)"@,
        ConditionTarget::ACount => "COALESCE(os.count_a, 0)"@,
    }
}

/// A parameter's place in the text: `$` and its number.
pub open spec fn slot(i: nat) -> Seq<char> {
    "$"@ + text::dec(i)
}

/// The text of a clause whose first parameter has the number `i`.
pub open spec fn clause_text(clause: Clause, i: nat) -> Seq<char> {
    match clause {
        Clause::Constant(b) => if b {
            "TRUE"@
        } else {
            "FALSE"@
        },
        Clause::Equal(t, _) => expr(t) + " = "@ + slot(i),
        Clause::Unequal(t, _) => expr(t) + " <> "@ + slot(i),
        Clause::Distinct(t, _) => expr(t) + " IS DISTINCT FROM "@ + slot(i),
        Clause::Compared(t, sign, _) => "("@ + expr(t) + ") "@ + sign.sql() + " "@ + slot(i),
        Clause::Within(t, _, _) => "(("@ + expr(t) + ") >= "@ + slot(i) + " AND ("@ + expr(t)
            + ") <= "@ + slot(i + 1) + ")"@,
        Clause::Like(t, _) => expr(t) + " LIKE "@ + slot(i),
        Clause::Regex(t, _) => expr(t) + " ~ "@ + slot(i),
        Clause::AnyOf(t, _) => expr(t) + " = ANY("@ + slot(i) + "::text[])"@,
        Clause::NoneOf(t, _) => "("@ + expr(t) + " IS NOT NULL AND "@ + expr(t) + " <> ALL("@
            + slot(i) + "::text[]))"@,
        Clause::Present(t) => expr(t) + " IS NOT NULL"@,
        Clause::Holds(t, _) => "("@ + expr(t) + " @> ARRAY["@ + slot(i) + "::text])"@,
        Clause::Lacks(t, _) => "NOT ("@ + expr(t) + " @> ARRAY["@ + slot(i) + "::text])"@,
        Clause::SomeLike(t, _) => "EXISTS (SELECT 1 FROM unnest("@ + expr(t)
            + ") AS x WHERE x LIKE "@ + slot(i) + ")"@,
        Clause::SomeRegex(t, _) => "EXISTS (SELECT 1 FROM unnest("@ + expr(t)
            + ") AS x WHERE x ~ "@ + slot(i) + ")"@,
        Clause::Overlaps(t, _) => "("@ + expr(t) + " && "@ + slot(i) + "::text[])"@,
        Clause::Disjoint(t, _) => "NOT ("@ + expr(t) + " && "@ + slot(i) + "::text[])"@,
    }
}

/// The parameters of a clause, in the order of their numbers.
pub open spec fn clause_params(clause: Clause) -> Seq<Param> {
    match clause {
        Clause::Constant(_) => Seq::empty(),
        Clause::Equal(_, p) => seq![p],
        Clause::Unequal(_, p) => seq![p],
        Clause::Distinct(_, p) => seq![p],
        Clause::Compared(_, _, p) => seq![p],
        Clause::Within(_, lo, hi) => seq![lo, hi],
        Clause::Like(_, p) => seq![p],
        Clause::Regex(_, p) => seq![p],
        Clause::AnyOf(_, p) => seq![p],
        Clause::NoneOf(_, p) => seq![p],
        Clause::Present(_) => Seq::empty(),
        Clause::Holds(_, p) => seq![p],
        Clause::Lacks(_, p) => seq![p],
        Clause::SomeLike(_, p) => seq![p],
        Clause::SomeRegex(_, p) => seq![p],
        Clause::Overlaps(_, p) => seq![p],
        Clause::Disjoint(_, p) => seq![p],
    }
}

/// How a character of a literal is written in a LIKE pattern.
pub open spec fn like_char(c: char) -> Seq<char> {
    if c == '\\' || c == '%' || c == '_' {
        seq!['\\', c]
    } else {
        seq![c]
    }
}

/// A literal as a LIKE pattern that matches it alone.
pub open spec fn like_escaped(s: Seq<char>) -> Seq<char>
    decreases s.len(),
{
    if s.len() == 0 {
        Seq::empty()
    } else {
        like_escaped(s.drop_last()) + like_char(s.last())
    }
}

/// The LIKE pattern of "contains this literal".
pub open spec fn like_anywhere(s: Seq<char>) -> Seq<char> {
    "%"@ + like_escaped(s) + "%"@
}

/// The text of a value, or the empty text where it is none.
pub open spec fn text_or_empty(v: Json) -> Seq<char> {
    match v.as_text() {
        Some(s) => s,
        None => Seq::empty(),
    }
}

/// The integer of a value, or zero where it is none.
pub open spec fn int_or_zero(v: Json) -> i64 {
    match v.as_i64() {
        Some(n) => n,
        None => 0,
    }
}

/// The texts among the elements of a list, in their order.
pub open spec fn texts_among(items: Seq<Json>) -> Seq<Seq<char>>
    decreases items.len(),
{
    if items.len() == 0 {
        Seq::empty()
    } else {
        match items.last().as_text() {
            Some(s) => texts_among(items.drop_last()).push(s),
            None => texts_among(items.drop_last()),
        }
    }
}

/// The texts of a list value; none where the value is no list.
pub open spec fn text_list(v: Json) -> Seq<Seq<char>> {
    match v {
        Json::List(items) => texts_among(items),
        _ => Seq::empty(),
    }
}

/// The upper bound of a `between`: the lower one where there is none.
pub open spec fn upper_or(c: Condition, lo: i64) -> i64 {
    match c.value_end {
        Some(v) => match v@.as_i64() {
            Some(n) => n,
            None => lo,
        },
        None => lo,
    }
}

/// The clause on a target that is an array.
pub open spec fn array_clause(c: Condition) -> Clause {
    let text = Param::Text(text_or_empty(c.value@));
    let list = text_list(c.value@);
    match c.operator {
        ConditionOperator::Eq => Clause::Holds(c.target, text),
        ConditionOperator::Neq => Clause::Lacks(c.target, text),
        ConditionOperator::Contains => Clause::SomeLike(
            c.target,
            Param::Text(like_anywhere(text_or_empty(c.value@))),
        ),
        ConditionOperator::Regex => Clause::SomeRegex(c.target, text),
        ConditionOperator::In => if list.len() == 0 {
            Clause::Constant(false)
        } else {
            Clause::Overlaps(c.target, Param::TextArray(list))
        },
        ConditionOperator::NotIn => if list.len() == 0 {
            Clause::Constant(true)
        } else {
            Clause::Disjoint(c.target, Param::TextArray(list))
        },
        _ => Clause::Constant(false),
    }
}

/// The clause on a target that is a single value.
pub open spec fn scalar_clause(c: Condition) -> Clause {
    let text = Param::Text(text_or_empty(c.value@));
    let number = Param::Int(int_or_zero(c.value@));
    let list = text_list(c.value@);
    match c.operator {
        ConditionOperator::Eq => match (c.value@.as_bool(), c.value@.as_i64()) {
            (Some(b), _) => Clause::Equal(c.target, Param::Bool(b)),
            (None, Some(n)) => Clause::Equal(c.target, Param::Int(n)),
            (None, None) => Clause::Equal(c.target, text),
        },
        ConditionOperator::Neq => match c.value@.as_i64() {
            Some(n) => Clause::Unequal(c.target, Param::Int(n)),
            None => Clause::Distinct(c.target, text),
        },
        ConditionOperator::Gt => Clause::Compared(c.target, Sign::Gt, number),
        ConditionOperator::Gte => Clause::Compared(c.target, Sign::Gte, number),
        ConditionOperator::Lt => Clause::Compared(c.target, Sign::Lt, number),
        ConditionOperator::Lte => Clause::Compared(c.target, Sign::Lte, number),
        ConditionOperator::Between => Clause::Within(
            c.target,
            number,
            Param::Int(upper_or(c, int_or_zero(c.value@))),
        ),
        ConditionOperator::Contains => Clause::Like(
            c.target,
            Param::Text(like_anywhere(text_or_empty(c.value@))),
        ),
        ConditionOperator::Regex => Clause::Regex(c.target, text),
        ConditionOperator::In => if list.len() == 0 {
            Clause::Constant(false)
        } else {
            Clause::AnyOf(c.target, Param::TextArray(list))
        },
        ConditionOperator::NotIn => if list.len() == 0 {
            Clause::Present(c.target)
        } else {
            Clause::NoneOf(c.target, Param::TextArray(list))
        },
    }
}

/// The clause that a condition becomes.
pub open spec fn condition_clause(c: Condition) -> Clause {
    if c.target.is_list() {
        array_clause(c)
    } else {
        scalar_clause(c)
    }
}

/// The parameters of a list of conditions.
pub open spec fn conditions_params(conditions: Seq<Condition>) -> Seq<Param>
    decreases conditions.len(),
{
    if conditions.len() == 0 {
        Seq::empty()
    } else {
        conditions_params(conditions.drop_last()) + clause_params(
            condition_clause(conditions.last()),
        )
    }
}

/// The clauses of a list of conditions. Parameters are numbered behind `before`.
pub open spec fn conditions_texts(conditions: Seq<Condition>, before: nat) -> Seq<Seq<char>>
    decreases conditions.len(),
{
    if conditions.len() == 0 {
        Seq::empty()
    } else {
        let rest = conditions.drop_last();
        conditions_texts(rest, before).push(
            clause_text(
                condition_clause(conditions.last()),
                before + conditions_params(rest).len() + 1,
            ),
        )
    }
}

/// The parameters of a list of groups.
pub open spec fn groups_params(groups: Seq<ConditionGroup>) -> Seq<Param>
    decreases groups.len(),
{
    if groups.len() == 0 {
        Seq::empty()
    } else {
        groups_params(groups.drop_last()) + conditions_params(groups.last().conditions@)
    }
}

/// The text of a group: its clauses joined by AND, or FALSE where it has none.
pub open spec fn group_text(group: ConditionGroup, before: nat) -> Seq<char> {
    if group.conditions@.len() == 0 {
        "FALSE"@
    } else {
        "("@ + text::joined(conditions_texts(group.conditions@, before), " AND "@) + ")"@
    }
}

/// The texts of a list of groups. Parameters are numbered behind `before`.
pub open spec fn groups_texts(groups: Seq<ConditionGroup>, before: nat) -> Seq<Seq<char>>
    decreases groups.len(),
{
    if groups.len() == 0 {
        Seq::empty()
    } else {
        let rest = groups.drop_last();
        groups_texts(rest, before).push(
            group_text(groups.last(), before + groups_params(rest).len()),
        )
    }
}

/// The WHERE clause of a rule: groups joined by OR.
pub open spec fn where_text(tree: RuleTree, before: nat) -> Seq<char> {
    if tree.grant_on_any_player {
        "TRUE"@
    } else if tree.groups@.len() == 0 {
        "FALSE"@
    } else {
        "("@ + text::joined(groups_texts(tree.groups@, before), " OR "@) + ")"@
    }
}

/// The parameters of the WHERE clause of a rule.
pub open spec fn where_params(tree: RuleTree) -> Seq<Param> {
    if tree.grant_on_any_player {
        Seq::empty()
    } else {
        groups_params(tree.groups@)
    }
}

/// Returns the clause and its parameters, which are numbered from
/// `bind_offset + 1` on. Convention 42: no blanket grant and no groups is
/// "FALSE" (match nobody). A blanket grant is "TRUE".
pub fn build_rule_where(tree: &RuleTree, bind_offset: usize) -> (r: (String, Vec<Bind>))
    ensures
        r.0@ == where_text(*tree, bind_offset as nat),
        params(r.1@) == where_params(*tree),
{
    let mut binds: Vec<Bind> = Vec::new();
    proof {
        assert(params(binds@) =~= Seq::empty());
    }
    if tree.grant_on_any_player {
        return ("TRUE".to_owned(), binds);
    }
    if tree.groups.len() == 0 {
        return ("FALSE".to_owned(), binds);
    }
    let mut group_clauses: Vec<String> = Vec::new();
    let ghost before = bind_offset as nat;
    let mut i: usize = 0;
    proof {
        assert(text::views(group_clauses@) =~= groups_texts(tree.groups@.take(0), before));
    }
    while i < tree.groups.len()
        invariant
            i <= tree.groups@.len(),
            before == bind_offset as nat,
            text::views(group_clauses@) == groups_texts(tree.groups@.take(i as int), before),
            params(binds@) == groups_params(tree.groups@.take(i as int)),
        decreases tree.groups@.len() - i,
    {
        let ghost rest = tree.groups@.take(i as int);
        let ghost old_clauses = group_clauses@;
        proof {
            assert(tree.groups@.take(i + 1).drop_last() == rest);
        }
        let clause = build_group(&tree.groups[i], bind_offset, &mut binds);
        group_clauses.push(clause);
        proof {
            assert(text::views(group_clauses@) == text::views(old_clauses).push(clause@));
        }
        i += 1;
    }
    proof {
        assert(tree.groups@.take(tree.groups@.len() as int) == tree.groups@);
    }
    let inner = text::join(&group_clauses, " OR ");
    (text::join3("(", inner.as_str(), ")"), binds)
}

fn build_group(group: &ConditionGroup, bind_offset: usize, binds: &mut Vec<Bind>) -> (r: String)
    ensures
        r@ == group_text(*group, (bind_offset + old(binds)@.len()) as nat),
        params(final(binds)@) == params(old(binds)@) + conditions_params(group.conditions@),
{
    if group.conditions.len() == 0 {
        proof {
            assert(params(binds@) + conditions_params(group.conditions@) =~= params(binds@));
        }
        return "FALSE".to_owned();
    }
    let ghost before = (bind_offset + binds@.len()) as nat;
    let ghost start = params(binds@);
    let mut cond_clauses: Vec<String> = Vec::new();
    let mut i: usize = 0;
    proof {
        let none = group.conditions@.take(0);
        assert(text::views(cond_clauses@) =~= conditions_texts(none, before));
        assert(start + conditions_params(none) =~= start);
    }
    while i < group.conditions.len()
        invariant
            i <= group.conditions@.len(),
            before == bind_offset + start.len(),
            text::views(cond_clauses@) == conditions_texts(
                group.conditions@.take(i as int),
                before,
            ),
            params(binds@) == start + conditions_params(group.conditions@.take(i as int)),
        decreases group.conditions@.len() - i,
    {
        let ghost rest = group.conditions@.take(i as int);
        let ghost old_clauses = cond_clauses@;
        proof {
            assert(group.conditions@.take(i + 1).drop_last() == rest);
            assert(params(binds@).len() == start.len() + conditions_params(rest).len());
        }
        let clause = build_condition(&group.conditions[i], bind_offset, binds);
        cond_clauses.push(clause);
        proof {
            assert(text::views(cond_clauses@) == text::views(old_clauses).push(clause@));
            assert(params(binds@) =~= start + conditions_params(group.conditions@.take(i + 1)));
        }
        i += 1;
    }
    proof {
        assert(group.conditions@.take(group.conditions@.len() as int) == group.conditions@);
    }
    let inner = text::join(&cond_clauses, " AND ");
    text::join3("(", inner.as_str(), ")")
}

/// SQL expression for a target.
pub fn target_expr(target: ConditionTarget) -> (r: &'static str)
    ensures
        r@ == expr(target),
{
    match target {
        ConditionTarget::IsSupporter => "COALESCE(ou.is_supporter, false)",
        ConditionTarget::IsActive => "COALESCE(ou.is_active, false)",
        ConditionTarget::IsRestricted => "COALESCE(ou.is_restricted, false)",
        ConditionTarget::HasBadge => "(COALESCE(ou.badge_count, 0) > 0)",
        ConditionTarget::HasGroupBadge => "(COALESCE(array_length(ou.groups, 1), 0) > 0)",
        ConditionTarget::AccountAgeDays => "TRUNC(EXTRACT(EPOCH FROM (now() - ou.osu_joined_at)) / 86400)",
        ConditionTarget::DaysSinceLastVisit => "TRUNC(EXTRACT(EPOCH FROM (now() - ou.last_visit_at)) / 86400)",
        ConditionTarget::BadgeCount => "COALESCE(ou.badge_count, 0)",
        ConditionTarget::FollowerCount => "COALESCE(ou.follower_count, 0)",
        ConditionTarget::MappingSubscribers => "COALESCE(ou.mapping_followers, 0)",
        ConditionTarget::Kudosu => "COALESCE(ou.kudosu_total, 0)",
        ConditionTarget::RankedBeatmaps => "COALESCE(ou.ranked_beatmaps, 0)",
        ConditionTarget::LovedBeatmaps => "COALESCE(ou.loved_beatmaps, 0)",
        ConditionTarget::MappingPlaycount => "COALESCE(ou.mapping_playcount, 0)",
        ConditionTarget::ReplaysWatchedByOthers => "COALESCE(ou.replays_watched_others, 0)",
        ConditionTarget::FavouriteCount => "COALESCE(ou.favourite_beatmapsets, 0)",
        ConditionTarget::CountryCode => "ou.country_code",
        ConditionTarget::Username => "ou.osu_username",
        ConditionTarget::GroupName => "ou.groups",
        ConditionTarget::Playstyle => "ou.playstyles",
        ConditionTarget::GlobalRank => "os.global_rank",
        ConditionTarget::CountryRank => "os.country_rank",
        ConditionTarget::PerformancePoints => "COALESCE(os.performance_points, 0)",
        ConditionTarget::PlayCount => "COALESCE(os.play_count, 0)",
        ConditionTarget::PlayTimeHours => "COALESCE(os.play_time_hours, 0)",
        ConditionTarget::TotalScore => "COALESCE(os.total_score, 0)",
        ConditionTarget::RankedScore => "COALESCE(os.ranked_score, 0)",
        ConditionTarget::HitAccuracy => "COALESCE(os.hit_accuracy, 0)",
        ConditionTarget::MaxCombo => "COALESCE(os.max_combo, 0)",
        ConditionTarget::LevelInt => "COALESCE(os.level_int, 0)",
        ConditionTarget::SsCount => "COALESCE(os.count_ss + os.count_ss_silver, 0)",
        ConditionTarget::SCount => "COALESCE(os.count_s + os.count_s_silver, 0)",
        ConditionTarget::ACount => "COALESCE(os.count_a, 0)",
    }
}

/// Adds a parameter and returns its place in the text.
fn bind_next(bind_offset: usize, binds: &mut Vec<Bind>, bind: Bind) -> (r: String)
    ensures
        r@ == slot((bind_offset + old(binds)@.len() + 1) as nat),
        params(final(binds)@) == params(old(binds)@).push(bind@),
{
    let i: u128 = bind_offset as u128 + binds.len() as u128 + 1;
    binds.push(bind);
    proof {
        assert(params(binds@) =~= params(old(binds)@).push(bind@));
    }
    let number = text::decimal(i);
    text::join2("$", number.as_str())
}

fn str_value(c: &Condition) -> (r: &str)
    ensures
        r@ == text_or_empty(c.value@),
{
    match c.value.as_str() {
        Some(s) => s,
        None => {
            proof {
                reveal_strlit("");
                assert(""@ =~= Seq::empty());
            }
            ""
        },
    }
}

fn build_condition(c: &Condition, bind_offset: usize, binds: &mut Vec<Bind>) -> (r: String)
    ensures
        r@ == clause_text(
            condition_clause(*c),
            (bind_offset + old(binds)@.len() + 1) as nat,
        ),
        params(final(binds)@) == params(old(binds)@) + clause_params(condition_clause(*c)),
{
    let ghost start = params(binds@);
    let expr = target_expr(c.target);
    if matches!(c.target, ConditionTarget::GroupName | ConditionTarget::Playstyle) {
        return build_array_condition(c, expr, bind_offset, binds);
    }
    match c.operator {
        ConditionOperator::Eq => {
            let bind = match c.value.as_bool() {
                Some(b) => Bind::Bool(b),
                None => match c.value.as_i64() {
                    Some(n) => Bind::Int(n),
                    None => Bind::Text(str_value(c).to_owned()),
                },
            };
            let place = bind_next(bind_offset, binds, bind);
            text::join3(expr, " = ", place.as_str())
        },
        ConditionOperator::Neq => match c.value.as_i64() {
            // Plain <> so a NULL number (missing data) is NOT matched.
            Some(n) => {
                let place = bind_next(bind_offset, binds, Bind::Int(n));
                text::join3(expr, " <> ", place.as_str())
            },
            // IS DISTINCT FROM so a NULL text (unset country) DOES match.
            None => {
                let place = bind_next(bind_offset, binds, Bind::Text(str_value(c).to_owned()));
                text::join3(expr, " IS DISTINCT FROM ", place.as_str())
            },
        },
        ConditionOperator::Gt => compared(c, expr, ">", bind_offset, binds),
        ConditionOperator::Gte => compared(c, expr, ">=", bind_offset, binds),
        ConditionOperator::Lt => compared(c, expr, "<", bind_offset, binds),
        ConditionOperator::Lte => compared(c, expr, "<=", bind_offset, binds),
        ConditionOperator::Between => {
            let lo: i64 = match c.value.as_i64() {
                Some(n) => n,
                None => 0,
            };
            let hi: i64 = match &c.value_end {
                Some(end) => match end.as_i64() {
                    Some(n) => n,
                    None => lo,
                },
                None => lo,
            };
            let first = bind_next(bind_offset, binds, Bind::Int(lo));
            let second = bind_next(bind_offset, binds, Bind::Int(hi));
            let mut out = text::join3("((", expr, ") >= ");
            out.append(first.as_str());
            out.append(" AND (");
            out.append(expr);
            out.append(") <= ");
            out.append(second.as_str());
            out.append(")");
            proof {
                assert(params(binds@) =~= start + clause_params(condition_clause(*c)));
            }
            out
        },
        ConditionOperator::Contains => {
            let bind = Bind::Text(like_pattern(str_value(c)));
            let place = bind_next(bind_offset, binds, bind);
            text::join3(expr, " LIKE ", place.as_str())
        },
        ConditionOperator::Regex => {
            let place = bind_next(bind_offset, binds, Bind::Text(str_value(c).to_owned()));
            text::join3(expr, " ~ ", place.as_str())
        },
        ConditionOperator::In => {
            let list = str_array(c);
            if list.len() == 0 {
                proof {
                    assert(start + clause_params(condition_clause(*c)) =~= start);
                }
                return "FALSE".to_owned();
            }
            let place = bind_next(bind_offset, binds, Bind::TextArray(list));
            let mut out = text::join3(expr, " = ANY(", place.as_str());
            out.append("::text[])");
            out
        },
        ConditionOperator::NotIn => {
            let list = str_array(c);
            if list.len() == 0 {
                proof {
                    assert(start + clause_params(condition_clause(*c)) =~= start);
                }
                // A NULL text (unset country) fails closed here as well.
                return text::join2(expr, " IS NOT NULL");
            }
            let place = bind_next(bind_offset, binds, Bind::TextArray(list));
            let mut out = text::join3("(", expr, " IS NOT NULL AND ");
            out.append(expr);
            out.append(" <> ALL(");
            out.append(place.as_str());
            out.append("::text[]))");
            out
        },
    }
}

fn compared(
    c: &Condition,
    expr: &str,
    sign: &str,
    bind_offset: usize,
    binds: &mut Vec<Bind>,
) -> (r: String)
    ensures
        r@ == "("@ + expr@ + ") "@ + sign@ + " "@ + slot(
            (bind_offset + old(binds)@.len() + 1) as nat,
        ),
        params(final(binds)@) == params(old(binds)@) + seq![Param::Int(int_or_zero(c.value@))],
{
    let n: i64 = match c.value.as_i64() {
        Some(n) => n,
        None => 0,
    };
    let place = bind_next(bind_offset, binds, Bind::Int(n));
    let mut out = text::join3("(", expr, ") ");
    out.append(sign);
    out.append(" ");
    out.append(place.as_str());
    out
}

/// Array-valued targets (`groups`, `playstyles`). The TEXT[] column is
/// compared with array operators (`@>`, `&&`, a regex or LIKE over `unnest`).
fn build_array_condition(
    c: &Condition,
    expr: &str,
    bind_offset: usize,
    binds: &mut Vec<Bind>,
) -> (r: String)
    requires
        expr@ == self::expr(c.target),
    ensures
        r@ == clause_text(array_clause(*c), (bind_offset + old(binds)@.len() + 1) as nat),
        params(final(binds)@) == params(old(binds)@) + clause_params(array_clause(*c)),
{
    let ghost start = params(binds@);
    match c.operator {
        ConditionOperator::Eq => {
            let place = bind_next(bind_offset, binds, Bind::Text(str_value(c).to_owned()));
            let mut out = text::join3("(", expr, " @> ARRAY[");
            out.append(place.as_str());
            out.append("::text])");
            out
        },
        ConditionOperator::Neq => {
            let place = bind_next(bind_offset, binds, Bind::Text(str_value(c).to_owned()));
            // NOT @> covers both "doesn't contain" and "empty array".
            let mut out = text::join3("NOT (", expr, " @> ARRAY[");
            out.append(place.as_str());
            out.append("::text])");
            out
        },
        ConditionOperator::Contains => {
            let bind = Bind::Text(like_pattern(str_value(c)));
            let place = bind_next(bind_offset, binds, bind);
            let mut out = text::join3(
                "EXISTS (SELECT 1 FROM unnest(",
                expr,
                ") AS x WHERE x LIKE ",
            );
            out.append(place.as_str());
            out.append(")");
            out
        },
        ConditionOperator::Regex => {
            let place = bind_next(bind_offset, binds, Bind::Text(str_value(c).to_owned()));
            let mut out = text::join3("EXISTS (SELECT 1 FROM unnest(", expr, ") AS x WHERE x ~ ");
            out.append(place.as_str());
            out.append(")");
            out
        },
        ConditionOperator::In => {
            let list = str_array(c);
            if list.len() == 0 {
                proof {
                    assert(start + clause_params(array_clause(*c)) =~= start);
                }
                return "FALSE".to_owned();
            }
            // `&&` is true iff any element of the user's groups is in the list.
            let place = bind_next(bind_offset, binds, Bind::TextArray(list));
            let mut out = text::join3("(", expr, " && ");
            out.append(place.as_str());
            out.append("::text[])");
            out
        },
        ConditionOperator::NotIn => {
            let list = str_array(c);
            if list.len() == 0 {
                proof {
                    assert(start + clause_params(array_clause(*c)) =~= start);
                }
                return "TRUE".to_owned();
            }
            let place = bind_next(bind_offset, binds, Bind::TextArray(list));
            let mut out = text::join3("NOT (", expr, " && ");
            out.append(place.as_str());
            out.append("::text[])");
            out
        },
        _ => {
            proof {
                assert(start + clause_params(array_clause(*c)) =~= start);
            }
            "FALSE".to_owned()
        },
    }
}

fn str_array(c: &Condition) -> (r: Vec<String>)
    ensures
        text::views(r@) == text_list(c.value@),
{
    let mut out: Vec<String> = Vec::new();
    match c.value.as_array() {
        Some(items) => {
            let ghost all = crate::json::json_list(items@);
            let mut i: usize = 0;
            proof {
                assert(text::views(out@) =~= texts_among(all.take(0)));
            }
            while i < items.len()
                invariant
                    i <= items@.len(),
                    all == crate::json::json_list(items@),
                    text::views(out@) == texts_among(all.take(i as int)),
                decreases items@.len() - i,
            {
                let ghost before = out@;
                proof {
                    assert(all.take(i + 1).drop_last() == all.take(i as int));
                    assert(all.take(i + 1).last() == items@[i as int]@);
                }
                if let Some(s) = items[i].as_str() {
                    out.push(s.to_owned());
                    proof {
                        assert(text::views(out@) == text::views(before).push(s@));
                    }
                }
                i += 1;
            }
            proof {
                assert(all.take(all.len() as int) == all);
            }
        },
        None => {
            proof {
                assert(text::views(out@) =~= Seq::empty());
            }
        },
    }
    out
}

/// Escapes the wildcards of LIKE, so that a literal matches itself alone.
pub fn escape_like(s: &str) -> (r: String)
    ensures
        r@ == like_escaped(s@),
{
    let chars = text::chars_of(s);
    let mut out = String::new();
    let mut i: usize = 0;
    while i < chars.len()
        invariant
            i <= chars@.len(),
            chars@ == s@,
            out@ == like_escaped(s@.take(i as int)),
        decreases chars@.len() - i,
    {
        let c: char = chars[i];
        let ghost before = out@;
        proof {
            assert(s@.take(i + 1).drop_last() == s@.take(i as int));
        }
        if c == '\\' || c == '%' || c == '_' {
            out.push('\\');
        }
        out.push(c);
        proof {
            assert(out@ =~= before + like_char(c));
        }
        i += 1;
    }
    proof {
        assert(s@.take(s@.len() as int) == s@);
    }
    out
}

fn like_pattern(s: &str) -> (r: String)
    ensures
        r@ == like_anywhere(s@),
{
    let escaped = escape_like(s);
    text::join3("%", escaped.as_str(), "%")
}

/// True when the three characters stand next to one another in `s`, at `from` or
/// behind it.
spec fn trio(s: Seq<char>, a: char, b: char, c: char, from: int) -> bool
    decreases s.len() - from,
{
    if from + 3 > s.len() {
        false
    } else {
        (s[from] == a && s[from + 1] == b && s[from + 2] == c) || trio(s, a, b, c, from + 1)
    }
}

/// A part that stands in a text has its first three characters there.
proof fn lemma_trio(s: Seq<char>, part: Seq<char>, from: int)
    requires
        from >= 0,
        part.len() >= 3,
    ensures
        !trio(s, part[0], part[1], part[2], from) ==> forall|i: int|
            from <= i ==> !text::occurs_at(s, part, i),
        trio(s, part[0], part[1], part[2], from) && part.len() == 3 ==> text::has_part(s, part),
    decreases s.len() - from,
{
    if from + 3 <= s.len() {
        lemma_trio(s, part, from + 1);
        let here = s[from] == part[0] && s[from + 1] == part[1] && s[from + 2] == part[2];
        if text::occurs_at(s, part, from) {
            let sub = s.subrange(from, from + part.len());
            assert(sub[0] == s[from] && sub[1] == s[from + 1] && sub[2] == s[from + 2]);
        }
        if here && part.len() == 3 {
            assert(s.subrange(from, from + 3) =~= part);
            assert(text::occurs_at(s, part, from));
        }
        assert forall|i: int| from <= i && !trio(s, part[0], part[1], part[2], from) implies
            !text::occurs_at(s, part, i) by {}
    }
}

/// True for the targets whose column stands bare: the texts, the instants that ages
/// are counted from, and the ranks, which a row may hold no value of, and the lists.
pub open spec fn stands_bare(target: ConditionTarget) -> bool {
    ||| target.is_textual()
    ||| target is AccountAgeDays || target is DaysSinceLastVisit
    ||| target is GlobalRank || target is CountryRank
}

#[verifier::rlimit(60)]
#[verifier::spinoff_prover]
proof fn lemma_expr(target: ConditionTarget)
    ensures
        trio(expr(target), 'o', 's', '.', 0) == target.spec_per_mode(),
        trio(expr(target), 'o', 'u', '.', 0) == !target.spec_per_mode(),
        text::has_part(expr(target), "COALESCE("@) == !stands_bare(target),
{
    reveal_strlit("COALESCE(");
    reveal_with_fuel(trio, 80);
    lemma_trio(expr(target), "COALESCE("@, 0);
    match target {
        ConditionTarget::IsSupporter => {
            reveal_strlit("COALESCE(ou.is_supporter, false)");
            assert(expr(target).subrange(0, 9) =~= "COALESCE("@);
            assert(text::occurs_at(expr(target), "COALESCE("@, 0));
        },
        ConditionTarget::IsActive => {
            reveal_strlit("COALESCE(ou.is_active, false)");
            assert(expr(target).subrange(0, 9) =~= "COALESCE("@);
            assert(text::occurs_at(expr(target), "COALESCE("@, 0));
        },
        ConditionTarget::IsRestricted => {
            reveal_strlit("COALESCE(ou.is_restricted, false)");
            assert(expr(target).subrange(0, 9) =~= "COALESCE("@);
            assert(text::occurs_at(expr(target), "COALESCE("@, 0));
        },
        ConditionTarget::HasBadge => {
            reveal_strlit("(COALESCE(ou.badge_count, 0) > 0)");
            assert(expr(target).subrange(1, 10) =~= "COALESCE("@);
            assert(text::occurs_at(expr(target), "COALESCE("@, 1));
        },
        ConditionTarget::HasGroupBadge => {
            reveal_strlit("(COALESCE(array_length(ou.groups, 1), 0) > 0)");
            assert(expr(target).subrange(1, 10) =~= "COALESCE("@);
            assert(text::occurs_at(expr(target), "COALESCE("@, 1));
        },
        ConditionTarget::AccountAgeDays => {
            reveal_strlit("TRUNC(EXTRACT(EPOCH FROM (now() - ou.osu_joined_at)) / 86400)");
        },
        ConditionTarget::DaysSinceLastVisit => {
            reveal_strlit("TRUNC(EXTRACT(EPOCH FROM (now() - ou.last_visit_at)) / 86400)");
        },
        ConditionTarget::BadgeCount => {
            reveal_strlit("COALESCE(ou.badge_count, 0)");
            assert(expr(target).subrange(0, 9) =~= "COALESCE("@);
            assert(text::occurs_at(expr(target), "COALESCE("@, 0));
        },
        ConditionTarget::FollowerCount => {
            reveal_strlit("COALESCE(ou.follower_count, 0)");
            assert(expr(target).subrange(0, 9) =~= "COALESCE("@);
            assert(text::occurs_at(expr(target), "COALESCE("@, 0));
        },
        ConditionTarget::MappingSubscribers => {
            reveal_strlit("COALESCE(ou.mapping_followers, 0)");
            assert(expr(target).subrange(0, 9) =~= "COALESCE("@);
            assert(text::occurs_at(expr(target), "COALESCE("@, 0));
        },
        ConditionTarget::Kudosu => {
            reveal_strlit("COALESCE(ou.kudosu_total, 0)");
            assert(expr(target).subrange(0, 9) =~= "COALESCE("@);
            assert(text::occurs_at(expr(target), "COALESCE("@, 0));
        },
        ConditionTarget::RankedBeatmaps => {
            reveal_strlit("COALESCE(ou.ranked_beatmaps, 0)");
            assert(expr(target).subrange(0, 9) =~= "COALESCE("@);
            assert(text::occurs_at(expr(target), "COALESCE("@, 0));
        },
        ConditionTarget::LovedBeatmaps => {
            reveal_strlit("COALESCE(ou.loved_beatmaps, 0)");
            assert(expr(target).subrange(0, 9) =~= "COALESCE("@);
            assert(text::occurs_at(expr(target), "COALESCE("@, 0));
        },
        ConditionTarget::MappingPlaycount => {
            reveal_strlit("COALESCE(ou.mapping_playcount, 0)");
            assert(expr(target).subrange(0, 9) =~= "COALESCE("@);
            assert(text::occurs_at(expr(target), "COALESCE("@, 0));
        },
        ConditionTarget::ReplaysWatchedByOthers => {
            reveal_strlit("COALESCE(ou.replays_watched_others, 0)");
            assert(expr(target).subrange(0, 9) =~= "COALESCE("@);
            assert(text::occurs_at(expr(target), "COALESCE("@, 0));
        },
        ConditionTarget::FavouriteCount => {
            reveal_strlit("COALESCE(ou.favourite_beatmapsets, 0)");
            assert(expr(target).subrange(0, 9) =~= "COALESCE("@);
            assert(text::occurs_at(expr(target), "COALESCE("@, 0));
        },
        ConditionTarget::CountryCode => {
            reveal_strlit("ou.country_code");
        },
        ConditionTarget::Username => {
            reveal_strlit("ou.osu_username");
        },
        ConditionTarget::GroupName => {
            reveal_strlit("ou.groups");
        },
        ConditionTarget::Playstyle => {
            reveal_strlit("ou.playstyles");
        },
        ConditionTarget::GlobalRank => {
            reveal_strlit("os.global_rank");
        },
        ConditionTarget::CountryRank => {
            reveal_strlit("os.country_rank");
        },
        ConditionTarget::PerformancePoints => {
            reveal_strlit("COALESCE(os.performance_points, 0)");
            assert(expr(target).subrange(0, 9) =~= "COALESCE("@);
            assert(text::occurs_at(expr(target), "COALESCE("@, 0));
        },
        ConditionTarget::PlayCount => {
            reveal_strlit("COALESCE(os.play_count, 0)");
            assert(expr(target).subrange(0, 9) =~= "COALESCE("@);
            assert(text::occurs_at(expr(target), "COALESCE("@, 0));
        },
        ConditionTarget::PlayTimeHours => {
            reveal_strlit("COALESCE(os.play_time_hours, 0)");
            assert(expr(target).subrange(0, 9) =~= "COALESCE("@);
            assert(text::occurs_at(expr(target), "COALESCE("@, 0));
        },
        ConditionTarget::TotalScore => {
            reveal_strlit("COALESCE(os.total_score, 0)");
            assert(expr(target).subrange(0, 9) =~= "COALESCE("@);
            assert(text::occurs_at(expr(target), "COALESCE("@, 0));
        },
        ConditionTarget::RankedScore => {
            reveal_strlit("COALESCE(os.ranked_score, 0)");
            assert(expr(target).subrange(0, 9) =~= "COALESCE("@);
            assert(text::occurs_at(expr(target), "COALESCE("@, 0));
        },
        ConditionTarget::HitAccuracy => {
            reveal_strlit("COALESCE(os.hit_accuracy, 0)");
            assert(expr(target).subrange(0, 9) =~= "COALESCE("@);
            assert(text::occurs_at(expr(target), "COALESCE("@, 0));
        },
        ConditionTarget::MaxCombo => {
            reveal_strlit("COALESCE(os.max_combo, 0)");
            assert(expr(target).subrange(0, 9) =~= "COALESCE("@);
            assert(text::occurs_at(expr(target), "COALESCE("@, 0));
        },
        ConditionTarget::LevelInt => {
            reveal_strlit("COALESCE(os.level_int, 0)");
            assert(expr(target).subrange(0, 9) =~= "COALESCE("@);
            assert(text::occurs_at(expr(target), "COALESCE("@, 0));
        },
        ConditionTarget::SsCount => {
            reveal_strlit("COALESCE(os.count_ss + os.count_ss_silver, 0)");
            assert(expr(target).subrange(0, 9) =~= "COALESCE("@);
            assert(text::occurs_at(expr(target), "COALESCE("@, 0));
        },
        ConditionTarget::SCount => {
            reveal_strlit("COALESCE(os.count_s + os.count_s_silver, 0)");
            assert(expr(target).subrange(0, 9) =~= "COALESCE("@);
            assert(text::occurs_at(expr(target), "COALESCE("@, 0));
        },
        ConditionTarget::ACount => {
            reveal_strlit("COALESCE(os.count_a, 0)");
            assert(expr(target).subrange(0, 9) =~= "COALESCE("@);
            assert(text::occurs_at(expr(target), "COALESCE("@, 0));
        },
    }
}

/// Per-mode targets are read off `os` alone, the others off `ou` alone. A default
/// stands in for NULL exactly where the target has to have a value: comparisons of
/// the rest fail closed.
pub proof fn law_expressions_read_their_table(target: ConditionTarget)
    ensures
        text::has_part(expr(target), "os."@) <==> target.spec_per_mode(),
        text::has_part(expr(target), "ou."@) <==> !target.spec_per_mode(),
        text::has_part(expr(target), "COALESCE("@) <==> !stands_bare(target),
{
    reveal_strlit("os.");
    reveal_strlit("ou.");
    lemma_expr(target);
    lemma_trio(expr(target), "os."@, 0);
    lemma_trio(expr(target), "ou."@, 0);
}

} // verus!
