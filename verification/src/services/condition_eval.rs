//! Condition evaluation against one player's facts.
//!
//! Used for one-player decisions. The bulk path of a role link uses
//! [`crate::services::rule_sql::build_rule_where`] instead, which pushes the
//! same predicates down into Postgres.

use crate::clock;
use crate::json::{Json, Value};
use crate::models::condition::{Condition, ConditionOperator, ConditionTarget, TargetKind};
use crate::models::facts::{Facts, Timestamp};
use crate::models::rule::{ConditionGroup, RuleTree};
use crate::pattern;
use crate::text;
use vstd::prelude::*;

verus! {

/// What a target reads from a player.
pub enum Fact {
    /// A yes-or-no fact.
    Flag(bool),
    /// A number, or nothing where it is not known.
    Number(Option<int>),
    /// A text, or nothing where it is not known.
    Text(Option<Seq<char>>),
    /// A list of texts.
    Texts(Seq<Seq<char>>),
}

/// A known number.
pub open spec fn known(n: i64) -> Fact {
    Fact::Number(Some(n as int))
}

/// A number that may be missing, as a mathematical integer.
pub open spec fn widened(n: Option<i64>) -> Option<int> {
    match n {
        Some(k) => Some(k as int),
        None => None,
    }
}

/// A number that may be missing.
pub open spec fn maybe(n: Option<i64>) -> Fact {
    Fact::Number(widened(n))
}

/// The days since an instant, or nothing where the instant is not known.
pub open spec fn age(now: Timestamp, then: Option<Timestamp>) -> Fact {
    match then {
        Some(t) => Fact::Number(Some(clock::days_between(now, t))),
        None => Fact::Number(None),
    }
}

/// What a target reads from a player's facts at a given instant.
pub open spec fn fact(target: ConditionTarget, f: Facts, now: Timestamp) -> Fact {
    match target {
        ConditionTarget::IsSupporter => Fact::Flag(f.is_supporter),
        ConditionTarget::IsActive => Fact::Flag(f.is_active),
        ConditionTarget::IsRestricted => Fact::Flag(f.is_restricted),
        ConditionTarget::HasBadge => Fact::Flag(f.has_badge),
        ConditionTarget::HasGroupBadge => Fact::Flag(f.has_group_badge),
        ConditionTarget::AccountAgeDays => age(now, f.osu_joined_at),
        ConditionTarget::DaysSinceLastVisit => age(now, f.last_visit_at),
        ConditionTarget::BadgeCount => known(f.badge_count),
        ConditionTarget::FollowerCount => known(f.follower_count),
        ConditionTarget::MappingSubscribers => known(f.mapping_subscribers),
        ConditionTarget::Kudosu => known(f.kudosu),
        ConditionTarget::RankedBeatmaps => known(f.ranked_beatmaps),
        ConditionTarget::LovedBeatmaps => known(f.loved_beatmaps),
        ConditionTarget::MappingPlaycount => known(f.mapping_playcount),
        ConditionTarget::ReplaysWatchedByOthers => known(f.replays_watched_by_others),
        ConditionTarget::FavouriteCount => known(f.favourite_count),
        ConditionTarget::CountryCode => Fact::Text(text::opt_view(f.country_code)),
        ConditionTarget::Username => Fact::Text(Some(f.username@)),
        ConditionTarget::GroupName => Fact::Texts(text::views(f.groups@)),
        ConditionTarget::Playstyle => Fact::Texts(text::views(f.playstyles@)),
        ConditionTarget::GlobalRank => maybe(f.global_rank),
        ConditionTarget::CountryRank => maybe(f.country_rank),
        ConditionTarget::PerformancePoints => known(f.performance_points),
        ConditionTarget::PlayCount => known(f.play_count),
        ConditionTarget::PlayTimeHours => known(f.play_time_hours),
        ConditionTarget::TotalScore => known(f.total_score),
        ConditionTarget::RankedScore => known(f.ranked_score),
        ConditionTarget::HitAccuracy => known(f.hit_accuracy),
        ConditionTarget::MaxCombo => known(f.max_combo),
        ConditionTarget::LevelInt => known(f.level_int),
        ConditionTarget::SsCount => known(f.ss_count),
        ConditionTarget::SCount => known(f.s_count),
        ConditionTarget::ACount => known(f.a_count),
    }
}

/// The upper bound of a `between`, if the condition holds one.
pub open spec fn upper_bound(c: Condition) -> Option<i64> {
    match c.value_end {
        Some(v) => v@.as_i64(),
        None => None,
    }
}

/// A flag takes `eq` only.
pub open spec fn flag_matches(c: Condition, actual: bool) -> bool {
    c.operator is Eq && c.value@.as_bool() == Some(actual)
}

/// A comparison of numbers. A missing number, or a value that is none, matches
/// nothing.
pub open spec fn number_matches(c: Condition, actual: Option<int>) -> bool {
    match (actual, c.value@.as_i64()) {
        (Some(a), Some(v)) => match c.operator {
            ConditionOperator::Eq => a == v,
            ConditionOperator::Neq => a != v,
            ConditionOperator::Gt => a > v,
            ConditionOperator::Gte => a >= v,
            ConditionOperator::Lt => a < v,
            ConditionOperator::Lte => a <= v,
            ConditionOperator::Between => match upper_bound(c) {
                Some(hi) => v <= a <= hi,
                None => false,
            },
            _ => false,
        },
        _ => false,
    }
}

/// True when the text is one of the texts of a list.
pub open spec fn listed(list: Json, s: Seq<char>) -> bool {
    match list {
        Json::List(items) => exists|i: int|
            0 <= i < items.len() && (#[trigger] items[i]).as_text() == Some(s),
        _ => false,
    }
}

/// A comparison of texts. A missing text passes `neq` only, so that "country is
/// not X" lets accounts without a country through.
pub open spec fn text_matches(c: Condition, actual: Option<Seq<char>>) -> bool {
    match actual {
        None => c.operator is Neq,
        Some(a) => match c.operator {
            ConditionOperator::Eq => c.value@.as_text() == Some(a),
            ConditionOperator::Neq => c.value@.as_text() is Some && c.value@.as_text() != Some(a),
            ConditionOperator::Contains => match c.value@.as_text() {
                Some(s) => text::has_part(a, s),
                None => false,
            },
            ConditionOperator::Regex => match c.value@.as_text() {
                Some(p) => pattern::found(p, a),
                None => false,
            },
            ConditionOperator::In => listed(c.value@, a),
            ConditionOperator::NotIn => !listed(c.value@, a),
            _ => false,
        },
    }
}

/// A comparison of a list of texts:
///   * `eq` / `contains` / `regex`: some element matches.
///   * `neq`: no element equals the value (an empty list passes).
///   * `in`: some element is in the list of the condition.
///   * `not_in`: no element is in the list of the condition.
pub open spec fn list_matches(c: Condition, actuals: Seq<Seq<char>>) -> bool {
    match c.operator {
        ConditionOperator::Eq => exists|i: int|
            0 <= i < actuals.len() && c.value@.as_text() == Some(#[trigger] actuals[i]),
        ConditionOperator::Neq => forall|i: int|
            0 <= i < actuals.len() ==> c.value@.as_text() != Some(#[trigger] actuals[i]),
        ConditionOperator::Contains => match c.value@.as_text() {
            Some(s) => exists|i: int|
                0 <= i < actuals.len() && text::has_part(#[trigger] actuals[i], s),
            None => false,
        },
        ConditionOperator::Regex => match c.value@.as_text() {
            Some(p) => exists|i: int|
                0 <= i < actuals.len() && pattern::found(p, #[trigger] actuals[i]),
            None => false,
        },
        ConditionOperator::In => exists|i: int|
            0 <= i < actuals.len() && listed(c.value@, #[trigger] actuals[i]),
        ConditionOperator::NotIn => forall|i: int|
            0 <= i < actuals.len() ==> !listed(c.value@, #[trigger] actuals[i]),
        _ => false,
    }
}

/// True when a condition holds of what its target reads.
pub open spec fn condition_matches(c: Condition, f: Facts, now: Timestamp) -> bool {
    match fact(c.target, f, now) {
        Fact::Flag(b) => flag_matches(c, b),
        Fact::Number(n) => number_matches(c, n),
        Fact::Text(t) => text_matches(c, t),
        Fact::Texts(list) => list_matches(c, list),
    }
}

/// A group holds when it has conditions and all of them hold.
pub open spec fn group_matches(g: ConditionGroup, f: Facts, now: Timestamp) -> bool {
    &&& g.conditions@.len() > 0
    &&& forall|i: int|
        0 <= i < g.conditions@.len() ==> condition_matches(#[trigger] g.conditions@[i], f, now)
}

/// A rule holds when it grants to any player, or when some group holds.
pub open spec fn tree_matches(tree: RuleTree, f: Facts, now: Timestamp) -> bool {
    ||| tree.grant_on_any_player
    ||| exists|i: int|
        0 <= i < tree.groups@.len() && group_matches(#[trigger] tree.groups@[i], f, now)
}

/// Evaluate the rule tree against a player's facts, now.
///
/// - `grant_on_any_player = true` grants to everybody.
/// - Otherwise no groups grants to nobody (Convention 42).
/// - Otherwise some group must match, each with all of its conditions. An empty
///   group matches nobody.
pub fn evaluate(tree: &RuleTree, facts: &Facts) -> (r: bool)
    ensures
        exists|now: Timestamp|
            clock::is_reading(now) && r == #[trigger] tree_matches(*tree, *facts, now),
{
    let now = clock::utc_now();
    evaluate_at(tree, facts, now)
}

/// Evaluate the rule tree against a player's facts at a given instant.
pub fn evaluate_at(tree: &RuleTree, facts: &Facts, now: Timestamp) -> (r: bool)
    ensures
        r == tree_matches(*tree, *facts, now),
{
    if tree.grant_on_any_player {
        return true;
    }
    let mut i: usize = 0;
    while i < tree.groups.len()
        invariant
            i <= tree.groups@.len(),
            forall|k: int| 0 <= k < i ==> !group_matches(#[trigger] tree.groups@[k], *facts, now),
        decreases tree.groups@.len() - i,
    {
        if evaluate_group(&tree.groups[i], facts, now) {
            return true;
        }
        i += 1;
    }
    false
}

fn evaluate_group(g: &ConditionGroup, facts: &Facts, now: Timestamp) -> (r: bool)
    ensures
        r == group_matches(*g, *facts, now),
{
    let mut i: usize = 0;
    while i < g.conditions.len()
        invariant
            i <= g.conditions@.len(),
            forall|k: int|
                0 <= k < i ==> condition_matches(#[trigger] g.conditions@[k], *facts, now),
        decreases g.conditions@.len() - i,
    {
        if !evaluate_single(&g.conditions[i], facts, now) {
            return false;
        }
        i += 1;
    }
    g.conditions.len() > 0
}

/// Evaluate one condition against a player's facts at a given instant.
pub fn evaluate_single(c: &Condition, f: &Facts, now: Timestamp) -> (r: bool)
    ensures
        r == condition_matches(*c, *f, now),
{
    match c.target {
        // ---- booleans ----
        ConditionTarget::IsSupporter => bool_match(c, f.is_supporter),
        ConditionTarget::IsActive => bool_match(c, f.is_active),
        ConditionTarget::IsRestricted => bool_match(c, f.is_restricted),
        ConditionTarget::HasBadge => bool_match(c, f.has_badge),
        ConditionTarget::HasGroupBadge => bool_match(c, f.has_group_badge),
        // ---- profile ints ----
        ConditionTarget::AccountAgeDays => int_match(c, days_since(now, f.osu_joined_at)),
        ConditionTarget::DaysSinceLastVisit => int_match(c, days_since(now, f.last_visit_at)),
        ConditionTarget::BadgeCount => int_match(c, Some(f.badge_count)),
        ConditionTarget::FollowerCount => int_match(c, Some(f.follower_count)),
        ConditionTarget::MappingSubscribers => int_match(c, Some(f.mapping_subscribers)),
        ConditionTarget::Kudosu => int_match(c, Some(f.kudosu)),
        ConditionTarget::RankedBeatmaps => int_match(c, Some(f.ranked_beatmaps)),
        ConditionTarget::LovedBeatmaps => int_match(c, Some(f.loved_beatmaps)),
        ConditionTarget::MappingPlaycount => int_match(c, Some(f.mapping_playcount)),
        ConditionTarget::ReplaysWatchedByOthers => int_match(c, Some(f.replays_watched_by_others)),
        ConditionTarget::FavouriteCount => int_match(c, Some(f.favourite_count)),
        // ---- profile strings ----
        ConditionTarget::CountryCode => match &f.country_code {
            Some(code) => string_match(c, Some(code.as_str())),
            None => string_match(c, None),
        },
        ConditionTarget::Username => string_match(c, Some(f.username.as_str())),
        ConditionTarget::GroupName => list_string_match(c, &f.groups),
        ConditionTarget::Playstyle => list_string_match(c, &f.playstyles),
        // ---- per-mode ints ----
        ConditionTarget::GlobalRank => int_match(c, f.global_rank),
        ConditionTarget::CountryRank => int_match(c, f.country_rank),
        ConditionTarget::PerformancePoints => int_match(c, Some(f.performance_points)),
        ConditionTarget::PlayCount => int_match(c, Some(f.play_count)),
        ConditionTarget::PlayTimeHours => int_match(c, Some(f.play_time_hours)),
        ConditionTarget::TotalScore => int_match(c, Some(f.total_score)),
        ConditionTarget::RankedScore => int_match(c, Some(f.ranked_score)),
        ConditionTarget::HitAccuracy => int_match(c, Some(f.hit_accuracy)),
        ConditionTarget::MaxCombo => int_match(c, Some(f.max_combo)),
        ConditionTarget::LevelInt => int_match(c, Some(f.level_int)),
        ConditionTarget::SsCount => int_match(c, Some(f.ss_count)),
        ConditionTarget::SCount => int_match(c, Some(f.s_count)),
        ConditionTarget::ACount => int_match(c, Some(f.a_count)),
    }
}

/// Match a condition against a flag.
pub fn bool_match(c: &Condition, actual: bool) -> (r: bool)
    ensures
        r == flag_matches(*c, actual),
{
    if !matches!(c.operator, ConditionOperator::Eq) {
        return false;
    }
    match c.value.as_bool() {
        Some(v) => v == actual,
        None => false,
    }
}

/// Match a condition against a number, which may be missing.
pub fn int_match(c: &Condition, actual: Option<i64>) -> (r: bool)
    ensures
        r == number_matches(*c, widened(actual)),
{
    let a: i64 = match actual {
        Some(a) => a,
        None => return false,
    };
    let v: i64 = match c.value.as_i64() {
        Some(v) => v,
        None => return false,
    };
    match c.operator {
        ConditionOperator::Eq => a == v,
        ConditionOperator::Neq => a != v,
        ConditionOperator::Gt => a > v,
        ConditionOperator::Gte => a >= v,
        ConditionOperator::Lt => a < v,
        ConditionOperator::Lte => a <= v,
        ConditionOperator::Between => match &c.value_end {
            Some(end) => match end.as_i64() {
                Some(hi) => a >= v && a <= hi,
                None => false,
            },
            None => false,
        },
        _ => false,
    }
}

/// Match a condition against a text, which may be missing.
pub fn string_match(c: &Condition, actual: Option<&str>) -> (r: bool)
    ensures
        r == text_matches(*c, text::opt_str_view(actual)),
{
    let a: &str = match actual {
        Some(a) => a,
        None => return matches!(c.operator, ConditionOperator::Neq),
    };
    match c.operator {
        ConditionOperator::Eq => match c.value.as_str() {
            Some(s) => text::same(a, s),
            None => false,
        },
        ConditionOperator::Neq => match c.value.as_str() {
            Some(s) => !text::same(a, s),
            None => false,
        },
        ConditionOperator::Contains => match c.value.as_str() {
            Some(s) => text::contains(a, s),
            None => false,
        },
        ConditionOperator::Regex => match c.value.as_str() {
            Some(p) => pattern::search(p, a),
            None => false,
        },
        ConditionOperator::In => list_contains(&c.value, a),
        ConditionOperator::NotIn => !list_contains(&c.value, a),
        _ => false,
    }
}

/// True when one element alone decides a condition on a list in its favour
/// (`eq`, `contains`, `regex`, `in`) or against it (`neq`, `not_in`).
spec fn decides(c: Condition, s: Seq<char>) -> bool {
    match c.operator {
        ConditionOperator::Eq | ConditionOperator::Neq => c.value@.as_text() == Some(s),
        ConditionOperator::Contains => c.value@.as_text() is Some && text::has_part(
            s,
            c.value@.as_text()->0,
        ),
        ConditionOperator::Regex => c.value@.as_text() is Some && pattern::found(
            c.value@.as_text()->0,
            s,
        ),
        ConditionOperator::In | ConditionOperator::NotIn => listed(c.value@, s),
        _ => false,
    }
}

fn element_decides(c: &Condition, s: &str) -> (r: bool)
    ensures
        r == decides(*c, s@),
{
    match c.operator {
        ConditionOperator::Eq | ConditionOperator::Neq => match c.value.as_str() {
            Some(n) => text::same(s, n),
            None => false,
        },
        ConditionOperator::Contains => match c.value.as_str() {
            Some(n) => text::contains(s, n),
            None => false,
        },
        ConditionOperator::Regex => match c.value.as_str() {
            Some(p) => pattern::search(p, s),
            None => false,
        },
        ConditionOperator::In | ConditionOperator::NotIn => list_contains(&c.value, s),
        _ => false,
    }
}

/// Match a condition against a list-valued field (groups, playstyles).
pub fn list_string_match(c: &Condition, actuals: &[String]) -> (r: bool)
    ensures
        r == list_matches(*c, text::views(actuals@)),
{
    let ghost all = text::views(actuals@);
    let excluding: bool = matches!(c.operator, ConditionOperator::Neq | ConditionOperator::NotIn);
    let mut i: usize = 0;
    while i < actuals.len()
        invariant
            i <= actuals@.len(),
            all == text::views(actuals@),
            excluding == (c.operator is Neq || c.operator is NotIn),
            forall|k: int| 0 <= k < i ==> !decides(*c, #[trigger] all[k]),
        decreases actuals@.len() - i,
    {
        if element_decides(c, actuals[i].as_str()) {
            proof {
                assert(decides(*c, all[i as int]));
            }
            return !excluding;
        }
        i += 1;
    }
    excluding
}

fn list_contains(value: &Value, needle: &str) -> (r: bool)
    ensures
        r == listed(value@, needle@),
{
    match value.as_array() {
        Some(items) => {
            let mut i: usize = 0;
            while i < items.len()
                invariant
                    i <= items@.len(),
                    value@ == Json::List(crate::json::json_list(items@)),
                    forall|k: int| 0 <= k < i ==> (#[trigger] items@[k])@.as_text() != Some(needle@),
                decreases items@.len() - i,
            {
                if let Some(s) = items[i].as_str() {
                    if text::same(s, needle) {
                        proof {
                            assert(value@->List_0[i as int].as_text() == Some(needle@));
                        }
                        return true;
                    }
                }
                i += 1;
            }
            proof {
                assert forall|k: int| 0 <= k < value@->List_0.len() implies (
                #[trigger] value@->List_0[k]).as_text() != Some(needle@) by {
                    assert(items@[k]@.as_text() != Some(needle@));
                }
            }
            false
        },
        None => false,
    }
}

fn days_since(now: Timestamp, then: Option<Timestamp>) -> (r: Option<i64>)
    ensures
        maybe(r) == age(now, then),
{
    match then {
        Some(t) => Some(clock::whole_days(now, t)),
        None => None,
    }
}

/// A blanket grant reaches every player, whatever the groups say.
pub proof fn law_blanket_grant_reaches_everybody(tree: RuleTree, f: Facts, now: Timestamp)
    requires
        tree.grant_on_any_player,
    ensures
        tree_matches(tree, f, now),
{
}

/// A group without conditions matches nobody.
pub proof fn law_empty_group_matches_nobody(g: ConditionGroup, f: Facts, now: Timestamp)
    requires
        g.conditions@.len() == 0,
    ensures
        !group_matches(g, f, now),
{
}

/// A missing number fails closed: no condition on it holds, whatever the operator.
pub proof fn law_missing_number_fails_closed(c: Condition, f: Facts, now: Timestamp)
    requires
        fact(c.target, f, now) == Fact::Number(None),
    ensures
        !condition_matches(c, f, now),
{
}

/// A condition whose operator does not suit the kind of its target never holds.
pub proof fn law_unsuited_operator_never_matches(c: Condition, f: Facts, now: Timestamp)
    requires
        !c.operator.suits(c.target.spec_kind()),
    ensures
        !condition_matches(c, f, now),
{
}

/// A missing text passes `neq` alone.
pub proof fn law_missing_text_passes_neq_alone(c: Condition)
    ensures
        text_matches(c, None) <==> c.operator is Neq,
{
}

/// On a text, `not_in` is the complement of `in`.
pub proof fn law_not_in_is_the_complement_of_in(c: Condition, a: Seq<char>)
    ensures
        text_matches(Condition { operator: ConditionOperator::NotIn, ..c }, Some(a))
            == !text_matches(Condition { operator: ConditionOperator::In, ..c }, Some(a)),
{
}

/// On a list of texts, `neq` is the complement of `eq` and `not_in` that of `in`.
pub proof fn law_list_operators_are_complements(c: Condition, actuals: Seq<Seq<char>>)
    ensures
        list_matches(Condition { operator: ConditionOperator::Neq, ..c }, actuals)
            == !list_matches(Condition { operator: ConditionOperator::Eq, ..c }, actuals),
        list_matches(Condition { operator: ConditionOperator::NotIn, ..c }, actuals)
            == !list_matches(Condition { operator: ConditionOperator::In, ..c }, actuals),
{
}

/// On a list of texts, `eq` asks for the text of the condition among them, and
/// `in` for one of its texts.
pub proof fn law_list_operators_look_for_an_element(c: Condition, actuals: Seq<Seq<char>>)
    ensures
        c.operator is Eq ==> (list_matches(c, actuals) <==> c.value@ is Text && actuals.contains(
            c.value@->Text_0,
        )),
        c.operator is In ==> (list_matches(c, actuals) <==> exists|s: Seq<char>|
            actuals.contains(s) && #[trigger] listed(c.value@, s)),
{
    if c.operator is In && list_matches(c, actuals) {
        let i = choose|i: int|
            0 <= i < actuals.len() && listed(c.value@, #[trigger] actuals[i]);
        assert(actuals.contains(actuals[i]) && listed(c.value@, actuals[i]));
    }
}

/// An empty list passes `neq` and `not_in`, and nothing else.
pub proof fn law_empty_list_passes_exclusions_alone(c: Condition)
    ensures
        list_matches(c, Seq::empty()) <==> c.operator is Neq || c.operator is NotIn,
{
}

/// Profile targets do not depend on the game mode: only the profile decides them.
pub proof fn law_profile_targets_ignore_stats(c: Condition, f: Facts, g: Facts, now: Timestamp)
    requires
        !c.target.spec_per_mode(),
        f.same_profile(g),
    ensures
        condition_matches(c, f, now) == condition_matches(c, g, now),
{
}

/// Per-mode targets depend on the stats of the mode alone.
pub proof fn law_per_mode_targets_ignore_profile(c: Condition, f: Facts, g: Facts, now: Timestamp)
    requires
        c.target.spec_per_mode(),
        f.same_stats(g),
    ensures
        condition_matches(c, f, now) == condition_matches(c, g, now),
{
}

/// True when `n` is the number of whole days from one instant to another, cut off
/// towards zero: so many days fit between them, and one more does not.
pub open spec fn is_age_in_days(now: Timestamp, then: Timestamp, n: int) -> bool {
    let day = 24 * 60 * 60 * 1_000_000_000int;
    let elapsed = (now.secs - then.secs) * 1_000_000_000 + (now.nanos - then.nanos);
    if elapsed >= 0 {
        n * day <= elapsed < (n + 1) * day
    } else {
        n * day >= elapsed > (n - 1) * day
    }
}

/// The days between two instants are the only number of whole days between them.
pub proof fn lemma_age(now: Timestamp, then: Timestamp, n: int)
    ensures
        is_age_in_days(now, then, n) <==> n == clock::days_between(now, then),
{
    let day = 86_400_000_000_000int;
    let elapsed = now.instant() - then.instant();
    if elapsed >= 0 {
        let q = elapsed / day;
        if n < q {
            assert((n + 1) * day <= q * day) by (nonlinear_arith)
                requires
                    n + 1 <= q,
                    day > 0,
            ;
        }
        if n > q {
            assert(n * day >= (q + 1) * day) by (nonlinear_arith)
                requires
                    n >= q + 1,
                    day > 0,
            ;
        }
    } else {
        let q = (-elapsed) / day;
        if n < -q {
            assert(n * day <= (-q - 1) * day) by (nonlinear_arith)
                requires
                    n <= -q - 1,
                    day > 0,
            ;
        }
        if n > -q {
            assert((n - 1) * day >= -q * day) by (nonlinear_arith)
                requires
                    n - 1 >= -q,
                    day > 0,
            ;
        }
    }
}

/// Each target is decided by its own fact: two players who agree on it get the same
/// verdict on every condition on the target.
pub proof fn law_each_target_is_decided_by_its_own_fact(
    c: Condition,
    f: Facts,
    g: Facts,
    now: Timestamp,
)
    requires
        match c.target {
            ConditionTarget::IsSupporter => f.is_supporter == g.is_supporter,
            ConditionTarget::IsActive => f.is_active == g.is_active,
            ConditionTarget::IsRestricted => f.is_restricted == g.is_restricted,
            ConditionTarget::HasBadge => f.has_badge == g.has_badge,
            ConditionTarget::HasGroupBadge => f.has_group_badge == g.has_group_badge,
            ConditionTarget::AccountAgeDays => f.osu_joined_at == g.osu_joined_at,
            ConditionTarget::DaysSinceLastVisit => f.last_visit_at == g.last_visit_at,
            ConditionTarget::BadgeCount => f.badge_count == g.badge_count,
            ConditionTarget::FollowerCount => f.follower_count == g.follower_count,
            ConditionTarget::MappingSubscribers => f.mapping_subscribers == g.mapping_subscribers,
            ConditionTarget::Kudosu => f.kudosu == g.kudosu,
            ConditionTarget::RankedBeatmaps => f.ranked_beatmaps == g.ranked_beatmaps,
            ConditionTarget::LovedBeatmaps => f.loved_beatmaps == g.loved_beatmaps,
            ConditionTarget::MappingPlaycount => f.mapping_playcount == g.mapping_playcount,
            ConditionTarget::ReplaysWatchedByOthers => f.replays_watched_by_others == g.replays_watched_by_others,
            ConditionTarget::FavouriteCount => f.favourite_count == g.favourite_count,
            ConditionTarget::CountryCode => f.country_code == g.country_code,
            ConditionTarget::Username => f.username == g.username,
            ConditionTarget::GroupName => f.groups == g.groups,
            ConditionTarget::Playstyle => f.playstyles == g.playstyles,
            ConditionTarget::GlobalRank => f.global_rank == g.global_rank,
            ConditionTarget::CountryRank => f.country_rank == g.country_rank,
            ConditionTarget::PerformancePoints => f.performance_points == g.performance_points,
            ConditionTarget::PlayCount => f.play_count == g.play_count,
            ConditionTarget::PlayTimeHours => f.play_time_hours == g.play_time_hours,
            ConditionTarget::TotalScore => f.total_score == g.total_score,
            ConditionTarget::RankedScore => f.ranked_score == g.ranked_score,
            ConditionTarget::HitAccuracy => f.hit_accuracy == g.hit_accuracy,
            ConditionTarget::MaxCombo => f.max_combo == g.max_combo,
            ConditionTarget::LevelInt => f.level_int == g.level_int,
            ConditionTarget::SsCount => f.ss_count == g.ss_count,
            ConditionTarget::SCount => f.s_count == g.s_count,
            ConditionTarget::ACount => f.a_count == g.a_count,
        },
    ensures
        condition_matches(c, f, now) == condition_matches(c, g, now),
{
}

/// `eq` holds exactly when the value of the condition is the fact that its target
/// is named after; of a list, when it is one of the elements.
#[verifier::rlimit(30)]
pub proof fn law_eq_asks_for_the_fact_itself(c: Condition, f: Facts, now: Timestamp)
    requires
        c.operator is Eq,
        c.value@ matches Json::Int(n) ==> i64::MIN <= n <= i64::MAX,
    ensures
        condition_matches(c, f, now) <==> match c.target {
            ConditionTarget::IsSupporter => c.value@ == Json::Bool(f.is_supporter),
            ConditionTarget::IsActive => c.value@ == Json::Bool(f.is_active),
            ConditionTarget::IsRestricted => c.value@ == Json::Bool(f.is_restricted),
            ConditionTarget::HasBadge => c.value@ == Json::Bool(f.has_badge),
            ConditionTarget::HasGroupBadge => c.value@ == Json::Bool(f.has_group_badge),
            ConditionTarget::AccountAgeDays => f.osu_joined_at matches Some(then) && c.value@ is Int && is_age_in_days(now, then, c.value@->Int_0),
            ConditionTarget::DaysSinceLastVisit => f.last_visit_at matches Some(then) && c.value@ is Int && is_age_in_days(now, then, c.value@->Int_0),
            ConditionTarget::BadgeCount => c.value@ == Json::Int(f.badge_count as int),
            ConditionTarget::FollowerCount => c.value@ == Json::Int(f.follower_count as int),
            ConditionTarget::MappingSubscribers => c.value@ == Json::Int(f.mapping_subscribers as int),
            ConditionTarget::Kudosu => c.value@ == Json::Int(f.kudosu as int),
            ConditionTarget::RankedBeatmaps => c.value@ == Json::Int(f.ranked_beatmaps as int),
            ConditionTarget::LovedBeatmaps => c.value@ == Json::Int(f.loved_beatmaps as int),
            ConditionTarget::MappingPlaycount => c.value@ == Json::Int(f.mapping_playcount as int),
            ConditionTarget::ReplaysWatchedByOthers => c.value@ == Json::Int(f.replays_watched_by_others as int),
            ConditionTarget::FavouriteCount => c.value@ == Json::Int(f.favourite_count as int),
            ConditionTarget::CountryCode => f.country_code matches Some(code) && c.value@ == Json::Text(code@),
            ConditionTarget::Username => c.value@ == Json::Text(f.username@),
            ConditionTarget::GroupName => exists|i: int| 0 <= i < f.groups@.len() && c.value@ == Json::Text((#[trigger] f.groups@[i])@),
            ConditionTarget::Playstyle => exists|i: int| 0 <= i < f.playstyles@.len() && c.value@ == Json::Text((#[trigger] f.playstyles@[i])@),
            ConditionTarget::GlobalRank => f.global_rank matches Some(n) && c.value@ == Json::Int(n as int),
            ConditionTarget::CountryRank => f.country_rank matches Some(n) && c.value@ == Json::Int(n as int),
            ConditionTarget::PerformancePoints => c.value@ == Json::Int(f.performance_points as int),
            ConditionTarget::PlayCount => c.value@ == Json::Int(f.play_count as int),
            ConditionTarget::PlayTimeHours => c.value@ == Json::Int(f.play_time_hours as int),
            ConditionTarget::TotalScore => c.value@ == Json::Int(f.total_score as int),
            ConditionTarget::RankedScore => c.value@ == Json::Int(f.ranked_score as int),
            ConditionTarget::HitAccuracy => c.value@ == Json::Int(f.hit_accuracy as int),
            ConditionTarget::MaxCombo => c.value@ == Json::Int(f.max_combo as int),
            ConditionTarget::LevelInt => c.value@ == Json::Int(f.level_int as int),
            ConditionTarget::SsCount => c.value@ == Json::Int(f.ss_count as int),
            ConditionTarget::SCount => c.value@ == Json::Int(f.s_count as int),
            ConditionTarget::ACount => c.value@ == Json::Int(f.a_count as int),
        },
{
    if c.value@ is Int {
        if f.osu_joined_at is Some {
            lemma_age(now, f.osu_joined_at->0, c.value@->Int_0);
        }
        if f.last_visit_at is Some {
            lemma_age(now, f.last_visit_at->0, c.value@->Int_0);
        }
    }
    let groups = text::views(f.groups@);
    let playstyles = text::views(f.playstyles@);
    if c.target is GroupName && condition_matches(c, f, now) {
        let i = choose|i: int| 0 <= i < groups.len() && c.value@.as_text() == Some(
            #[trigger] groups[i],
        );
        assert(c.value@ == Json::Text(f.groups@[i]@));
    }
    if c.target is Playstyle && condition_matches(c, f, now) {
        let i = choose|i: int| 0 <= i < playstyles.len() && c.value@.as_text() == Some(
            #[trigger] playstyles[i],
        );
        assert(c.value@ == Json::Text(f.playstyles@[i]@));
    }
    if c.target is GroupName {
        assert forall|i: int| 0 <= i < f.groups@.len() && c.value@ == Json::Text(
            (#[trigger] f.groups@[i])@,
        ) implies condition_matches(c, f, now) by {
            assert(c.value@.as_text() == Some(groups[i]));
        }
    }
    if c.target is Playstyle {
        assert forall|i: int| 0 <= i < f.playstyles@.len() && c.value@ == Json::Text(
            (#[trigger] f.playstyles@[i])@,
        ) implies condition_matches(c, f, now) by {
            assert(c.value@.as_text() == Some(playstyles[i]));
        }
    }
}

/// On numbers, every operator compares the number that `eq` asks for with the value
/// of the condition, in the way that its name says; `between` takes both bounds in.
pub proof fn law_comparisons_are_on_the_number_that_eq_finds(
    c: Condition,
    d: Condition,
    f: Facts,
    now: Timestamp,
    n: int,
    v: int,
    hi: int,
)
    requires
        d.target == c.target,
        d.operator is Eq,
        d.value@ == Json::Int(n),
        condition_matches(d, f, now),
        c.value@ == Json::Int(v),
        i64::MIN <= v <= i64::MAX,
    ensures
        c.operator is Eq ==> (condition_matches(c, f, now) <==> n == v),
        c.operator is Neq ==> (condition_matches(c, f, now) <==> n < v || n > v),
        c.operator is Gt ==> (condition_matches(c, f, now) <==> n >= v + 1),
        c.operator is Gte ==> (condition_matches(c, f, now) <==> n >= v),
        c.operator is Lt ==> (condition_matches(c, f, now) <==> n <= v - 1),
        c.operator is Lte ==> (condition_matches(c, f, now) <==> n <= v),
        c.operator is Between && c.value_end is Some && c.value_end->0@ == Json::Int(hi)
            && i64::MIN <= hi <= i64::MAX ==> (condition_matches(c, f, now) <==> v <= n && n
            <= hi),
        c.operator is Between && c.value_end is None ==> !condition_matches(c, f, now),
{
}

/// A number that `eq` finds is the only one; where it finds none, no condition on
/// the target holds.
pub proof fn law_a_condition_on_a_number_needs_the_number(c: Condition, f: Facts, now: Timestamp)
    requires
        c.target.spec_kind() is Int,
        condition_matches(c, f, now),
    ensures
        fact(c.target, f, now) matches Fact::Number(Some(_)),
        c.value@.as_i64() is Some,
{
}

/// On a text that is known, `neq` is the complement of `eq` for every text, `in` asks
/// whether `eq` holds of some text of the list, and `contains` whether the text
/// can be cut into three with the value in the middle.
pub proof fn law_text_operators(c: Condition, a: Seq<char>)
    ensures
        c.operator is Eq ==> (text_matches(c, Some(a)) <==> c.value@ == Json::Text(a)),
        c.operator is Neq && c.value@ is Text ==> (text_matches(c, Some(a)) <==> c.value@
            != Json::Text(a)),
        c.operator is In && c.value@ is List ==> (text_matches(c, Some(a))
            <==> c.value@->List_0.contains(Json::Text(a))),
        c.operator is Contains && c.value@ is Text ==> (text_matches(c, Some(a)) <==> exists|
            x: Seq<char>,
            y: Seq<char>,
        |
            #[trigger] (x + c.value@->Text_0 + y) == a),
{
    if c.value@ is Text {
        text::law_a_part_cuts_the_text(a, c.value@->Text_0);
    }
    if c.value@ is List {
        let items = c.value@->List_0;
        if listed(c.value@, a) {
            let i = choose|i: int|
                0 <= i < items.len() && (#[trigger] items[i]).as_text() == Some(a);
            assert(items[i] == Json::Text(a));
        }
        if items.contains(Json::Text(a)) {
            let i = choose|i: int| 0 <= i < items.len() && items[i] == Json::Text(a);
            assert(items[i].as_text() == Some(a));
        }
    }
}

/// On a list of texts, `contains` asks whether some element can be cut into three
/// with the value in the middle.
pub proof fn law_list_contains_looks_inside_elements(c: Condition, actuals: Seq<Seq<char>>)
    requires
        c.operator is Contains,
        c.value@ is Text,
    ensures
        list_matches(c, actuals) <==> exists|x: Seq<char>, y: Seq<char>|
            actuals.contains(#[trigger] (x + c.value@->Text_0 + y)),
{
    let s = c.value@->Text_0;
    assert forall|i: int| 0 <= i < actuals.len() implies (text::has_part(#[trigger] actuals[i], s)
        <==> exists|x: Seq<char>, y: Seq<char>| #[trigger] (x + s + y) == actuals[i]) by {
        text::law_a_part_cuts_the_text(actuals[i], s);
    }
    if list_matches(c, actuals) {
        let i = choose|i: int| 0 <= i < actuals.len() && text::has_part(#[trigger] actuals[i], s);
        let (x, y) = choose|x: Seq<char>, y: Seq<char>| #[trigger] (x + s + y) == actuals[i];
        assert(actuals.contains(x + s + y));
    }
    if exists|x: Seq<char>, y: Seq<char>| actuals.contains(#[trigger] (x + s + y)) {
        let (x, y) = choose|x: Seq<char>, y: Seq<char>| actuals.contains(#[trigger] (x + s + y));
        let i = choose|i: int| 0 <= i < actuals.len() && actuals[i] == x + s + y;
        assert(text::has_part(actuals[i], s));
    }
}

/// A regular expression is looked for in the text, and in each element of a list.
pub proof fn law_regex_is_looked_for_in_each_text(c: Condition, a: Seq<char>, p: Seq<char>)
    requires
        c.operator is Regex,
        c.value@ == Json::Text(p),
    ensures
        text_matches(c, Some(a)) == pattern::found(p, a),
        list_matches(c, seq![a]) == pattern::found(p, a),
{
    assert(seq![a][0] == a);
}

/// A list is decided element by element: one more element can only help `eq`, `in`,
/// `contains` and `regex`, and only hurt `neq` and `not_in`, and it does so exactly
/// when the list of this element alone does.
pub proof fn law_lists_are_decided_element_by_element(
    c: Condition,
    actuals: Seq<Seq<char>>,
    a: Seq<char>,
)
    requires
        c.operator.suits(TargetKind::String),
    ensures
        c.operator is Neq || c.operator is NotIn ==> list_matches(c, actuals.push(a)) == (
        list_matches(c, actuals) && list_matches(c, seq![a])),
        !(c.operator is Neq || c.operator is NotIn) ==> list_matches(c, actuals.push(a)) == (
        list_matches(c, actuals) || list_matches(c, seq![a])),
{
    let more = actuals.push(a);
    let one = seq![a];
    assert(one[0] == a && more[actuals.len() as int] == a);
    assert forall|i: int| 0 <= i < actuals.len() implies more[i] == #[trigger] actuals[i] by {}
    lemma_decides(c, actuals);
    lemma_decides(c, one);
    lemma_decides(c, more);
    if exists|i: int| 0 <= i < actuals.len() && decides(c, #[trigger] actuals[i]) {
        let i = choose|i: int| 0 <= i < actuals.len() && decides(c, #[trigger] actuals[i]);
        assert(decides(c, more[i]));
    }
    if decides(c, a) {
        assert(decides(c, more[actuals.len() as int]));
        assert(decides(c, one[0]));
    }
    if exists|i: int| 0 <= i < more.len() && decides(c, #[trigger] more[i]) {
        let i = choose|i: int| 0 <= i < more.len() && decides(c, #[trigger] more[i]);
        if i < actuals.len() {
            assert(decides(c, actuals[i]));
        }
    }
}

proof fn lemma_decides(c: Condition, all: Seq<Seq<char>>)
    requires
        c.operator.suits(TargetKind::String),
    ensures
        list_matches(c, all) == ((c.operator is Neq || c.operator is NotIn) != exists|i: int|
            0 <= i < all.len() && decides(c, #[trigger] all[i])),
{
    if exists|i: int| 0 <= i < all.len() && decides(c, #[trigger] all[i]) {
        let i = choose|i: int| 0 <= i < all.len() && decides(c, #[trigger] all[i]);
        assert(decides(c, all[i]));
    }
}

/// A group asks for all of its conditions: alone, a condition decides its group, and
/// each further one narrows it.
pub proof fn law_groups_ask_for_all_conditions(
    g: ConditionGroup,
    h: ConditionGroup,
    c: Condition,
    f: Facts,
    now: Timestamp,
)
    requires
        h.conditions@ == g.conditions@.push(c),
    ensures
        group_matches(h, f, now) == (condition_matches(c, f, now) && (g.conditions@.len() == 0
            || group_matches(g, f, now))),
{
    let n = g.conditions@.len() as int;
    assert(h.conditions@[n] == c);
    assert forall|i: int| 0 <= i < n implies h.conditions@[i] == #[trigger] g.conditions@[i] by {}
    if group_matches(h, f, now) {
        assert(condition_matches(h.conditions@[n], f, now));
        assert forall|i: int| 0 <= i < n implies condition_matches(
            #[trigger] g.conditions@[i],
            f,
            now,
        ) by {
            assert(condition_matches(h.conditions@[i], f, now));
        }
    }
}

/// A rule asks for one of its groups: without any it holds of nobody, and each
/// further one widens it.
pub proof fn law_rules_ask_for_one_group(
    tree: RuleTree,
    wider: RuleTree,
    g: ConditionGroup,
    f: Facts,
    now: Timestamp,
)
    requires
        !tree.grant_on_any_player,
        !wider.grant_on_any_player,
        wider.groups@ == tree.groups@.push(g),
    ensures
        tree.groups@.len() == 0 ==> !tree_matches(tree, f, now),
        tree_matches(wider, f, now) == (tree_matches(tree, f, now) || group_matches(g, f, now)),
{
    let n = tree.groups@.len() as int;
    assert(wider.groups@[n] == g);
    assert forall|i: int| 0 <= i < n implies wider.groups@[i] == #[trigger] tree.groups@[i] by {}
    if tree_matches(tree, f, now) {
        let i = choose|i: int|
            0 <= i < tree.groups@.len() && group_matches(#[trigger] tree.groups@[i], f, now);
        assert(group_matches(wider.groups@[i], f, now));
    }
}

/// The kind of a target is the kind of the fact that it reads; lists are read off list
/// targets alone.
pub proof fn law_kinds_are_those_of_the_facts(target: ConditionTarget, f: Facts, now: Timestamp)
    ensures
        target.spec_kind() is Bool <==> fact(target, f, now) is Flag,
        target.spec_kind() is Int <==> fact(target, f, now) is Number,
        target.spec_kind() is String <==> fact(target, f, now) is Text || fact(target, f, now)
            is Texts,
        target.is_list() <==> fact(target, f, now) is Texts,
{
}

} // verus!
