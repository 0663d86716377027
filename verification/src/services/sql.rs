//! The part of SQL that the clauses of a rule are written in: how an expression and
//! a condition are written, and what they yield for one row.
//!
//! The texts of [`crate::services::rule_sql`] are shown here to be the writing of
//! conditions that hold of exactly the rows that the evaluator accepts.

use crate::models::condition::{Condition, ConditionTarget};
use crate::models::facts::{Facts, Timestamp};
use crate::models::rule::{ConditionGroup, RuleTree};
use crate::services::condition_eval;
use crate::services::rule_meaning;
use crate::services::rule_meaning::Cell;
use crate::services::rule_sql;
use crate::services::rule_sql::{Clause, Param, Sign};
use crate::text;
use vstd::prelude::*;

verus! {

/// An expression.
pub enum Term {
    /// A column, by the name of its table and its own.
    Column(Seq<char>),
    /// The value, or false in place of NULL.
    OrFalse(Box<Term>),
    /// The value, or zero in place of NULL.
    OrZero(Box<Term>),
    /// Whether a number is above zero.
    Positive(Box<Term>),
    /// The number of elements of an array; NULL of an empty one.
    Length(Box<Term>),
    Sum(Box<Term>, Box<Term>),
    /// How many whole periods of so many seconds have passed since an instant, cut
    /// off towards zero.
    PeriodsSince(Box<Term>, nat),
}

pub open spec fn column(name: Seq<char>) -> Term {
    Term::Column(name)
}

pub open spec fn or_false(t: Term) -> Term {
    Term::OrFalse(Box::new(t))
}

pub open spec fn or_zero(t: Term) -> Term {
    Term::OrZero(Box::new(t))
}

pub open spec fn positive(t: Term) -> Term {
    Term::Positive(Box::new(t))
}

pub open spec fn length(t: Term) -> Term {
    Term::Length(Box::new(t))
}

pub open spec fn sum(a: Term, b: Term) -> Term {
    Term::Sum(Box::new(a), Box::new(b))
}

pub open spec fn periods_since(t: Term, secs: nat) -> Term {
    Term::PeriodsSince(Box::new(t), secs)
}

/// How an expression is written.
pub open spec fn written(t: Term) -> Seq<char>
    decreases t,
{
    match t {
        Term::Column(name) => name,
        Term::OrFalse(x) => "COALESCE("@ + written(*x) + ", false)"@,
        Term::OrZero(x) => "COALESCE("@ + written(*x) + ", 0)"@,
        Term::Positive(x) => "("@ + written(*x) + " > 0)"@,
        Term::Length(x) => "array_length("@ + written(*x) + ", 1)"@,
        Term::Sum(x, y) => written(*x) + " + "@ + written(*y),
        Term::PeriodsSince(x, secs) => "TRUNC(EXTRACT(EPOCH FROM (now() - "@ + written(*x)
            + ")) / "@ + text::dec(secs) + ")"@,
    }
}

/// The quotient of two numbers, cut off towards zero.
pub open spec fn toward_zero(n: int, d: int) -> int {
    if n < 0 {
        -((-n) / d)
    } else {
        n / d
    }
}

/// What the columns of a row hold, by their names.
pub type Columns = spec_fn(Seq<char>) -> Cell;

/// What an expression yields for a row, at the instant that `now()` reads.
pub open spec fn yields(t: Term, columns: Columns, now: Timestamp) -> Cell
    decreases t,
{
    match t {
        Term::Column(name) => columns(name),
        Term::OrFalse(x) => match yields(*x, columns, now) {
            Cell::Null => Cell::Bool(false),
            value => value,
        },
        Term::OrZero(x) => match yields(*x, columns, now) {
            Cell::Null => Cell::Int(0),
            value => value,
        },
        Term::Positive(x) => match yields(*x, columns, now) {
            Cell::Int(n) => Cell::Bool(n > 0),
            _ => Cell::Null,
        },
        Term::Length(x) => match yields(*x, columns, now) {
            Cell::Array(list) => if list.len() == 0 {
                Cell::Null
            } else {
                Cell::Int(list.len() as int)
            },
            _ => Cell::Null,
        },
        Term::Sum(x, y) => match (yields(*x, columns, now), yields(*y, columns, now)) {
            (Cell::Int(a), Cell::Int(b)) => Cell::Int(a + b),
            _ => Cell::Null,
        },
        Term::PeriodsSince(x, secs) => match yields(*x, columns, now) {
            Cell::Instant(then) => Cell::Int(
                toward_zero(now.instant() - then.instant(), secs as int * 1_000_000_000),
            ),
            _ => Cell::Null,
        },
    }
}

/// An operator between an expression and a parameter.
pub enum Op {
    Equal,
    Unequal,
    /// As unequal, but NULL is a value like any other.
    Distinct,
    Greater,
    AtLeast,
    Less,
    AtMost,
    Like,
    Matches,
    Covers,
    Overlaps,
}

/// How an operator is written.
pub open spec fn sign(op: Op) -> Seq<char> {
    match op {
        Op::Equal => " = "@,
        Op::Unequal => " <> "@,
        Op::Distinct => " IS DISTINCT FROM "@,
        Op::Greater => " > "@,
        Op::AtLeast => " >= "@,
        Op::Less => " < "@,
        Op::AtMost => " <= "@,
        Op::Like => " LIKE "@,
        Op::Matches => " ~ "@,
        Op::Covers => " @> "@,
        Op::Overlaps => " && "@,
    }
}

/// A parameter, by its number, as an operator takes it.
pub enum Place {
    /// As it is.
    Plain(nat),
    /// Any element of an array of texts.
    AnyOf(nat),
    /// Every element of an array of texts.
    AllOf(nat),
    /// An array of texts.
    Texts(nat),
    /// The array that holds a text alone.
    Only(nat),
}

/// How a parameter is written.
pub open spec fn placed(p: Place) -> Seq<char> {
    match p {
        Place::Plain(i) => "$"@ + text::dec(i),
        Place::AnyOf(i) => "ANY($"@ + text::dec(i) + "::text[])"@,
        Place::AllOf(i) => "ALL($"@ + text::dec(i) + "::text[])"@,
        Place::Texts(i) => "$"@ + text::dec(i) + "::text[]"@,
        Place::Only(i) => "ARRAY[$"@ + text::dec(i) + "::text]"@,
    }
}

/// A condition on a row.
pub enum Formula {
    Constant(bool),
    /// An operator between an expression and a parameter.
    Test(Term, Op, Place),
    /// The same, with the expression in brackets.
    BracketTest(Term, Op, Place),
    NotNull(Term),
    /// Some element of an array passes.
    SomeElement(Term, Op, Place),
    Brackets(Box<Formula>),
    Not(Box<Formula>),
    And(Box<Formula>, Box<Formula>),
    Or(Box<Formula>, Box<Formula>),
}

pub open spec fn brackets(f: Formula) -> Formula {
    Formula::Brackets(Box::new(f))
}

pub open spec fn not(f: Formula) -> Formula {
    Formula::Not(Box::new(f))
}

pub open spec fn and(f: Formula, g: Formula) -> Formula {
    Formula::And(Box::new(f), Box::new(g))
}

pub open spec fn or(f: Formula, g: Formula) -> Formula {
    Formula::Or(Box::new(f), Box::new(g))
}

/// How a condition is written.
pub open spec fn spelled(f: Formula) -> Seq<char>
    decreases f,
{
    match f {
        Formula::Constant(b) => if b {
            "TRUE"@
        } else {
            "FALSE"@
        },
        Formula::Test(t, op, p) => written(t) + sign(op) + placed(p),
        Formula::BracketTest(t, op, p) => "("@ + written(t) + ")"@ + sign(op) + placed(p),
        Formula::NotNull(t) => written(t) + " IS NOT NULL"@,
        Formula::SomeElement(t, op, p) => "EXISTS (SELECT 1 FROM unnest("@ + written(t)
            + ") AS x WHERE x"@ + sign(op) + placed(p) + ")"@,
        Formula::Brackets(g) => "("@ + spelled(*g) + ")"@,
        Formula::Not(g) => "NOT "@ + spelled(*g),
        Formula::And(g, h) => spelled(*g) + " AND "@ + spelled(*h),
        Formula::Or(g, h) => spelled(*g) + " OR "@ + spelled(*h),
    }
}

/// How tightly a condition binds: `NOT` before `AND` before `OR`, and the rest
/// before all of them.
pub open spec fn binding(f: Formula) -> nat {
    match f {
        Formula::Or(_, _) => 0,
        Formula::And(_, _) => 1,
        Formula::Not(_) => 2,
        _ => 3,
    }
}

/// True when every part of a condition is read as the part that it is written for.
pub open spec fn unambiguous(f: Formula) -> bool
    decreases f,
{
    match f {
        Formula::Brackets(g) => unambiguous(*g),
        Formula::Not(g) => binding(*g) > 2 && unambiguous(*g),
        Formula::And(g, h) => binding(*g) >= 1 && binding(*h) > 1 && unambiguous(*g)
            && unambiguous(*h),
        Formula::Or(g, h) => binding(*h) > 0 && unambiguous(*g) && unambiguous(*h),
        _ => true,
    }
}

/// Whether a value passes an operator with a parameter; unknown where it is NULL or
/// of another type.
pub open spec fn passes(
    a: Cell,
    op: Op,
    p: Param,
    regex: spec_fn(Seq<char>, Seq<char>) -> bool,
) -> Option<bool> {
    match (a, p) {
        (Cell::Bool(x), Param::Bool(y)) => match op {
            Op::Equal => Some(x == y),
            Op::Unequal | Op::Distinct => Some(x != y),
            _ => None,
        },
        (Cell::Int(x), Param::Int(y)) => match op {
            Op::Equal => Some(x == y),
            Op::Unequal | Op::Distinct => Some(x != y),
            Op::Greater => Some(x > y),
            Op::AtLeast => Some(x >= y),
            Op::Less => Some(x < y),
            Op::AtMost => Some(x <= y),
            _ => None,
        },
        (Cell::Text(x), Param::Text(y)) => match op {
            Op::Equal => Some(x == y),
            Op::Unequal | Op::Distinct => Some(x != y),
            Op::Like => Some(rule_meaning::like(y, x)),
            Op::Matches => Some(regex(y, x)),
            _ => None,
        },
        (Cell::Null, _) => if op is Distinct {
            Some(true)
        } else {
            None
        },
        _ => None,
    }
}

/// The number of a parameter.
pub open spec fn number_of(p: Place) -> nat {
    match p {
        Place::Plain(i) => i,
        Place::AnyOf(i) => i,
        Place::AllOf(i) => i,
        Place::Texts(i) => i,
        Place::Only(i) => i,
    }
}

/// Whether a value passes an operator with a parameter as it is taken.
pub open spec fn tested(
    a: Cell,
    op: Op,
    place: Place,
    params: Seq<Param>,
    regex: spec_fn(Seq<char>, Seq<char>) -> bool,
) -> Option<bool> {
    let p = params[number_of(place) - 1];
    match (place, a, p) {
        (Place::Plain(_), _, _) => passes(a, op, p, regex),
        (Place::AnyOf(_), Cell::Text(s), Param::TextArray(list)) => if op is Equal {
            Some(list.contains(s))
        } else {
            None
        },
        (Place::AllOf(_), Cell::Text(s), Param::TextArray(list)) => if op is Unequal {
            Some(!list.contains(s))
        } else {
            None
        },
        (Place::Texts(_), Cell::Array(all), Param::TextArray(list)) => if op is Overlaps {
            Some(exists|i: int| 0 <= i < all.len() && list.contains(#[trigger] all[i]))
        } else {
            None
        },
        (Place::Only(_), Cell::Array(all), Param::Text(s)) => if op is Covers {
            Some(all.contains(s))
        } else {
            None
        },
        _ => None,
    }
}

/// The truth of a condition for a row. `params` are the parameters from `$1` on.
pub open spec fn decided(
    f: Formula,
    columns: Columns,
    params: Seq<Param>,
    now: Timestamp,
    regex: spec_fn(Seq<char>, Seq<char>) -> bool,
) -> Option<bool>
    decreases f,
{
    match f {
        Formula::Constant(b) => Some(b),
        Formula::Test(t, op, p) => tested(yields(t, columns, now), op, p, params, regex),
        Formula::BracketTest(t, op, p) => tested(yields(t, columns, now), op, p, params, regex),
        Formula::NotNull(t) => Some(!(yields(t, columns, now) is Null)),
        Formula::SomeElement(t, op, p) => match (
            yields(t, columns, now),
            params[number_of(p) - 1],
        ) {
            (Cell::Array(all), Param::Text(_)) => if op is Like || op is Matches {
                Some(
                    exists|i: int|
                        0 <= i < all.len() && tested(
                            Cell::Text(#[trigger] all[i]),
                            op,
                            p,
                            params,
                            regex,
                        ) == Some(true),
                )
            } else {
                None
            },
            _ => None,
        },
        Formula::Brackets(g) => decided(*g, columns, params, now, regex),
        Formula::Not(g) => match decided(*g, columns, params, now, regex) {
            Some(b) => Some(!b),
            None => None,
        },
        Formula::And(g, h) => match (
            decided(*g, columns, params, now, regex),
            decided(*h, columns, params, now, regex),
        ) {
            (Some(false), _) => Some(false),
            (_, Some(false)) => Some(false),
            (Some(true), Some(true)) => Some(true),
            _ => None,
        },
        Formula::Or(g, h) => match (
            decided(*g, columns, params, now, regex),
            decided(*h, columns, params, now, regex),
        ) {
            (Some(true), _) => Some(true),
            (_, Some(true)) => Some(true),
            (Some(false), Some(false)) => Some(false),
            _ => None,
        },
    }
}

/// True when a column holds a flag; NULL stands for false.
pub open spec fn holds_flag(c: Cell, b: bool) -> bool {
    c == Cell::Bool(b) || (c is Null && !b)
}

/// True when a column holds a number; NULL stands for zero.
pub open spec fn holds_number(c: Cell, n: i64) -> bool {
    c == Cell::Int(n as int) || (c is Null && n == 0)
}

/// True when two columns hold the parts of a number. NULL stands for zero, and
/// where one of the parts is NULL, so is the whole.
pub open spec fn holds_parts(a: Cell, b: Cell, n: i64) -> bool {
    match (a, b) {
        (Cell::Int(x), Cell::Int(y)) => x + y == n,
        _ => n == 0,
    }
}

/// A rank as a column holds it.
pub open spec fn rank_cell(n: Option<i64>) -> Cell {
    match n {
        Some(n) => Cell::Int(n as int),
        None => Cell::Null,
    }
}

/// An instant as a column holds it.
pub open spec fn instant_cell(t: Option<Timestamp>) -> Cell {
    match t {
        Some(t) => Cell::Instant(t),
        None => Cell::Null,
    }
}

/// A text as a column holds it.
pub open spec fn text_cell(s: Option<String>) -> Cell {
    match s {
        Some(s) => Cell::Text(s@),
        None => Cell::Null,
    }
}

/// True when a row is that of a player with the given facts: `ou` their row of
/// osu_users, `os` that of osu_stats in the mode, all NULL where there is none.
#[verifier::opaque]
pub open spec fn row_of(columns: Columns, f: Facts) -> bool {
    &&& holds_flag(columns("ou.is_supporter"@), f.is_supporter)
    &&& holds_flag(columns("ou.is_active"@), f.is_active)
    &&& holds_flag(columns("ou.is_restricted"@), f.is_restricted)
    &&& f.has_badge == (f.badge_count > 0)
    &&& f.has_group_badge == (f.groups@.len() > 0)
    &&& columns("ou.osu_joined_at"@) == instant_cell(f.osu_joined_at)
    &&& columns("ou.last_visit_at"@) == instant_cell(f.last_visit_at)
    &&& holds_number(columns("ou.badge_count"@), f.badge_count)
    &&& holds_number(columns("ou.follower_count"@), f.follower_count)
    &&& holds_number(columns("ou.mapping_followers"@), f.mapping_subscribers)
    &&& holds_number(columns("ou.kudosu_total"@), f.kudosu)
    &&& holds_number(columns("ou.ranked_beatmaps"@), f.ranked_beatmaps)
    &&& holds_number(columns("ou.loved_beatmaps"@), f.loved_beatmaps)
    &&& holds_number(columns("ou.mapping_playcount"@), f.mapping_playcount)
    &&& holds_number(columns("ou.replays_watched_others"@), f.replays_watched_by_others)
    &&& holds_number(columns("ou.favourite_beatmapsets"@), f.favourite_count)
    &&& columns("ou.country_code"@) == text_cell(f.country_code)
    &&& columns("ou.osu_username"@) == Cell::Text(f.username@)
    &&& columns("ou.groups"@) == Cell::Array(text::views(f.groups@))
    &&& columns("ou.playstyles"@) == Cell::Array(text::views(f.playstyles@))
    &&& columns("os.global_rank"@) == rank_cell(f.global_rank)
    &&& columns("os.country_rank"@) == rank_cell(f.country_rank)
    &&& holds_number(columns("os.performance_points"@), f.performance_points)
    &&& holds_number(columns("os.play_count"@), f.play_count)
    &&& holds_number(columns("os.play_time_hours"@), f.play_time_hours)
    &&& holds_number(columns("os.total_score"@), f.total_score)
    &&& holds_number(columns("os.ranked_score"@), f.ranked_score)
    &&& holds_number(columns("os.hit_accuracy"@), f.hit_accuracy)
    &&& holds_number(columns("os.max_combo"@), f.max_combo)
    &&& holds_number(columns("os.level_int"@), f.level_int)
    &&& holds_parts(columns("os.count_ss"@), columns("os.count_ss_silver"@), f.ss_count)
    &&& holds_parts(columns("os.count_s"@), columns("os.count_s_silver"@), f.s_count)
    &&& holds_number(columns("os.count_a"@), f.a_count)
}

/// The expression of a target.
#[verifier::opaque]
pub open spec fn term_of(target: ConditionTarget) -> Term {
    match target {
        ConditionTarget::IsSupporter => or_false(column("ou.is_supporter"@)),
        ConditionTarget::IsActive => or_false(column("ou.is_active"@)),
        ConditionTarget::IsRestricted => or_false(column("ou.is_restricted"@)),
        ConditionTarget::HasBadge => positive(or_zero(column("ou.badge_count"@))),
        ConditionTarget::HasGroupBadge => positive(or_zero(length(column("ou.groups"@)))),
        ConditionTarget::AccountAgeDays => periods_since(
            column("ou.osu_joined_at"@),
            24 * 60 * 60,
        ),
        ConditionTarget::DaysSinceLastVisit => periods_since(
            column("ou.last_visit_at"@),
            24 * 60 * 60,
        ),
        ConditionTarget::BadgeCount => or_zero(column("ou.badge_count"@)),
        ConditionTarget::FollowerCount => or_zero(column("ou.follower_count"@)),
        ConditionTarget::MappingSubscribers => or_zero(column("ou.mapping_followers"@)),
        ConditionTarget::Kudosu => or_zero(column("ou.kudosu_total"@)),
        ConditionTarget::RankedBeatmaps => or_zero(column("ou.ranked_beatmaps"@)),
        ConditionTarget::LovedBeatmaps => or_zero(column("ou.loved_beatmaps"@)),
        ConditionTarget::MappingPlaycount => or_zero(column("ou.mapping_playcount"@)),
        ConditionTarget::ReplaysWatchedByOthers => or_zero(column("ou.replays_watched_others"@)),
        ConditionTarget::FavouriteCount => or_zero(column("ou.favourite_beatmapsets"@)),
        ConditionTarget::CountryCode => column("ou.country_code"@),
        ConditionTarget::Username => column("ou.osu_username"@),
        ConditionTarget::GroupName => column("ou.groups"@),
        ConditionTarget::Playstyle => column("ou.playstyles"@),
        ConditionTarget::GlobalRank => column("os.global_rank"@),
        ConditionTarget::CountryRank => column("os.country_rank"@),
        ConditionTarget::PerformancePoints => or_zero(column("os.performance_points"@)),
        ConditionTarget::PlayCount => or_zero(column("os.play_count"@)),
        ConditionTarget::PlayTimeHours => or_zero(column("os.play_time_hours"@)),
        ConditionTarget::TotalScore => or_zero(column("os.total_score"@)),
        ConditionTarget::RankedScore => or_zero(column("os.ranked_score"@)),
        ConditionTarget::HitAccuracy => or_zero(column("os.hit_accuracy"@)),
        ConditionTarget::MaxCombo => or_zero(column("os.max_combo"@)),
        ConditionTarget::LevelInt => or_zero(column("os.level_int"@)),
        ConditionTarget::SsCount => or_zero(sum(column("os.count_ss"@), column("os.count_ss_silver"@))),
        ConditionTarget::SCount => or_zero(sum(column("os.count_s"@), column("os.count_s_silver"@))),
        ConditionTarget::ACount => or_zero(column("os.count_a"@)),
    }
}

proof fn lemma_day_in_decimal()
    ensures
        text::dec(24 * 60 * 60) =~= seq!['8', '6', '4', '0', '0'],
{
    reveal_with_fuel(text::dec, 6);
}

/// The text of a target's expression is the writing of an expression that yields
/// the fact which the evaluator reads, for the row of every player: ages are whole
/// days, and NULL is defaulted where the evaluator has a default.
#[verifier::rlimit(60)]
#[verifier::spinoff_prover]
pub proof fn law_expressions_are_written_as_meant(target: ConditionTarget)
    ensures
        rule_sql::expr(target) == written(term_of(target)),
        forall|columns: Columns, f: Facts, now: Timestamp| #[trigger]
            row_of(columns, f) ==> #[trigger] yields(term_of(target), columns, now)
                == rule_meaning::cell(condition_eval::fact(target, f, now)),
{
    lemma_writing(target);
    assert forall|columns: Columns, f: Facts, now: Timestamp| #[trigger]
        row_of(columns, f) implies #[trigger] yields(term_of(target), columns, now)
        == rule_meaning::cell(condition_eval::fact(target, f, now)) by {
        lemma_yielding(target, columns, f, now);
    }
}

#[verifier::spinoff_prover]
proof fn lemma_yielding(target: ConditionTarget, columns: Columns, f: Facts, now: Timestamp)
    requires
        row_of(columns, f),
    ensures
        yields(term_of(target), columns, now) == rule_meaning::cell(
            condition_eval::fact(target, f, now),
        ),
{
    reveal(term_of);
    reveal(row_of);
    assert(text::views(f.groups@).len() == f.groups@.len());
    match target {
        ConditionTarget::IsSupporter => {
            assert(yields(column("ou.is_supporter"@), columns, now) == columns("ou.is_supporter"@));
        },
        ConditionTarget::IsActive => {
            assert(yields(column("ou.is_active"@), columns, now) == columns("ou.is_active"@));
        },
        ConditionTarget::IsRestricted => {
            assert(yields(column("ou.is_restricted"@), columns, now) == columns("ou.is_restricted"@));
        },
        ConditionTarget::HasBadge => {
            assert(yields(column("ou.badge_count"@), columns, now) == columns("ou.badge_count"@));
            let count = or_zero(column("ou.badge_count"@));
            assert(yields(count, columns, now) is Int);
        },
        ConditionTarget::HasGroupBadge => {
            assert(yields(column("ou.groups"@), columns, now) == columns("ou.groups"@));
            let size = length(column("ou.groups"@));
            assert(yields(or_zero(size), columns, now) == match yields(size, columns, now) {
                Cell::Null => Cell::Int(0),
                value => value,
            });
        },
        ConditionTarget::AccountAgeDays => {
            assert(yields(column("ou.osu_joined_at"@), columns, now) == columns("ou.osu_joined_at"@));
        },
        ConditionTarget::DaysSinceLastVisit => {
            assert(yields(column("ou.last_visit_at"@), columns, now) == columns("ou.last_visit_at"@));
        },
        ConditionTarget::BadgeCount => {
            assert(yields(column("ou.badge_count"@), columns, now) == columns("ou.badge_count"@));
        },
        ConditionTarget::FollowerCount => {
            assert(yields(column("ou.follower_count"@), columns, now) == columns("ou.follower_count"@));
        },
        ConditionTarget::MappingSubscribers => {
            assert(yields(column("ou.mapping_followers"@), columns, now) == columns("ou.mapping_followers"@));
        },
        ConditionTarget::Kudosu => {
            assert(yields(column("ou.kudosu_total"@), columns, now) == columns("ou.kudosu_total"@));
        },
        ConditionTarget::RankedBeatmaps => {
            assert(yields(column("ou.ranked_beatmaps"@), columns, now) == columns("ou.ranked_beatmaps"@));
        },
        ConditionTarget::LovedBeatmaps => {
            assert(yields(column("ou.loved_beatmaps"@), columns, now) == columns("ou.loved_beatmaps"@));
        },
        ConditionTarget::MappingPlaycount => {
            assert(yields(column("ou.mapping_playcount"@), columns, now) == columns("ou.mapping_playcount"@));
        },
        ConditionTarget::ReplaysWatchedByOthers => {
            assert(yields(column("ou.replays_watched_others"@), columns, now) == columns("ou.replays_watched_others"@));
        },
        ConditionTarget::FavouriteCount => {
            assert(yields(column("ou.favourite_beatmapsets"@), columns, now) == columns("ou.favourite_beatmapsets"@));
        },
        ConditionTarget::CountryCode => {
            assert(yields(column("ou.country_code"@), columns, now) == columns("ou.country_code"@));
        },
        ConditionTarget::Username => {
            assert(yields(column("ou.osu_username"@), columns, now) == columns("ou.osu_username"@));
        },
        ConditionTarget::GroupName => {
            assert(yields(column("ou.groups"@), columns, now) == columns("ou.groups"@));
        },
        ConditionTarget::Playstyle => {
            assert(yields(column("ou.playstyles"@), columns, now) == columns("ou.playstyles"@));
        },
        ConditionTarget::GlobalRank => {
            assert(yields(column("os.global_rank"@), columns, now) == columns("os.global_rank"@));
        },
        ConditionTarget::CountryRank => {
            assert(yields(column("os.country_rank"@), columns, now) == columns("os.country_rank"@));
        },
        ConditionTarget::PerformancePoints => {
            assert(yields(column("os.performance_points"@), columns, now) == columns("os.performance_points"@));
        },
        ConditionTarget::PlayCount => {
            assert(yields(column("os.play_count"@), columns, now) == columns("os.play_count"@));
        },
        ConditionTarget::PlayTimeHours => {
            assert(yields(column("os.play_time_hours"@), columns, now) == columns("os.play_time_hours"@));
        },
        ConditionTarget::TotalScore => {
            assert(yields(column("os.total_score"@), columns, now) == columns("os.total_score"@));
        },
        ConditionTarget::RankedScore => {
            assert(yields(column("os.ranked_score"@), columns, now) == columns("os.ranked_score"@));
        },
        ConditionTarget::HitAccuracy => {
            assert(yields(column("os.hit_accuracy"@), columns, now) == columns("os.hit_accuracy"@));
        },
        ConditionTarget::MaxCombo => {
            assert(yields(column("os.max_combo"@), columns, now) == columns("os.max_combo"@));
        },
        ConditionTarget::LevelInt => {
            assert(yields(column("os.level_int"@), columns, now) == columns("os.level_int"@));
        },
        ConditionTarget::SsCount => {
            assert(yields(column("os.count_ss"@), columns, now) == columns("os.count_ss"@));
            assert(yields(column("os.count_ss_silver"@), columns, now) == columns("os.count_ss_silver"@));
            let whole = sum(column("os.count_ss"@), column("os.count_ss_silver"@));
            assert(yields(or_zero(whole), columns, now) == match yields(whole, columns, now) {
                Cell::Null => Cell::Int(0),
                value => value,
            });
        },
        ConditionTarget::SCount => {
            assert(yields(column("os.count_s"@), columns, now) == columns("os.count_s"@));
            assert(yields(column("os.count_s_silver"@), columns, now) == columns("os.count_s_silver"@));
            let whole = sum(column("os.count_s"@), column("os.count_s_silver"@));
            assert(yields(or_zero(whole), columns, now) == match yields(whole, columns, now) {
                Cell::Null => Cell::Int(0),
                value => value,
            });
        },
        ConditionTarget::ACount => {
            assert(yields(column("os.count_a"@), columns, now) == columns("os.count_a"@));
        },
    }
}

#[verifier::rlimit(100)]
#[verifier::spinoff_prover]
proof fn lemma_writing(target: ConditionTarget)
    ensures
        rule_sql::expr(target) == written(term_of(target)),
{
    reveal(term_of);
    reveal_with_fuel(written, 5);
    match target {
        ConditionTarget::IsSupporter => {
            reveal_strlit("COALESCE(ou.is_supporter, false)");
            reveal_strlit("ou.is_supporter");
            reveal_strlit("COALESCE(");
            reveal_strlit(", false)");
            assert(rule_sql::expr(target) =~= written(term_of(target)));
        },
        ConditionTarget::IsActive => {
            reveal_strlit("COALESCE(ou.is_active, false)");
            reveal_strlit("ou.is_active");
            reveal_strlit("COALESCE(");
            reveal_strlit(", false)");
            assert(rule_sql::expr(target) =~= written(term_of(target)));
        },
        ConditionTarget::IsRestricted => {
            reveal_strlit("COALESCE(ou.is_restricted, false)");
            reveal_strlit("ou.is_restricted");
            reveal_strlit("COALESCE(");
            reveal_strlit(", false)");
            assert(rule_sql::expr(target) =~= written(term_of(target)));
        },
        ConditionTarget::HasBadge => {
            reveal_strlit("(COALESCE(ou.badge_count, 0) > 0)");
            reveal_strlit("ou.badge_count");
            reveal_strlit("(");
            reveal_strlit("COALESCE(");
            reveal_strlit(", 0)");
            reveal_strlit(" > 0)");
            assert(rule_sql::expr(target) =~= written(term_of(target)));
        },
        ConditionTarget::HasGroupBadge => {
            reveal_strlit("(COALESCE(array_length(ou.groups, 1), 0) > 0)");
            reveal_strlit("ou.groups");
            reveal_strlit("(");
            reveal_strlit("COALESCE(");
            reveal_strlit(", 0)");
            reveal_strlit(" > 0)");
            reveal_strlit("array_length(");
            reveal_strlit(", 1)");
            assert(rule_sql::expr(target) =~= written(term_of(target)));
        },
        ConditionTarget::AccountAgeDays => {
            reveal_strlit("TRUNC(EXTRACT(EPOCH FROM (now() - ou.osu_joined_at)) / 86400)");
            reveal_strlit("ou.osu_joined_at");
            reveal_strlit("TRUNC(EXTRACT(EPOCH FROM (now() - ");
            reveal_strlit(")) / ");
            reveal_strlit(")");
            lemma_day_in_decimal();
            assert(rule_sql::expr(target) =~= written(term_of(target)));
        },
        ConditionTarget::DaysSinceLastVisit => {
            reveal_strlit("TRUNC(EXTRACT(EPOCH FROM (now() - ou.last_visit_at)) / 86400)");
            reveal_strlit("ou.last_visit_at");
            reveal_strlit("TRUNC(EXTRACT(EPOCH FROM (now() - ");
            reveal_strlit(")) / ");
            reveal_strlit(")");
            lemma_day_in_decimal();
            assert(rule_sql::expr(target) =~= written(term_of(target)));
        },
        ConditionTarget::BadgeCount => {
            reveal_strlit("COALESCE(ou.badge_count, 0)");
            reveal_strlit("ou.badge_count");
            reveal_strlit("COALESCE(");
            reveal_strlit(", 0)");
            assert(rule_sql::expr(target) =~= written(term_of(target)));
        },
        ConditionTarget::FollowerCount => {
            reveal_strlit("COALESCE(ou.follower_count, 0)");
            reveal_strlit("ou.follower_count");
            reveal_strlit("COALESCE(");
            reveal_strlit(", 0)");
            assert(rule_sql::expr(target) =~= written(term_of(target)));
        },
        ConditionTarget::MappingSubscribers => {
            reveal_strlit("COALESCE(ou.mapping_followers, 0)");
            reveal_strlit("ou.mapping_followers");
            reveal_strlit("COALESCE(");
            reveal_strlit(", 0)");
            assert(rule_sql::expr(target) =~= written(term_of(target)));
        },
        ConditionTarget::Kudosu => {
            reveal_strlit("COALESCE(ou.kudosu_total, 0)");
            reveal_strlit("ou.kudosu_total");
            reveal_strlit("COALESCE(");
            reveal_strlit(", 0)");
            assert(rule_sql::expr(target) =~= written(term_of(target)));
        },
        ConditionTarget::RankedBeatmaps => {
            reveal_strlit("COALESCE(ou.ranked_beatmaps, 0)");
            reveal_strlit("ou.ranked_beatmaps");
            reveal_strlit("COALESCE(");
            reveal_strlit(", 0)");
            assert(rule_sql::expr(target) =~= written(term_of(target)));
        },
        ConditionTarget::LovedBeatmaps => {
            reveal_strlit("COALESCE(ou.loved_beatmaps, 0)");
            reveal_strlit("ou.loved_beatmaps");
            reveal_strlit("COALESCE(");
            reveal_strlit(", 0)");
            assert(rule_sql::expr(target) =~= written(term_of(target)));
        },
        ConditionTarget::MappingPlaycount => {
            reveal_strlit("COALESCE(ou.mapping_playcount, 0)");
            reveal_strlit("ou.mapping_playcount");
            reveal_strlit("COALESCE(");
            reveal_strlit(", 0)");
            assert(rule_sql::expr(target) =~= written(term_of(target)));
        },
        ConditionTarget::ReplaysWatchedByOthers => {
            reveal_strlit("COALESCE(ou.replays_watched_others, 0)");
            reveal_strlit("ou.replays_watched_others");
            reveal_strlit("COALESCE(");
            reveal_strlit(", 0)");
            assert(rule_sql::expr(target) =~= written(term_of(target)));
        },
        ConditionTarget::FavouriteCount => {
            reveal_strlit("COALESCE(ou.favourite_beatmapsets, 0)");
            reveal_strlit("ou.favourite_beatmapsets");
            reveal_strlit("COALESCE(");
            reveal_strlit(", 0)");
            assert(rule_sql::expr(target) =~= written(term_of(target)));
        },
        ConditionTarget::CountryCode => {},
        ConditionTarget::Username => {},
        ConditionTarget::GroupName => {},
        ConditionTarget::Playstyle => {},
        ConditionTarget::GlobalRank => {},
        ConditionTarget::CountryRank => {},
        ConditionTarget::PerformancePoints => {
            reveal_strlit("COALESCE(os.performance_points, 0)");
            reveal_strlit("os.performance_points");
            reveal_strlit("COALESCE(");
            reveal_strlit(", 0)");
            assert(rule_sql::expr(target) =~= written(term_of(target)));
        },
        ConditionTarget::PlayCount => {
            reveal_strlit("COALESCE(os.play_count, 0)");
            reveal_strlit("os.play_count");
            reveal_strlit("COALESCE(");
            reveal_strlit(", 0)");
            assert(rule_sql::expr(target) =~= written(term_of(target)));
        },
        ConditionTarget::PlayTimeHours => {
            reveal_strlit("COALESCE(os.play_time_hours, 0)");
            reveal_strlit("os.play_time_hours");
            reveal_strlit("COALESCE(");
            reveal_strlit(", 0)");
            assert(rule_sql::expr(target) =~= written(term_of(target)));
        },
        ConditionTarget::TotalScore => {
            reveal_strlit("COALESCE(os.total_score, 0)");
            reveal_strlit("os.total_score");
            reveal_strlit("COALESCE(");
            reveal_strlit(", 0)");
            assert(rule_sql::expr(target) =~= written(term_of(target)));
        },
        ConditionTarget::RankedScore => {
            reveal_strlit("COALESCE(os.ranked_score, 0)");
            reveal_strlit("os.ranked_score");
            reveal_strlit("COALESCE(");
            reveal_strlit(", 0)");
            assert(rule_sql::expr(target) =~= written(term_of(target)));
        },
        ConditionTarget::HitAccuracy => {
            reveal_strlit("COALESCE(os.hit_accuracy, 0)");
            reveal_strlit("os.hit_accuracy");
            reveal_strlit("COALESCE(");
            reveal_strlit(", 0)");
            assert(rule_sql::expr(target) =~= written(term_of(target)));
        },
        ConditionTarget::MaxCombo => {
            reveal_strlit("COALESCE(os.max_combo, 0)");
            reveal_strlit("os.max_combo");
            reveal_strlit("COALESCE(");
            reveal_strlit(", 0)");
            assert(rule_sql::expr(target) =~= written(term_of(target)));
        },
        ConditionTarget::LevelInt => {
            reveal_strlit("COALESCE(os.level_int, 0)");
            reveal_strlit("os.level_int");
            reveal_strlit("COALESCE(");
            reveal_strlit(", 0)");
            assert(rule_sql::expr(target) =~= written(term_of(target)));
        },
        ConditionTarget::SsCount => {
            reveal_strlit("COALESCE(os.count_ss + os.count_ss_silver, 0)");
            reveal_strlit("os.count_ss");
            reveal_strlit("os.count_ss_silver");
            reveal_strlit("COALESCE(");
            reveal_strlit(" + ");
            reveal_strlit(", 0)");
            assert(rule_sql::expr(target) =~= written(term_of(target)));
        },
        ConditionTarget::SCount => {
            reveal_strlit("COALESCE(os.count_s + os.count_s_silver, 0)");
            reveal_strlit("os.count_s");
            reveal_strlit("os.count_s_silver");
            reveal_strlit("COALESCE(");
            reveal_strlit(" + ");
            reveal_strlit(", 0)");
            assert(rule_sql::expr(target) =~= written(term_of(target)));
        },
        ConditionTarget::ACount => {
            reveal_strlit("COALESCE(os.count_a, 0)");
            reveal_strlit("os.count_a");
            reveal_strlit("COALESCE(");
            reveal_strlit(", 0)");
            assert(rule_sql::expr(target) =~= written(term_of(target)));
        },
    }
}

/// The operator of a comparison sign.
pub open spec fn op_of(s: Sign) -> Op {
    match s {
        Sign::Gt => Op::Greater,
        Sign::Gte => Op::AtLeast,
        Sign::Lt => Op::Less,
        Sign::Lte => Op::AtMost,
    }
}

/// The condition of a clause whose first parameter has the number `i`.
pub open spec fn formula_of(clause: Clause, i: nat) -> Formula {
    match clause {
        Clause::Constant(b) => Formula::Constant(b),
        Clause::Equal(t, _) => Formula::Test(term_of(t), Op::Equal, Place::Plain(i)),
        Clause::Unequal(t, _) => Formula::Test(term_of(t), Op::Unequal, Place::Plain(i)),
        Clause::Distinct(t, _) => Formula::Test(term_of(t), Op::Distinct, Place::Plain(i)),
        Clause::Compared(t, s, _) => Formula::BracketTest(term_of(t), op_of(s), Place::Plain(i)),
        Clause::Within(t, _, _) => brackets(
            and(
                Formula::BracketTest(term_of(t), Op::AtLeast, Place::Plain(i)),
                Formula::BracketTest(term_of(t), Op::AtMost, Place::Plain(i + 1)),
            ),
        ),
        Clause::Like(t, _) => Formula::Test(term_of(t), Op::Like, Place::Plain(i)),
        Clause::Regex(t, _) => Formula::Test(term_of(t), Op::Matches, Place::Plain(i)),
        Clause::AnyOf(t, _) => Formula::Test(term_of(t), Op::Equal, Place::AnyOf(i)),
        Clause::NoneOf(t, _) => brackets(
            and(
                Formula::NotNull(term_of(t)),
                Formula::Test(term_of(t), Op::Unequal, Place::AllOf(i)),
            ),
        ),
        Clause::Present(t) => Formula::NotNull(term_of(t)),
        Clause::Holds(t, _) => brackets(Formula::Test(term_of(t), Op::Covers, Place::Only(i))),
        Clause::Lacks(t, _) => not(
            brackets(Formula::Test(term_of(t), Op::Covers, Place::Only(i))),
        ),
        Clause::SomeLike(t, _) => Formula::SomeElement(term_of(t), Op::Like, Place::Plain(i)),
        Clause::SomeRegex(t, _) => Formula::SomeElement(term_of(t), Op::Matches, Place::Plain(i)),
        Clause::Overlaps(t, _) => brackets(
            Formula::Test(term_of(t), Op::Overlaps, Place::Texts(i)),
        ),
        Clause::Disjoint(t, _) => not(
            brackets(Formula::Test(term_of(t), Op::Overlaps, Place::Texts(i))),
        ),
    }
}

/// The target that a clause is on, and whether it is on one at all.
spec fn subject(clause: Clause) -> Option<ConditionTarget> {
    match clause {
        Clause::Constant(_) => None,
        Clause::Equal(t, _) => Some(t),
        Clause::Unequal(t, _) => Some(t),
        Clause::Distinct(t, _) => Some(t),
        Clause::Compared(t, _, _) => Some(t),
        Clause::Within(t, _, _) => Some(t),
        Clause::Like(t, _) => Some(t),
        Clause::Regex(t, _) => Some(t),
        Clause::AnyOf(t, _) => Some(t),
        Clause::NoneOf(t, _) => Some(t),
        Clause::Present(t) => Some(t),
        Clause::Holds(t, _) => Some(t),
        Clause::Lacks(t, _) => Some(t),
        Clause::SomeLike(t, _) => Some(t),
        Clause::SomeRegex(t, _) => Some(t),
        Clause::Overlaps(t, _) => Some(t),
        Clause::Disjoint(t, _) => Some(t),
    }
}

proof fn lemma_compared_text(e: Seq<char>, s: Sign, p: Seq<char>)
    ensures
        "("@ + e + ") "@ + s.sql() + " "@ + p == "("@ + e + ")"@ + sign(op_of(s)) + p,
{
    reveal_strlit(")");
    reveal_strlit(") ");
    reveal_strlit(" ");
    reveal_strlit(">");
    reveal_strlit(">=");
    reveal_strlit("<");
    reveal_strlit("<=");
    reveal_strlit(" > ");
    reveal_strlit(" >= ");
    reveal_strlit(" < ");
    reveal_strlit(" <= ");
    assert(") "@ + s.sql() + " "@ =~= ")"@ + sign(op_of(s)));
    assert("("@ + e + ") "@ + s.sql() + " "@ + p =~= "("@ + e + (") "@ + s.sql() + " "@) + p);
    assert("("@ + e + ")"@ + sign(op_of(s)) + p =~= "("@ + e + (")"@ + sign(op_of(s))) + p);
}

proof fn lemma_within_text(e: Seq<char>, p: Seq<char>, q: Seq<char>)
    ensures
        "(("@ + e + ") >= "@ + p + " AND ("@ + e + ") <= "@ + q + ")"@ == "("@ + ("("@ + e + ")"@
            + " >= "@ + p + " AND "@ + ("("@ + e + ")"@ + " <= "@ + q)) + ")"@,
{
    reveal_strlit("(");
    reveal_strlit(")");
    reveal_strlit("((");
    reveal_strlit(") >= ");
    reveal_strlit(" AND (");
    reveal_strlit(") <= ");
    reveal_strlit(" >= ");
    reveal_strlit(" <= ");
    reveal_strlit(" AND ");
    assert("(("@ =~= "("@ + "("@);
    assert(") >= "@ =~= ")"@ + " >= "@);
    assert(") <= "@ =~= ")"@ + " <= "@);
    assert(" AND ("@ =~= " AND "@ + "("@);
    assert("(("@ + e + ") >= "@ + p + " AND ("@ + e + ") <= "@ + q + ")"@ =~= "("@ + ("("@ + e
        + ")"@ + " >= "@ + p + " AND "@ + ("("@ + e + ")"@ + " <= "@ + q)) + ")"@);
}

proof fn lemma_any_text(e: Seq<char>, n: Seq<char>)
    ensures
        e + " = ANY("@ + ("$"@ + n) + "::text[])"@ == e + " = "@ + ("ANY($"@ + n + "::text[])"@),
{
    reveal_strlit("$");
    reveal_strlit(" = ANY(");
    reveal_strlit(" = ");
    reveal_strlit("ANY($");
    assert(" = ANY("@ + "$"@ =~= " = "@ + "ANY($"@);
    assert(e + " = ANY("@ + ("$"@ + n) + "::text[])"@ =~= e + (" = ANY("@ + "$"@) + n
        + "::text[])"@);
    assert(e + " = "@ + ("ANY($"@ + n + "::text[])"@) =~= e + (" = "@ + "ANY($"@) + n
        + "::text[])"@);
}

proof fn lemma_none_text(e: Seq<char>, n: Seq<char>)
    ensures
        "("@ + e + " IS NOT NULL AND "@ + e + " <> ALL("@ + ("$"@ + n) + "::text[]))"@ == "("@ + (e
            + " IS NOT NULL"@ + " AND "@ + (e + " <> "@ + ("ALL($"@ + n + "::text[])"@))) + ")"@,
{
    reveal_strlit("$");
    reveal_strlit(")");
    reveal_strlit(" IS NOT NULL AND ");
    reveal_strlit(" IS NOT NULL");
    reveal_strlit(" AND ");
    reveal_strlit(" <> ALL(");
    reveal_strlit(" <> ");
    reveal_strlit("ALL($");
    reveal_strlit("::text[]))");
    reveal_strlit("::text[])");
    assert(" IS NOT NULL AND "@ =~= " IS NOT NULL"@ + " AND "@);
    assert(" <> ALL("@ + "$"@ =~= " <> "@ + "ALL($"@);
    assert("::text[]))"@ =~= "::text[])"@ + ")"@);
    assert("("@ + e + " IS NOT NULL AND "@ + e + " <> ALL("@ + ("$"@ + n) + "::text[]))"@ =~= "("@
        + e + (" IS NOT NULL"@ + " AND "@) + e + (" <> ALL("@ + "$"@) + n + ("::text[])"@ + ")"@));
    assert("("@ + (e + " IS NOT NULL"@ + " AND "@ + (e + " <> "@ + ("ALL($"@ + n + "::text[])"@)))
        + ")"@ =~= "("@ + e + (" IS NOT NULL"@ + " AND "@) + e + (" <> "@ + "ALL($"@) + n + (
    "::text[])"@ + ")"@));
}

proof fn lemma_covers_text(e: Seq<char>, n: Seq<char>)
    ensures
        "("@ + e + " @> ARRAY["@ + ("$"@ + n) + "::text])"@ == "("@ + (e + " @> "@ + ("ARRAY[$"@ + n
            + "::text]"@)) + ")"@,
        "NOT ("@ + e + " @> ARRAY["@ + ("$"@ + n) + "::text])"@ == "NOT "@ + ("("@ + (e + " @> "@ + (
        "ARRAY[$"@ + n + "::text]"@)) + ")"@),
{
    reveal_strlit("$");
    reveal_strlit("(");
    reveal_strlit(")");
    reveal_strlit("NOT (");
    reveal_strlit("NOT ");
    reveal_strlit(" @> ARRAY[");
    reveal_strlit(" @> ");
    reveal_strlit("ARRAY[$");
    reveal_strlit("::text])");
    reveal_strlit("::text]");
    assert(" @> ARRAY["@ + "$"@ =~= " @> "@ + "ARRAY[$"@);
    assert("::text])"@ =~= "::text]"@ + ")"@);
    assert("NOT ("@ =~= "NOT "@ + "("@);
    let inner = "("@ + e + (" @> "@ + "ARRAY[$"@) + n + ("::text]"@ + ")"@);
    assert("("@ + e + " @> ARRAY["@ + ("$"@ + n) + "::text])"@ =~= inner);
    assert("("@ + (e + " @> "@ + ("ARRAY[$"@ + n + "::text]"@)) + ")"@ =~= inner);
    assert("NOT ("@ + e + " @> ARRAY["@ + ("$"@ + n) + "::text])"@ =~= "NOT "@ + inner);
}

proof fn lemma_some_text(e: Seq<char>, p: Seq<char>)
    ensures
        "EXISTS (SELECT 1 FROM unnest("@ + e + ") AS x WHERE x LIKE "@ + p + ")"@
            == "EXISTS (SELECT 1 FROM unnest("@ + e + ") AS x WHERE x"@ + " LIKE "@ + p + ")"@,
        "EXISTS (SELECT 1 FROM unnest("@ + e + ") AS x WHERE x ~ "@ + p + ")"@
            == "EXISTS (SELECT 1 FROM unnest("@ + e + ") AS x WHERE x"@ + " ~ "@ + p + ")"@,
{
    reveal_strlit(") AS x WHERE x LIKE ");
    reveal_strlit(") AS x WHERE x ~ ");
    reveal_strlit(") AS x WHERE x");
    reveal_strlit(" LIKE ");
    reveal_strlit(" ~ ");
    let head = "EXISTS (SELECT 1 FROM unnest("@ + e;
    assert(") AS x WHERE x LIKE "@ =~= ") AS x WHERE x"@ + " LIKE "@);
    assert(") AS x WHERE x ~ "@ =~= ") AS x WHERE x"@ + " ~ "@);
    assert(head + ") AS x WHERE x LIKE "@ =~= head + ") AS x WHERE x"@ + " LIKE "@);
    assert(head + ") AS x WHERE x ~ "@ =~= head + ") AS x WHERE x"@ + " ~ "@);
}

proof fn lemma_overlap_text(e: Seq<char>, n: Seq<char>)
    ensures
        "("@ + e + " && "@ + ("$"@ + n) + "::text[])"@ == "("@ + (e + " && "@ + ("$"@ + n
            + "::text[]"@)) + ")"@,
        "NOT ("@ + e + " && "@ + ("$"@ + n) + "::text[])"@ == "NOT "@ + ("("@ + (e + " && "@ + ("$"@
            + n + "::text[]"@)) + ")"@),
{
    reveal_strlit("(");
    reveal_strlit(")");
    reveal_strlit("NOT (");
    reveal_strlit("NOT ");
    reveal_strlit("::text[])");
    reveal_strlit("::text[]");
    assert("::text[])"@ =~= "::text[]"@ + ")"@);
    assert("NOT ("@ =~= "NOT "@ + "("@);
    let inner = "("@ + e + " && "@ + ("$"@ + n) + ("::text[]"@ + ")"@);
    assert("("@ + (e + " && "@ + ("$"@ + n + "::text[]"@)) + ")"@ =~= inner);
    assert("NOT ("@ + e + " && "@ + ("$"@ + n) + "::text[])"@ =~= "NOT "@ + inner);
}

#[verifier::spinoff_prover]
proof fn lemma_clause_spelled(clause: Clause, i: nat)
    ensures
        rule_sql::clause_text(clause, i) == spelled(formula_of(clause, i)),
        unambiguous(formula_of(clause, i)),
        binding(formula_of(clause, i)) > 1,
{
    reveal_with_fuel(spelled, 3);
    reveal_with_fuel(unambiguous, 3);
    if let Some(t) = subject(clause) {
        lemma_writing(t);
        let e = written(term_of(t));
        let n = text::dec(i);
        lemma_within_text(e, "$"@ + n, "$"@ + text::dec(i + 1));
        lemma_any_text(e, n);
        lemma_none_text(e, n);
        lemma_covers_text(e, n);
        lemma_some_text(e, "$"@ + n);
        lemma_overlap_text(e, n);
        if let Clause::Compared(_, s, _) = clause {
            lemma_compared_text(e, s, "$"@ + n);
        }
    }
}

/// True when the parameters behind the first `at` start with a list.
pub open spec fn bound(params: Seq<Param>, at: nat, list: Seq<Param>) -> bool {
    at + list.len() <= params.len() && params.subrange(at as int, (at + list.len()) as int)
        == list
}

proof fn lemma_bound_split(params: Seq<Param>, at: nat, a: Seq<Param>, b: Seq<Param>)
    requires
        bound(params, at, a + b),
    ensures
        bound(params, at, a),
        bound(params, at + a.len(), b),
{
    let whole = params.subrange(at as int, (at + a.len() + b.len()) as int);
    assert(params.subrange(at as int, (at + a.len()) as int) =~= a) by {
        assert forall|i: int| 0 <= i < a.len() implies params[at + i] == a[i] by {
            assert(whole[i] == (a + b)[i]);
        }
    }
    assert(params.subrange((at + a.len()) as int, (at + a.len() + b.len()) as int) =~= b) by {
        assert forall|i: int| 0 <= i < b.len() implies params[at + a.len() + i] == b[i] by {
            assert(whole[a.len() + i] == (a + b)[a.len() + i]);
        }
    }
}

/// The truth of a clause, given what the expression of its target yields.
spec fn truth_of(
    clause: Clause,
    a: Cell,
    regex: spec_fn(Seq<char>, Seq<char>) -> bool,
) -> Option<bool> {
    match clause {
        Clause::Constant(b) => Some(b),
        Clause::Equal(_, p) => rule_meaning::equal(a, p),
        Clause::Unequal(_, p) => rule_meaning::not(rule_meaning::equal(a, p)),
        Clause::Distinct(_, p) => match a {
            Cell::Null => Some(true),
            c => rule_meaning::not(rule_meaning::equal(c, p)),
        },
        Clause::Compared(_, s, p) => rule_meaning::compared(a, s, p),
        Clause::Within(_, lo, hi) => rule_meaning::both(
            rule_meaning::compared(a, Sign::Gte, lo),
            rule_meaning::compared(a, Sign::Lte, hi),
        ),
        Clause::Like(_, p) => match (a, p) {
            (Cell::Text(s), Param::Text(pat)) => Some(rule_meaning::like(pat, s)),
            _ => None,
        },
        Clause::Regex(_, p) => match (a, p) {
            (Cell::Text(s), Param::Text(pat)) => Some(regex(pat, s)),
            _ => None,
        },
        Clause::AnyOf(_, p) => match (a, p) {
            (Cell::Text(s), Param::TextArray(list)) => Some(list.contains(s)),
            _ => None,
        },
        Clause::NoneOf(_, p) => match (a, p) {
            (Cell::Null, _) => Some(false),
            (Cell::Text(s), Param::TextArray(list)) => Some(!list.contains(s)),
            _ => None,
        },
        Clause::Present(_) => Some(!(a is Null)),
        Clause::Holds(_, p) => match (a, p) {
            (Cell::Array(all), Param::Text(s)) => Some(all.contains(s)),
            _ => None,
        },
        Clause::Lacks(_, p) => match (a, p) {
            (Cell::Array(all), Param::Text(s)) => Some(!all.contains(s)),
            _ => None,
        },
        Clause::SomeLike(_, p) => match (a, p) {
            (Cell::Array(all), Param::Text(pat)) => Some(rule_meaning::some_like(all, pat)),
            _ => None,
        },
        Clause::SomeRegex(_, p) => match (a, p) {
            (Cell::Array(all), Param::Text(pat)) => Some(
                rule_meaning::some_found(all, pat, regex),
            ),
            _ => None,
        },
        Clause::Overlaps(_, p) => match (a, p) {
            (Cell::Array(all), Param::TextArray(list)) => Some(rule_meaning::share(all, list)),
            _ => None,
        },
        Clause::Disjoint(_, p) => match (a, p) {
            (Cell::Array(all), Param::TextArray(list)) => Some(!rule_meaning::share(all, list)),
            _ => None,
        },
    }
}

#[verifier::spinoff_prover]
proof fn lemma_truth_of(
    clause: Clause,
    f: Facts,
    now: Timestamp,
    regex: spec_fn(Seq<char>, Seq<char>) -> bool,
)
    ensures
        subject(clause) matches Some(t) ==> rule_meaning::truth(clause, f, now, regex) == truth_of(
            clause,
            rule_meaning::column(t, f, now),
            regex,
        ),
        subject(clause) is None ==> rule_meaning::truth(clause, f, now, regex) == truth_of(
            clause,
            Cell::Null,
            regex,
        ),
{
}

/// The truth of a test on some element of an array.
proof fn lemma_some_element(
    all: Seq<Seq<char>>,
    i: nat,
    pat: Seq<char>,
    params: Seq<Param>,
    regex: spec_fn(Seq<char>, Seq<char>) -> bool,
)
    requires
        params[i - 1] == Param::Text(pat),
    ensures
        (exists|k: int|
            0 <= k < all.len() && tested(
                Cell::Text(#[trigger] all[k]),
                Op::Like,
                Place::Plain(i),
                params,
                regex,
            ) == Some(true)) == rule_meaning::some_like(all, pat),
        (exists|k: int|
            0 <= k < all.len() && tested(
                Cell::Text(#[trigger] all[k]),
                Op::Matches,
                Place::Plain(i),
                params,
                regex,
            ) == Some(true)) == rule_meaning::some_found(all, pat, regex),
{
}

/// What the connectives make of the truth of their parts.
pub proof fn lemma_connectives(
    g: Formula,
    h: Formula,
    columns: Columns,
    params: Seq<Param>,
    now: Timestamp,
    regex: spec_fn(Seq<char>, Seq<char>) -> bool,
)
    ensures
        decided(brackets(g), columns, params, now, regex) == decided(
            g,
            columns,
            params,
            now,
            regex,
        ),
        decided(not(g), columns, params, now, regex) == rule_meaning::not(
            decided(g, columns, params, now, regex),
        ),
        decided(and(g, h), columns, params, now, regex) == rule_meaning::both(
            decided(g, columns, params, now, regex),
            decided(h, columns, params, now, regex),
        ),
        decided(or(g, h), columns, params, now, regex) == rule_meaning::not(
            rule_meaning::both(
                rule_meaning::not(decided(g, columns, params, now, regex)),
                rule_meaning::not(decided(h, columns, params, now, regex)),
            ),
        ),
{
}

#[verifier::spinoff_prover]
proof fn lemma_formula_decided(
    clause: Clause,
    i: nat,
    columns: Columns,
    params: Seq<Param>,
    now: Timestamp,
    a: Cell,
    regex: spec_fn(Seq<char>, Seq<char>) -> bool,
)
    requires
        i > 0,
        bound(params, (i - 1) as nat, rule_sql::clause_params(clause)),
        subject(clause) matches Some(t) ==> yields(term_of(t), columns, now) == a,
    ensures
        decided(formula_of(clause, i), columns, params, now, regex) == truth_of(clause, a, regex),
{
    let list = rule_sql::clause_params(clause);
    let sub = params.subrange(i - 1, i - 1 + list.len());
    if list.len() > 0 {
        assert(params[i - 1] == sub[0]);
    }
    match clause {
        Clause::Within(t, lo, hi) => {
            assert(params[i as int] == sub[1]);
            assert(sub == seq![lo, hi]);
            assert(params[i - 1] == lo && params[i as int] == hi);
            let g = Formula::BracketTest(term_of(t), Op::AtLeast, Place::Plain(i));
            let h = Formula::BracketTest(term_of(t), Op::AtMost, Place::Plain(i + 1));
            lemma_connectives(and(g, h), g, columns, params, now, regex);
            lemma_connectives(g, h, columns, params, now, regex);
            assert(formula_of(clause, i) == brackets(and(g, h)));
            assert(decided(g, columns, params, now, regex) == rule_meaning::compared(
                a,
                Sign::Gte,
                lo,
            ));
            assert(decided(h, columns, params, now, regex) == rule_meaning::compared(
                a,
                Sign::Lte,
                hi,
            ));
        },
        Clause::NoneOf(t, _) => {
            let g = Formula::NotNull(term_of(t));
            let h = Formula::Test(term_of(t), Op::Unequal, Place::AllOf(i));
            lemma_connectives(and(g, h), g, columns, params, now, regex);
            lemma_connectives(g, h, columns, params, now, regex);
        },
        Clause::Holds(t, _) | Clause::Lacks(t, _) => {
            let g = Formula::Test(term_of(t), Op::Covers, Place::Only(i));
            lemma_connectives(g, g, columns, params, now, regex);
            lemma_connectives(brackets(g), g, columns, params, now, regex);
        },
        Clause::Overlaps(t, _) | Clause::Disjoint(t, _) => {
            let g = Formula::Test(term_of(t), Op::Overlaps, Place::Texts(i));
            lemma_connectives(g, g, columns, params, now, regex);
            lemma_connectives(brackets(g), g, columns, params, now, regex);
        },
        Clause::SomeLike(_, p) | Clause::SomeRegex(_, p) => {
            if let (Cell::Array(all), Param::Text(pat)) = (a, p) {
                lemma_some_element(all, i, pat, params, regex);
            }
        },
        _ => {},
    }
}

proof fn lemma_clause_decided(
    clause: Clause,
    i: nat,
    columns: Columns,
    params: Seq<Param>,
    f: Facts,
    now: Timestamp,
    regex: spec_fn(Seq<char>, Seq<char>) -> bool,
)
    requires
        i > 0,
        row_of(columns, f),
        bound(params, (i - 1) as nat, rule_sql::clause_params(clause)),
    ensures
        decided(formula_of(clause, i), columns, params, now, regex) == rule_meaning::truth(
            clause,
            f,
            now,
            regex,
        ),
{
    lemma_truth_of(clause, f, now, regex);
    match subject(clause) {
        Some(t) => {
            lemma_yielding(t, columns, f, now);
            rule_meaning::law_columns_hold_the_facts(t, f, now);
            let a = rule_meaning::column(t, f, now);
            lemma_formula_decided(clause, i, columns, params, now, a, regex);
        },
        None => {
            lemma_formula_decided(clause, i, columns, params, now, Cell::Null, regex);
        },
    }
}

/// The condition of a list of conditions: all of them hold.
pub open spec fn all_formula(conditions: Seq<Condition>, before: nat) -> Formula
    decreases conditions.len(),
{
    if conditions.len() == 0 {
        Formula::Constant(true)
    } else {
        let rest = conditions.drop_last();
        let last = formula_of(
            rule_sql::condition_clause(conditions.last()),
            before + rule_sql::conditions_params(rest).len() + 1,
        );
        if rest.len() == 0 {
            last
        } else {
            and(all_formula(rest, before), last)
        }
    }
}

/// The condition of a group.
pub open spec fn group_formula(group: ConditionGroup, before: nat) -> Formula {
    if group.conditions@.len() == 0 {
        Formula::Constant(false)
    } else {
        brackets(all_formula(group.conditions@, before))
    }
}

/// The condition of a list of groups: one of them holds.
pub open spec fn any_formula(groups: Seq<ConditionGroup>, before: nat) -> Formula
    decreases groups.len(),
{
    if groups.len() == 0 {
        Formula::Constant(false)
    } else {
        let rest = groups.drop_last();
        let last = group_formula(
            groups.last(),
            before + rule_sql::groups_params(rest).len(),
        );
        if rest.len() == 0 {
            last
        } else {
            or(any_formula(rest, before), last)
        }
    }
}

/// The condition of a rule.
pub open spec fn rule_formula(tree: RuleTree, before: nat) -> Formula {
    if tree.grant_on_any_player {
        Formula::Constant(true)
    } else if tree.groups@.len() == 0 {
        Formula::Constant(false)
    } else {
        brackets(any_formula(tree.groups@, before))
    }
}

proof fn lemma_all_spelled(conditions: Seq<Condition>, before: nat)
    requires
        conditions.len() > 0,
    ensures
        text::joined(rule_sql::conditions_texts(conditions, before), " AND "@) == spelled(
            all_formula(conditions, before),
        ),
        rule_sql::conditions_texts(conditions, before).len() == conditions.len(),
        unambiguous(all_formula(conditions, before)),
        binding(all_formula(conditions, before)) >= 1,
    decreases conditions.len(),
{
    let rest = conditions.drop_last();
    let texts = rule_sql::conditions_texts(conditions, before);
    let i = before + rule_sql::conditions_params(rest).len() + 1;
    let clause = rule_sql::condition_clause(conditions.last());
    lemma_clause_spelled(clause, i);
    if rest.len() > 0 {
        lemma_all_spelled(rest, before);
        assert(texts.drop_last() =~= rule_sql::conditions_texts(rest, before));
    } else {
        assert(rule_sql::conditions_texts(rest, before).len() == 0);
    }
    assert(texts.last() == rule_sql::clause_text(clause, i));
}

proof fn lemma_any_spelled(groups: Seq<ConditionGroup>, before: nat)
    requires
        groups.len() > 0,
    ensures
        text::joined(rule_sql::groups_texts(groups, before), " OR "@) == spelled(
            any_formula(groups, before),
        ),
        rule_sql::groups_texts(groups, before).len() == groups.len(),
        unambiguous(any_formula(groups, before)),
    decreases groups.len(),
{
    let rest = groups.drop_last();
    let texts = rule_sql::groups_texts(groups, before);
    let at = before + rule_sql::groups_params(rest).len();
    if groups.last().conditions@.len() > 0 {
        lemma_all_spelled(groups.last().conditions@, at);
    }
    let last = group_formula(groups.last(), at);
    assert(spelled(last) == rule_sql::group_text(groups.last(), at));
    assert(unambiguous(last) && binding(last) > 0);
    if rest.len() > 0 {
        lemma_any_spelled(rest, before);
        assert(texts.drop_last() =~= rule_sql::groups_texts(rest, before));
    } else {
        assert(rule_sql::groups_texts(rest, before).len() == 0);
    }
    assert(texts.last() == rule_sql::group_text(groups.last(), at));
}

proof fn lemma_all_decided(
    conditions: Seq<Condition>,
    before: nat,
    columns: Columns,
    params: Seq<Param>,
    f: Facts,
    now: Timestamp,
    regex: spec_fn(Seq<char>, Seq<char>) -> bool,
)
    requires
        row_of(columns, f),
        bound(params, before, rule_sql::conditions_params(conditions)),
    ensures
        decided(all_formula(conditions, before), columns, params, now, regex)
            == rule_meaning::all_of(
            conditions.map_values(
                |c: Condition| rule_meaning::truth(rule_sql::condition_clause(c), f, now, regex),
            ),
        ),
    decreases conditions.len(),
{
    let say = |c: Condition| rule_meaning::truth(rule_sql::condition_clause(c), f, now, regex);
    let values = conditions.map_values(say);
    if conditions.len() > 0 {
        let rest = conditions.drop_last();
        let clause = rule_sql::condition_clause(conditions.last());
        let ahead = rule_sql::conditions_params(rest);
        let i = before + ahead.len() + 1;
        lemma_bound_split(params, before, ahead, rule_sql::clause_params(clause));
        lemma_clause_decided(clause, i, columns, params, f, now, regex);
        lemma_all_decided(rest, before, columns, params, f, now, regex);
        assert(values.drop_last() =~= rest.map_values(say));
        assert(values.last() == say(conditions.last()));
        lemma_connectives(
            all_formula(rest, before),
            formula_of(clause, i),
            columns,
            params,
            now,
            regex,
        );
        if rest.len() == 0 {
            assert(rule_meaning::all_of(rest.map_values(say)) == Some(true));
        }
    }
}

proof fn lemma_any_decided(
    groups: Seq<ConditionGroup>,
    before: nat,
    columns: Columns,
    params: Seq<Param>,
    f: Facts,
    now: Timestamp,
    regex: spec_fn(Seq<char>, Seq<char>) -> bool,
)
    requires
        row_of(columns, f),
        bound(params, before, rule_sql::groups_params(groups)),
    ensures
        decided(any_formula(groups, before), columns, params, now, regex) == rule_meaning::any_of(
            groups.map_values(|g: ConditionGroup| rule_meaning::group_truth(g, f, now, regex)),
        ),
    decreases groups.len(),
{
    let say = |g: ConditionGroup| rule_meaning::group_truth(g, f, now, regex);
    let values = groups.map_values(say);
    if groups.len() > 0 {
        let rest = groups.drop_last();
        let group = groups.last();
        let ahead = rule_sql::groups_params(rest);
        let at = before + ahead.len();
        lemma_bound_split(
            params,
            before,
            ahead,
            rule_sql::conditions_params(group.conditions@),
        );
        lemma_all_decided(group.conditions@, at, columns, params, f, now, regex);
        let inner = all_formula(group.conditions@, at);
        lemma_connectives(inner, inner, columns, params, now, regex);
        let last = group_formula(group, at);
        assert(decided(last, columns, params, now, regex) == say(group));
        lemma_any_decided(rest, before, columns, params, f, now, regex);
        assert(values.drop_last() =~= rest.map_values(say));
        assert(values.last() == say(group));
        lemma_connectives(any_formula(rest, before), last, columns, params, now, regex);
        if rest.len() == 0 {
            assert(rule_meaning::any_of(rest.map_values(say)) == Some(false));
        }
    }
}

/// The text of a rule's WHERE clause is the writing of a condition that is true of
/// a player's row exactly when the evaluator accepts the player. `before` are the
/// parameters ahead of those of the rule.
pub proof fn law_where_text_selects_whom_the_evaluator_accepts(
    tree: RuleTree,
    before: Seq<Param>,
    after: Seq<Param>,
    columns: Columns,
    f: Facts,
    now: Timestamp,
    regex: spec_fn(Seq<char>, Seq<char>) -> bool,
) -> (formula: Formula)
    requires
        tree.conditions_well_formed(),
        row_of(columns, f),
        forall|g: int, k: int|
            0 <= g < tree.groups@.len() && 0 <= k < tree.groups@[g].conditions@.len()
                ==> rule_meaning::comparable(
                #[trigger] tree.groups@[g].conditions@[k],
                f,
                now,
                regex,
            ),
    ensures
        rule_sql::where_text(tree, before.len()) == spelled(formula),
        unambiguous(formula),
        binding(formula) > 2,
        (decided(
            formula,
            columns,
            before + rule_sql::where_params(tree) + after,
            now,
            regex,
        ) == Some(true)) == condition_eval::tree_matches(tree, f, now),
{
    let params = before + rule_sql::where_params(tree) + after;
    let at = before.len();
    let formula = rule_formula(tree, at);
    rule_meaning::law_where_mirrors_evaluation_of_any_rule(tree, f, now, regex);
    if !tree.grant_on_any_player && tree.groups@.len() > 0 {
        lemma_any_spelled(tree.groups@, at);
        assert(params.subrange(
            at as int,
            (at + rule_sql::where_params(tree).len()) as int,
        ) =~= rule_sql::where_params(tree));
        lemma_any_decided(tree.groups@, at, columns, params, f, now, regex);
        let inner = any_formula(tree.groups@, at);
        lemma_connectives(inner, inner, columns, params, now, regex);
    }
    formula
}

/// True for the targets whose column carries the name that rules call them by.
pub open spec fn named_after_its_column(target: ConditionTarget) -> bool {
    target is IsSupporter || target is IsActive || target is IsRestricted
        || target is BadgeCount || target is FollowerCount || target is RankedBeatmaps
        || target is LovedBeatmaps || target is MappingPlaycount || target is CountryCode
        || target is GlobalRank || target is CountryRank || target is PerformancePoints
        || target is PlayCount || target is PlayTimeHours || target is TotalScore
        || target is RankedScore || target is HitAccuracy || target is MaxCombo
        || target is LevelInt
}

/// The expression of such a target is over the column of its name, in the table of the
/// stats where the target depends on the mode and in that of the users otherwise, with
/// false or zero in place of NULL where the target has a default.
#[verifier::spinoff_prover]
pub proof fn law_expressions_are_over_the_column_of_their_name(target: ConditionTarget)
    requires
        named_after_its_column(target),
    ensures
        ({
            let name = if target.spec_per_mode() {
                "os."@ + target.key()
            } else {
                "ou."@ + target.key()
            };
            rule_sql::expr(target) == if rule_sql::stands_bare(target) {
                name
            } else if target.spec_kind() is Bool {
                "COALESCE("@ + name + ", false)"@
            } else {
                "COALESCE("@ + name + ", 0)"@
            }
        }),
{
    lemma_writing(target);
    reveal(term_of);
    reveal_with_fuel(written, 3);
    reveal_strlit("os.");
    reveal_strlit("ou.");
    match target {
        ConditionTarget::IsSupporter => {
            reveal_strlit("ou.is_supporter");
            reveal_strlit("is_supporter");
            assert("ou.is_supporter"@ =~= "ou."@ + "is_supporter"@);
        },
        ConditionTarget::IsActive => {
            reveal_strlit("ou.is_active");
            reveal_strlit("is_active");
            assert("ou.is_active"@ =~= "ou."@ + "is_active"@);
        },
        ConditionTarget::IsRestricted => {
            reveal_strlit("ou.is_restricted");
            reveal_strlit("is_restricted");
            assert("ou.is_restricted"@ =~= "ou."@ + "is_restricted"@);
        },
        ConditionTarget::BadgeCount => {
            reveal_strlit("ou.badge_count");
            reveal_strlit("badge_count");
            assert("ou.badge_count"@ =~= "ou."@ + "badge_count"@);
        },
        ConditionTarget::FollowerCount => {
            reveal_strlit("ou.follower_count");
            reveal_strlit("follower_count");
            assert("ou.follower_count"@ =~= "ou."@ + "follower_count"@);
        },
        ConditionTarget::RankedBeatmaps => {
            reveal_strlit("ou.ranked_beatmaps");
            reveal_strlit("ranked_beatmaps");
            assert("ou.ranked_beatmaps"@ =~= "ou."@ + "ranked_beatmaps"@);
        },
        ConditionTarget::LovedBeatmaps => {
            reveal_strlit("ou.loved_beatmaps");
            reveal_strlit("loved_beatmaps");
            assert("ou.loved_beatmaps"@ =~= "ou."@ + "loved_beatmaps"@);
        },
        ConditionTarget::MappingPlaycount => {
            reveal_strlit("ou.mapping_playcount");
            reveal_strlit("mapping_playcount");
            assert("ou.mapping_playcount"@ =~= "ou."@ + "mapping_playcount"@);
        },
        ConditionTarget::CountryCode => {
            reveal_strlit("ou.country_code");
            reveal_strlit("country_code");
            assert("ou.country_code"@ =~= "ou."@ + "country_code"@);
        },
        ConditionTarget::GlobalRank => {
            reveal_strlit("os.global_rank");
            reveal_strlit("global_rank");
            assert("os.global_rank"@ =~= "os."@ + "global_rank"@);
        },
        ConditionTarget::CountryRank => {
            reveal_strlit("os.country_rank");
            reveal_strlit("country_rank");
            assert("os.country_rank"@ =~= "os."@ + "country_rank"@);
        },
        ConditionTarget::PerformancePoints => {
            reveal_strlit("os.performance_points");
            reveal_strlit("performance_points");
            assert("os.performance_points"@ =~= "os."@ + "performance_points"@);
        },
        ConditionTarget::PlayCount => {
            reveal_strlit("os.play_count");
            reveal_strlit("play_count");
            assert("os.play_count"@ =~= "os."@ + "play_count"@);
        },
        ConditionTarget::PlayTimeHours => {
            reveal_strlit("os.play_time_hours");
            reveal_strlit("play_time_hours");
            assert("os.play_time_hours"@ =~= "os."@ + "play_time_hours"@);
        },
        ConditionTarget::TotalScore => {
            reveal_strlit("os.total_score");
            reveal_strlit("total_score");
            assert("os.total_score"@ =~= "os."@ + "total_score"@);
        },
        ConditionTarget::RankedScore => {
            reveal_strlit("os.ranked_score");
            reveal_strlit("ranked_score");
            assert("os.ranked_score"@ =~= "os."@ + "ranked_score"@);
        },
        ConditionTarget::HitAccuracy => {
            reveal_strlit("os.hit_accuracy");
            reveal_strlit("hit_accuracy");
            assert("os.hit_accuracy"@ =~= "os."@ + "hit_accuracy"@);
        },
        ConditionTarget::MaxCombo => {
            reveal_strlit("os.max_combo");
            reveal_strlit("max_combo");
            assert("os.max_combo"@ =~= "os."@ + "max_combo"@);
        },
        ConditionTarget::LevelInt => {
            reveal_strlit("os.level_int");
            reveal_strlit("level_int");
            assert("os.level_int"@ =~= "os."@ + "level_int"@);
        },
        _ => {},
    }
}

} // verus!
