//! What a WHERE clause selects.
//!
//! The clauses of [`crate::services::rule_sql`] get a meaning here: the truth of
//! each of them for one player's row, in SQL's three-valued logic. The laws say
//! that the clause of a rule selects exactly the players whom
//! [`crate::services::condition_eval::evaluate_at`] accepts.

use crate::json::Json;
use crate::models::condition::{Condition, ConditionTarget};
use crate::models::facts::{Facts, Timestamp};
use crate::models::rule::{ConditionGroup, RuleTree};
use crate::pattern;
use crate::services::condition_eval;
use crate::services::condition_eval::Fact;
use crate::services::rule_sql;
use crate::services::rule_sql::{Clause, Param, Sign};
use crate::text;
use vstd::prelude::*;

verus! {

/// What an expression yields for one row.
pub enum Cell {
    Null,
    Bool(bool),
    Int(int),
    Text(Seq<char>),
    Array(Seq<Seq<char>>),
    Instant(Timestamp),
}

/// `TRUNC` of the days since an instant; NULL where the instant is not known.
pub open spec fn truncated_age(now: Timestamp, then: Option<Timestamp>) -> Cell {
    match then {
        Some(t) => {
            let elapsed = now.instant() - t.instant();
            let whole = if elapsed < 0 {
                -((-elapsed) / 86_400_000_000_000)
            } else {
                elapsed / 86_400_000_000_000
            };
            Cell::Int(whole)
        },
        None => Cell::Null,
    }
}

/// A fact as a value of a column.
pub open spec fn cell(fact: Fact) -> Cell {
    match fact {
        Fact::Flag(b) => Cell::Bool(b),
        Fact::Number(Some(n)) => Cell::Int(n),
        Fact::Number(None) => Cell::Null,
        Fact::Text(Some(s)) => Cell::Text(s),
        Fact::Text(None) => Cell::Null,
        Fact::Texts(list) => Cell::Array(list),
    }
}

/// What the expression of a target yields for the row of a player with the given
/// facts, at the instant that `NOW()` reads.
pub open spec fn column(target: ConditionTarget, f: Facts, now: Timestamp) -> Cell {
    match target {
        ConditionTarget::AccountAgeDays => truncated_age(now, f.osu_joined_at),
        ConditionTarget::DaysSinceLastVisit => truncated_age(now, f.last_visit_at),
        _ => cell(condition_eval::fact(target, f, now)),
    }
}

/// `LIKE`: `%` stands for any run of characters, `_` for any one, and a
/// backslash makes the character behind it stand for itself.
pub open spec fn like(pattern: Seq<char>, s: Seq<char>) -> bool
    decreases pattern.len(), s.len(),
{
    if pattern.len() == 0 {
        s.len() == 0
    } else if pattern[0] == '%' {
        like(pattern.skip(1), s) || (s.len() > 0 && like(pattern, s.skip(1)))
    } else if pattern[0] == '\\' && pattern.len() > 1 {
        s.len() > 0 && s[0] == pattern[1] && like(pattern.skip(2), s.skip(1))
    } else {
        s.len() > 0 && (pattern[0] == '_' || s[0] == pattern[0]) && like(
            pattern.skip(1),
            s.skip(1),
        )
    }
}

/// `a = b`; unknown where either is NULL.
pub open spec fn equal(a: Cell, b: Param) -> Option<bool> {
    match (a, b) {
        (Cell::Bool(x), Param::Bool(y)) => Some(x == y),
        (Cell::Int(x), Param::Int(y)) => Some(x == y),
        (Cell::Text(x), Param::Text(y)) => Some(x == y),
        _ => None,
    }
}

/// The negation of a truth value.
pub open spec fn not(t: Option<bool>) -> Option<bool> {
    match t {
        Some(b) => Some(!b),
        None => None,
    }
}

/// A comparison of numbers; unknown where either is NULL.
pub open spec fn compared(a: Cell, sign: Sign, b: Param) -> Option<bool> {
    match (a, b) {
        (Cell::Int(x), Param::Int(y)) => Some(
            match sign {
                Sign::Gt => x > y,
                Sign::Gte => x >= y,
                Sign::Lt => x < y,
                Sign::Lte => x <= y,
            },
        ),
        _ => None,
    }
}

/// The conjunction of two truth values.
pub open spec fn both(a: Option<bool>, b: Option<bool>) -> Option<bool> {
    if a == Some(false) || b == Some(false) {
        Some(false)
    } else if a is None || b is None {
        None
    } else {
        Some(true)
    }
}

/// The truth of a clause for the row of a player. `regex` is the meaning of the
/// operator `~`, given the pattern and the text.
pub open spec fn truth(
    clause: Clause,
    f: Facts,
    now: Timestamp,
    regex: spec_fn(Seq<char>, Seq<char>) -> bool,
) -> Option<bool> {
    match clause {
        Clause::Constant(b) => Some(b),
        Clause::Equal(t, p) => equal(column(t, f, now), p),
        Clause::Unequal(t, p) => not(equal(column(t, f, now), p)),
        Clause::Distinct(t, p) => match column(t, f, now) {
            Cell::Null => Some(true),
            c => not(equal(c, p)),
        },
        Clause::Compared(t, sign, p) => compared(column(t, f, now), sign, p),
        Clause::Within(t, lo, hi) => both(
            compared(column(t, f, now), Sign::Gte, lo),
            compared(column(t, f, now), Sign::Lte, hi),
        ),
        Clause::Like(t, p) => match (column(t, f, now), p) {
            (Cell::Text(s), Param::Text(pat)) => Some(like(pat, s)),
            _ => None,
        },
        Clause::Regex(t, p) => match (column(t, f, now), p) {
            (Cell::Text(s), Param::Text(pat)) => Some(regex(pat, s)),
            _ => None,
        },
        Clause::AnyOf(t, p) => match (column(t, f, now), p) {
            (Cell::Text(s), Param::TextArray(list)) => Some(list.contains(s)),
            _ => None,
        },
        Clause::NoneOf(t, p) => match (column(t, f, now), p) {
            (Cell::Null, _) => Some(false),
            (Cell::Text(s), Param::TextArray(list)) => Some(!list.contains(s)),
            _ => None,
        },
        Clause::Present(t) => Some(!(column(t, f, now) is Null)),
        Clause::Holds(t, p) => match (column(t, f, now), p) {
            (Cell::Array(all), Param::Text(s)) => Some(all.contains(s)),
            _ => None,
        },
        Clause::Lacks(t, p) => match (column(t, f, now), p) {
            (Cell::Array(all), Param::Text(s)) => Some(!all.contains(s)),
            _ => None,
        },
        Clause::SomeLike(t, p) => match (column(t, f, now), p) {
            (Cell::Array(all), Param::Text(pat)) => Some(some_like(all, pat)),
            _ => None,
        },
        Clause::SomeRegex(t, p) => match (column(t, f, now), p) {
            (Cell::Array(all), Param::Text(pat)) => Some(some_found(all, pat, regex)),
            _ => None,
        },
        Clause::Overlaps(t, p) => match (column(t, f, now), p) {
            (Cell::Array(all), Param::TextArray(list)) => Some(share(all, list)),
            _ => None,
        },
        Clause::Disjoint(t, p) => match (column(t, f, now), p) {
            (Cell::Array(all), Param::TextArray(list)) => Some(!share(all, list)),
            _ => None,
        },
    }
}

/// True when some element matches a LIKE pattern.
pub open spec fn some_like(all: Seq<Seq<char>>, pat: Seq<char>) -> bool {
    exists|i: int| 0 <= i < all.len() && like(pat, #[trigger] all[i])
}

/// True when some element matches a regular expression.
pub open spec fn some_found(
    all: Seq<Seq<char>>,
    pat: Seq<char>,
    regex: spec_fn(Seq<char>, Seq<char>) -> bool,
) -> bool {
    exists|i: int| 0 <= i < all.len() && regex(pat, #[trigger] all[i])
}

/// True when two arrays have an element in common.
pub open spec fn share(a: Seq<Seq<char>>, b: Seq<Seq<char>>) -> bool {
    exists|i: int| 0 <= i < a.len() && b.contains(#[trigger] a[i])
}

/// `AND` over a list of truth values.
pub open spec fn all_of(values: Seq<Option<bool>>) -> Option<bool>
    decreases values.len(),
{
    if values.len() == 0 {
        Some(true)
    } else {
        both(all_of(values.drop_last()), values.last())
    }
}

/// `OR` over a list of truth values.
pub open spec fn any_of(values: Seq<Option<bool>>) -> Option<bool>
    decreases values.len(),
{
    if values.len() == 0 {
        Some(false)
    } else {
        not(both(not(any_of(values.drop_last())), not(values.last())))
    }
}

/// The truth of a group's text: FALSE where it has no conditions.
pub open spec fn group_truth(
    group: ConditionGroup,
    f: Facts,
    now: Timestamp,
    regex: spec_fn(Seq<char>, Seq<char>) -> bool,
) -> Option<bool> {
    if group.conditions@.len() == 0 {
        Some(false)
    } else {
        all_of(
            group.conditions@.map_values(
                |c: Condition| truth(rule_sql::condition_clause(c), f, now, regex),
            ),
        )
    }
}

/// The truth of a rule's WHERE clause.
pub open spec fn where_truth(
    tree: RuleTree,
    f: Facts,
    now: Timestamp,
    regex: spec_fn(Seq<char>, Seq<char>) -> bool,
) -> Option<bool> {
    if tree.grant_on_any_player {
        Some(true)
    } else if tree.groups@.len() == 0 {
        Some(false)
    } else {
        any_of(tree.groups@.map_values(|g: ConditionGroup| group_truth(g, f, now, regex)))
    }
}

/// A row is selected when its WHERE clause is true: neither false nor unknown.
pub open spec fn selects(
    tree: RuleTree,
    f: Facts,
    now: Timestamp,
    regex: spec_fn(Seq<char>, Seq<char>) -> bool,
) -> bool {
    where_truth(tree, f, now, regex) == Some(true)
}

/// What the two readings of a condition need to agree on it: the database reads
/// the pattern of a `regex` as the evaluator does, on the texts of the player.
pub open spec fn comparable(
    c: Condition,
    f: Facts,
    now: Timestamp,
    regex: spec_fn(Seq<char>, Seq<char>) -> bool,
) -> bool {
    c.operator is Regex ==> reads_alike(
        rule_sql::text_or_empty(c.value@),
        condition_eval::fact(c.target, f, now),
        regex,
    )
}

/// True when the database finds a pattern in the texts of a fact where the
/// evaluator finds it.
pub open spec fn reads_alike(
    pat: Seq<char>,
    fact: Fact,
    regex: spec_fn(Seq<char>, Seq<char>) -> bool,
) -> bool {
    match fact {
        Fact::Text(Some(s)) => regex(pat, s) == pattern::found(pat, s),
        Fact::Texts(all) => forall|i: int|
            0 <= i < all.len() ==> regex(pat, #[trigger] all[i]) == pattern::found(pat, all[i]),
        _ => true,
    }
}

/// The database reads the same value of every target as the evaluator, ages of
/// instants in the future among them.
pub proof fn law_columns_hold_the_facts(target: ConditionTarget, f: Facts, now: Timestamp)
    ensures
        column(target, f, now) == cell(condition_eval::fact(target, f, now)),
{
}

proof fn lemma_escaped_front(s: Seq<char>)
    requires
        s.len() > 0,
    ensures
        rule_sql::like_escaped(s) == rule_sql::like_char(s[0]) + rule_sql::like_escaped(s.skip(1)),
    decreases s.len(),
{
    if s.len() == 1 {
        assert(s.drop_last() =~= Seq::empty());
        assert(s.skip(1) =~= Seq::empty());
        assert(rule_sql::like_escaped(s) =~= rule_sql::like_char(s[0]));
    } else {
        lemma_escaped_front(s.drop_last());
        assert(s.drop_last().skip(1) =~= s.skip(1).drop_last());
        assert(rule_sql::like_escaped(s) =~= rule_sql::like_char(s[0]) + rule_sql::like_escaped(
            s.skip(1),
        ));
    }
}

proof fn lemma_any_run(rest: Seq<char>, s: Seq<char>)
    ensures
        like(seq!['%'] + rest, s) <==> exists|k: int|
            0 <= k <= s.len() && like(rest, #[trigger] s.skip(k)),
    decreases s.len(),
{
    let p = seq!['%'] + rest;
    assert(p.skip(1) =~= rest);
    assert(s.skip(0) =~= s);
    if s.len() > 0 {
        lemma_any_run(rest, s.skip(1));
        if like(p, s.skip(1)) {
            let k = choose|k: int|
                0 <= k <= s.skip(1).len() && like(rest, #[trigger] s.skip(1).skip(k));
            assert(s.skip(1).skip(k) =~= s.skip(k + 1));
            assert(like(rest, s.skip(k + 1)));
        }
        if exists|k: int| 0 <= k <= s.len() && like(rest, #[trigger] s.skip(k)) {
            let k = choose|k: int| 0 <= k <= s.len() && like(rest, #[trigger] s.skip(k));
            if k > 0 {
                assert(s.skip(1).skip(k - 1) =~= s.skip(k));
                assert(like(rest, s.skip(1).skip(k - 1)));
            }
        }
    } else {
        assert(forall|k: int| 0 <= k <= s.len() ==> #[trigger] s.skip(k) =~= s);
    }
}

proof fn lemma_literal_prefix(literal: Seq<char>, s: Seq<char>)
    ensures
        like(rule_sql::like_escaped(literal) + seq!['%'], s) <==> text::occurs_at(s, literal, 0),
    decreases literal.len(),
{
    let p = rule_sql::like_escaped(literal) + seq!['%'];
    if literal.len() == 0 {
        assert(p =~= seq!['%'] + Seq::<char>::empty());
        lemma_any_run(Seq::empty(), s);
        assert(s.skip(s.len() as int) =~= Seq::empty());
        assert(like(Seq::empty(), s.skip(s.len() as int)));
        assert(s.subrange(0, 0) =~= literal);
    } else {
        let rest = literal.skip(1);
        let q = rule_sql::like_escaped(rest) + seq!['%'];
        lemma_escaped_front(literal);
        lemma_literal_prefix(rest, s.skip(1));
        let c = literal[0];
        if c == '\\' || c == '%' || c == '_' {
            assert(p =~= seq!['\\', c] + q);
            assert(p.skip(2) =~= q);
        } else {
            assert(p =~= seq![c] + q);
            assert(p.skip(1) =~= q);
        }
        assert(like(p, s) <==> s.len() > 0 && s[0] == c && like(q, s.skip(1)));
        if s.len() >= literal.len() {
            let whole = s.subrange(0, literal.len() as int);
            let tail = s.skip(1).subrange(0, rest.len() as int);
            assert(whole =~= seq![s[0]] + tail);
            assert(literal =~= seq![c] + rest);
            if whole == literal {
                assert(tail =~= whole.skip(1));
                assert(s[0] == whole[0]);
            }
        }
    }
}

/// An escaped literal between two `%` matches exactly the texts that hold the
/// literal: no character of it acts as a wildcard.
pub proof fn law_like_anywhere_is_contains(literal: Seq<char>, s: Seq<char>)
    ensures
        like(rule_sql::like_anywhere(literal), s) <==> text::has_part(s, literal),
{
    reveal_strlit("%");
    let rest = rule_sql::like_escaped(literal) + seq!['%'];
    assert(rule_sql::like_anywhere(literal) =~= seq!['%'] + rest);
    lemma_any_run(rest, s);
    assert forall|k: int| 0 <= k <= s.len() implies (like(rest, #[trigger] s.skip(k))
        <==> text::occurs_at(s, literal, k)) by {
        lemma_literal_prefix(literal, s.skip(k));
        if s.skip(k).len() >= literal.len() {
            assert(s.skip(k).subrange(0, literal.len() as int) =~= s.subrange(
                k,
                k + literal.len(),
            ));
        }
    }
    if text::has_part(s, literal) {
        let k = choose|k: int| text::occurs_at(s, literal, k);
        assert(like(rest, s.skip(k)));
    }
}

proof fn lemma_texts_among(items: Seq<Json>, s: Seq<char>)
    ensures
        rule_sql::texts_among(items).contains(s) <==> exists|i: int|
            0 <= i < items.len() && (#[trigger] items[i]).as_text() == Some(s),
    decreases items.len(),
{
    if items.len() > 0 {
        let rest = items.drop_last();
        lemma_texts_among(rest, s);
        let before = rule_sql::texts_among(rest);
        let after = rule_sql::texts_among(items);
        match items.last().as_text() {
            Some(t) => {
                assert(after == before.push(t));
                assert(after[before.len() as int] == t);
                assert(after.contains(s) <==> before.contains(s) || t == s) by {
                    if before.contains(s) {
                        let j = choose|j: int| 0 <= j < before.len() && before[j] == s;
                        assert(after[j] == s);
                    }
                    if after.contains(s) {
                        let j = choose|j: int| 0 <= j < after.len() && after[j] == s;
                        if j < before.len() {
                            assert(before[j] == s);
                        }
                    }
                }
            },
            None => {},
        }
        if exists|i: int| 0 <= i < items.len() && (#[trigger] items[i]).as_text() == Some(s) {
            let i = choose|i: int|
                0 <= i < items.len() && (#[trigger] items[i]).as_text() == Some(s);
            if i < rest.len() {
                assert(rest[i] == items[i]);
            }
        }
        if exists|i: int| 0 <= i < rest.len() && (#[trigger] rest[i]).as_text() == Some(s) {
            let i = choose|i: int| 0 <= i < rest.len() && (#[trigger] rest[i]).as_text() == Some(s);
            assert(items[i] == rest[i]);
        }
        assert(items[items.len() - 1] == items.last());
    }
}

proof fn lemma_text_list(v: Json, s: Seq<char>)
    ensures
        rule_sql::text_list(v).contains(s) <==> condition_eval::listed(v, s),
{
    match v {
        Json::List(items) => {
            lemma_texts_among(items, s);
        },
        _ => {},
    }
}

/// The clause of a well-formed condition is true for a player's row exactly when
/// the evaluator says that the condition holds of the player.
pub proof fn law_clause_mirrors_condition(
    c: Condition,
    f: Facts,
    now: Timestamp,
    regex: spec_fn(Seq<char>, Seq<char>) -> bool,
)
    requires
        c.well_formed(),
        comparable(c, f, now, regex),
    ensures
        (truth(rule_sql::condition_clause(c), f, now, regex) == Some(true))
            == condition_eval::condition_matches(c, f, now),
{
    match condition_eval::fact(c.target, f, now) {
        Fact::Flag(_) => {},
        Fact::Number(_) => {},
        Fact::Text(None) => {},
        Fact::Text(Some(a)) => {
            let v = rule_sql::text_or_empty(c.value@);
            if c.operator is Contains {
                law_like_anywhere_is_contains(v, a);
            }
            lemma_text_list(c.value@, a);
            if rule_sql::text_list(c.value@).len() == 0 {
                assert(!rule_sql::text_list(c.value@).contains(a));
            }
        },
        Fact::Texts(all) => {
            let v = rule_sql::text_or_empty(c.value@);
            let list = rule_sql::text_list(c.value@);
            assert forall|i: int| 0 <= i < all.len() implies (list.contains(#[trigger] all[i])
                <==> condition_eval::listed(c.value@, all[i])) by {
                lemma_text_list(c.value@, all[i]);
            }
            assert forall|i: int| 0 <= i < all.len() implies (like(
                rule_sql::like_anywhere(v),
                #[trigger] all[i],
            ) <==> text::has_part(all[i], v)) by {
                law_like_anywhere_is_contains(v, all[i]);
            }
            if c.operator is Regex {
                assert forall|i: int| 0 <= i < all.len() implies (regex(v, #[trigger] all[i])
                    <==> pattern::found(v, all[i])) by {}
            }
        },
    }
}

proof fn lemma_all_of(values: Seq<Option<bool>>)
    ensures
        all_of(values) == Some(true) <==> forall|i: int|
            0 <= i < values.len() ==> #[trigger] values[i] == Some(true),
    decreases values.len(),
{
    if values.len() > 0 {
        let rest = values.drop_last();
        lemma_all_of(rest);
        let ok = forall|i: int| 0 <= i < values.len() ==> #[trigger] values[i] == Some(true);
        if all_of(values) == Some(true) {
            assert(values.last() == Some(true));
            assert(all_of(rest) == Some(true));
            assert forall|i: int| 0 <= i < values.len() implies #[trigger] values[i] == Some(
                true,
            ) by {
                if i < rest.len() {
                    assert(rest[i] == Some(true));
                }
            }
        }
        if ok {
            assert forall|i: int| 0 <= i < rest.len() implies #[trigger] rest[i] == Some(true) by {
                assert(values[i] == Some(true));
            }
            assert(values[values.len() - 1] == Some(true));
            assert(all_of(rest) == Some(true));
            assert(values.last() == Some(true));
            assert(all_of(values) == Some(true));
        }
    }
}

proof fn lemma_any_of(values: Seq<Option<bool>>)
    ensures
        any_of(values) == Some(true) <==> exists|i: int|
            0 <= i < values.len() && #[trigger] values[i] == Some(true),
    decreases values.len(),
{
    if values.len() > 0 {
        let rest = values.drop_last();
        lemma_any_of(rest);
        assert(values[values.len() - 1] == values.last());
        if any_of(rest) == Some(true) {
            let i = choose|i: int| 0 <= i < rest.len() && #[trigger] rest[i] == Some(true);
            assert(values[i] == Some(true));
        }
        if exists|i: int| 0 <= i < values.len() && #[trigger] values[i] == Some(true) {
            let i = choose|i: int| 0 <= i < values.len() && #[trigger] values[i] == Some(true);
            if i < rest.len() {
                assert(rest[i] == Some(true));
            }
        }
    }
}

/// The WHERE clause of a rule with well-formed conditions selects exactly the players
/// whom the evaluator accepts, also where a group has no conditions.
pub proof fn law_where_mirrors_evaluation_of_any_rule(
    tree: RuleTree,
    f: Facts,
    now: Timestamp,
    regex: spec_fn(Seq<char>, Seq<char>) -> bool,
)
    requires
        tree.conditions_well_formed(),
        forall|g: int, k: int|
            0 <= g < tree.groups@.len() && 0 <= k < tree.groups@[g].conditions@.len()
                ==> comparable(#[trigger] tree.groups@[g].conditions@[k], f, now, regex),
    ensures
        selects(tree, f, now, regex) == condition_eval::tree_matches(tree, f, now),
{
    if !tree.grant_on_any_player {
        let truths = tree.groups@.map_values(|g: ConditionGroup| group_truth(g, f, now, regex));
        assert forall|g: int| 0 <= g < tree.groups@.len() implies (#[trigger] truths[g] == Some(
            true,
        ) <==> condition_eval::group_matches(tree.groups@[g], f, now)) by {
            let group = tree.groups@[g];
            let clauses = group.conditions@.map_values(
                |c: Condition| truth(rule_sql::condition_clause(c), f, now, regex),
            );
            lemma_all_of(clauses);
            assert forall|k: int| 0 <= k < group.conditions@.len() implies (#[trigger] clauses[k]
                == Some(true)) == condition_eval::condition_matches(
                group.conditions@[k],
                f,
                now,
            ) by {
                assert(tree.groups@[g].conditions@[k].well_formed());
                law_clause_mirrors_condition(group.conditions@[k], f, now, regex);
            }
            if condition_eval::group_matches(group, f, now) {
                assert forall|k: int| 0 <= k < clauses.len() implies #[trigger] clauses[k] == Some(
                    true,
                ) by {
                    assert(condition_eval::condition_matches(group.conditions@[k], f, now));
                }
            }
            if all_of(clauses) == Some(true) {
                assert forall|k: int| 0 <= k < group.conditions@.len() implies
                    condition_eval::condition_matches(
                    #[trigger] group.conditions@[k],
                    f,
                    now,
                ) by {
                    assert(clauses[k] == Some(true));
                }
            }
        }
        lemma_any_of(truths);
        if condition_eval::tree_matches(tree, f, now) {
            let g = choose|g: int|
                0 <= g < tree.groups@.len() && condition_eval::group_matches(
                    #[trigger] tree.groups@[g],
                    f,
                    now,
                );
            assert(truths[g] == Some(true));
        }
    }
}

/// The WHERE clause of a well-formed rule selects exactly the players whom the
/// evaluator accepts.
pub proof fn law_where_mirrors_evaluation(
    tree: RuleTree,
    f: Facts,
    now: Timestamp,
    regex: spec_fn(Seq<char>, Seq<char>) -> bool,
)
    requires
        tree.well_formed(),
        forall|g: int, k: int|
            0 <= g < tree.groups@.len() && 0 <= k < tree.groups@[g].conditions@.len()
                ==> comparable(#[trigger] tree.groups@[g].conditions@[k], f, now, regex),
    ensures
        selects(tree, f, now, regex) == condition_eval::tree_matches(tree, f, now),
{
    crate::models::rule::lemma_conditions_well_formed(tree);
    law_where_mirrors_evaluation_of_any_rule(tree, f, now, regex);
}

/// Convention 42: a rule that names nobody selects nobody, in the database and
/// in the evaluator.
pub proof fn law_unconfigured_selects_nobody(
    tree: RuleTree,
    f: Facts,
    now: Timestamp,
    regex: spec_fn(Seq<char>, Seq<char>) -> bool,
)
    requires
        tree.unconfigured(),
    ensures
        !selects(tree, f, now, regex),
        !condition_eval::tree_matches(tree, f, now),
        rule_sql::where_params(tree).len() == 0,
{
}

} // verus!
