//! What the statements of the two syncs bring back.
//!
//! The row that the sync of one player reads and the query of a role link are tied
//! to one row of the database here: both come to the same verdict on it.

use crate::models::condition::ConditionTarget;
use crate::models::facts::{Facts, Timestamp};
use crate::models::rule::RuleTree;
use crate::services::condition_eval;
use crate::services::condition_eval::Fact;
use crate::services::rule_meaning;
use crate::services::rule_meaning::Cell;
use crate::services::rule_sql;
use crate::services::rule_sql::Param;
use crate::services::sql;
use crate::services::sql::{Columns, Formula, Op, Place, Term};
use crate::services::sync;
use crate::services::sync::FactsRow;
use crate::text;
use vstd::prelude::*;

verus! {

/// The facts of a row.
pub open spec fn facts_of(row: FactsRow) -> Facts {
    <Facts as vstd::std_specs::convert::FromSpec<FactsRow>>::from_spec(row)
}

/// The facts of a row hold, for every target, the column that is named after it.
pub proof fn law_facts_come_from_the_columns_of_their_names(row: FactsRow, now: Timestamp)
    ensures
        condition_eval::fact(ConditionTarget::IsSupporter, facts_of(row), now) == Fact::Flag(row.is_supporter),
        condition_eval::fact(ConditionTarget::IsActive, facts_of(row), now) == Fact::Flag(row.is_active),
        condition_eval::fact(ConditionTarget::IsRestricted, facts_of(row), now) == Fact::Flag(row.is_restricted),
        condition_eval::fact(ConditionTarget::HasBadge, facts_of(row), now) == Fact::Flag(row.has_badge),
        condition_eval::fact(ConditionTarget::HasGroupBadge, facts_of(row), now) == Fact::Flag(row.has_group_badge),
        condition_eval::fact(ConditionTarget::BadgeCount, facts_of(row), now) == Fact::Number(Some(row.badge_count as int)),
        condition_eval::fact(ConditionTarget::FollowerCount, facts_of(row), now) == Fact::Number(Some(row.follower_count as int)),
        condition_eval::fact(ConditionTarget::MappingSubscribers, facts_of(row), now) == Fact::Number(Some(row.mapping_subscribers as int)),
        condition_eval::fact(ConditionTarget::Kudosu, facts_of(row), now) == Fact::Number(Some(row.kudosu as int)),
        condition_eval::fact(ConditionTarget::RankedBeatmaps, facts_of(row), now) == Fact::Number(Some(row.ranked_beatmaps as int)),
        condition_eval::fact(ConditionTarget::LovedBeatmaps, facts_of(row), now) == Fact::Number(Some(row.loved_beatmaps as int)),
        condition_eval::fact(ConditionTarget::MappingPlaycount, facts_of(row), now) == Fact::Number(Some(row.mapping_playcount as int)),
        condition_eval::fact(ConditionTarget::ReplaysWatchedByOthers, facts_of(row), now) == Fact::Number(Some(row.replays_watched_by_others as int)),
        condition_eval::fact(ConditionTarget::FavouriteCount, facts_of(row), now) == Fact::Number(Some(row.favourite_count as int)),
        condition_eval::fact(ConditionTarget::CountryCode, facts_of(row), now) == Fact::Text(text::opt_view(row.country_code)),
        condition_eval::fact(ConditionTarget::Username, facts_of(row), now) == Fact::Text(Some(row.username@)),
        condition_eval::fact(ConditionTarget::GroupName, facts_of(row), now) == Fact::Texts(text::views(row.groups@)),
        condition_eval::fact(ConditionTarget::Playstyle, facts_of(row), now) == Fact::Texts(text::views(row.playstyles@)),
        condition_eval::fact(ConditionTarget::GlobalRank, facts_of(row), now) == Fact::Number(
            match row.global_rank {
                Some(n) => Some(n as int),
                None => None,
            },
        ),
        condition_eval::fact(ConditionTarget::CountryRank, facts_of(row), now) == Fact::Number(
            match row.country_rank {
                Some(n) => Some(n as int),
                None => None,
            },
        ),
        condition_eval::fact(ConditionTarget::PerformancePoints, facts_of(row), now) == Fact::Number(Some(row.performance_points as int)),
        condition_eval::fact(ConditionTarget::PlayCount, facts_of(row), now) == Fact::Number(Some(row.play_count as int)),
        condition_eval::fact(ConditionTarget::PlayTimeHours, facts_of(row), now) == Fact::Number(Some(row.play_time_hours as int)),
        condition_eval::fact(ConditionTarget::TotalScore, facts_of(row), now) == Fact::Number(Some(row.total_score as int)),
        condition_eval::fact(ConditionTarget::RankedScore, facts_of(row), now) == Fact::Number(Some(row.ranked_score as int)),
        condition_eval::fact(ConditionTarget::HitAccuracy, facts_of(row), now) == Fact::Number(Some(row.hit_accuracy as int)),
        condition_eval::fact(ConditionTarget::MaxCombo, facts_of(row), now) == Fact::Number(Some(row.max_combo as int)),
        condition_eval::fact(ConditionTarget::LevelInt, facts_of(row), now) == Fact::Number(Some(row.level_int as int)),
        condition_eval::fact(ConditionTarget::SsCount, facts_of(row), now) == Fact::Number(Some(row.ss_count as int)),
        condition_eval::fact(ConditionTarget::SCount, facts_of(row), now) == Fact::Number(Some(row.s_count as int)),
        condition_eval::fact(ConditionTarget::ACount, facts_of(row), now) == Fact::Number(Some(row.a_count as int)),
        facts_of(row).osu_joined_at == Some(row.osu_joined_at),
        facts_of(row).last_visit_at == row.last_visit_at,
        condition_eval::fact(ConditionTarget::AccountAgeDays, facts_of(row), now) matches
            Fact::Number(Some(days)) && condition_eval::is_age_in_days(
            now,
            row.osu_joined_at,
            days,
        ),
        match row.last_visit_at {
            Some(then) => condition_eval::fact(
                ConditionTarget::DaysSinceLastVisit,
                facts_of(row),
                now,
            ) matches Fact::Number(Some(days)) && condition_eval::is_age_in_days(now, then, days),
            None => condition_eval::fact(ConditionTarget::DaysSinceLastVisit, facts_of(row), now)
                == Fact::Number(None),
        },
{
    condition_eval::lemma_age(
        now,
        row.osu_joined_at,
        crate::clock::days_between(now, row.osu_joined_at),
    );
    if let Some(then) = row.last_visit_at {
        condition_eval::lemma_age(now, then, crate::clock::days_between(now, then));
    }
}

/// The expression that [`sync::FACTS_SELECT`] reads a target by.
pub open spec fn select_term(target: ConditionTarget) -> Term {
    match target {
        ConditionTarget::IsSupporter => sql::column("ou.is_supporter"@),
        ConditionTarget::IsActive => sql::column("ou.is_active"@),
        ConditionTarget::IsRestricted => sql::column("ou.is_restricted"@),
        ConditionTarget::AccountAgeDays => sql::column("ou.osu_joined_at"@),
        ConditionTarget::DaysSinceLastVisit => sql::column("ou.last_visit_at"@),
        _ => sql::term_of(target),
    }
}

/// What a row of [`sync::FACTS_SELECT`] holds under the name of a target.
pub open spec fn row_cell(target: ConditionTarget, row: FactsRow) -> Cell {
    match target {
        ConditionTarget::IsSupporter => Cell::Bool(row.is_supporter),
        ConditionTarget::IsActive => Cell::Bool(row.is_active),
        ConditionTarget::IsRestricted => Cell::Bool(row.is_restricted),
        ConditionTarget::HasBadge => Cell::Bool(row.has_badge),
        ConditionTarget::HasGroupBadge => Cell::Bool(row.has_group_badge),
        ConditionTarget::AccountAgeDays => Cell::Instant(row.osu_joined_at),
        ConditionTarget::DaysSinceLastVisit => sql::instant_cell(row.last_visit_at),
        ConditionTarget::BadgeCount => Cell::Int(row.badge_count as int),
        ConditionTarget::FollowerCount => Cell::Int(row.follower_count as int),
        ConditionTarget::MappingSubscribers => Cell::Int(row.mapping_subscribers as int),
        ConditionTarget::Kudosu => Cell::Int(row.kudosu as int),
        ConditionTarget::RankedBeatmaps => Cell::Int(row.ranked_beatmaps as int),
        ConditionTarget::LovedBeatmaps => Cell::Int(row.loved_beatmaps as int),
        ConditionTarget::MappingPlaycount => Cell::Int(row.mapping_playcount as int),
        ConditionTarget::ReplaysWatchedByOthers => Cell::Int(row.replays_watched_by_others as int),
        ConditionTarget::FavouriteCount => Cell::Int(row.favourite_count as int),
        ConditionTarget::CountryCode => sql::text_cell(row.country_code),
        ConditionTarget::Username => Cell::Text(row.username@),
        ConditionTarget::GroupName => Cell::Array(text::views(row.groups@)),
        ConditionTarget::Playstyle => Cell::Array(text::views(row.playstyles@)),
        ConditionTarget::GlobalRank => match row.global_rank {
            Some(n) => Cell::Int(n as int),
            None => Cell::Null,
        },
        ConditionTarget::CountryRank => match row.country_rank {
            Some(n) => Cell::Int(n as int),
            None => Cell::Null,
        },
        ConditionTarget::PerformancePoints => Cell::Int(row.performance_points as int),
        ConditionTarget::PlayCount => Cell::Int(row.play_count as int),
        ConditionTarget::PlayTimeHours => Cell::Int(row.play_time_hours as int),
        ConditionTarget::TotalScore => Cell::Int(row.total_score as int),
        ConditionTarget::RankedScore => Cell::Int(row.ranked_score as int),
        ConditionTarget::HitAccuracy => Cell::Int(row.hit_accuracy as int),
        ConditionTarget::MaxCombo => Cell::Int(row.max_combo as int),
        ConditionTarget::LevelInt => Cell::Int(row.level_int as int),
        ConditionTarget::SsCount => Cell::Int(row.ss_count as int),
        ConditionTarget::SCount => Cell::Int(row.s_count as int),
        ConditionTarget::ACount => Cell::Int(row.a_count as int),
    }
}

/// True when a row is what [`sync::FACTS_SELECT`] makes of a row of the database.
pub open spec fn selected_from(row: FactsRow, columns: Columns, now: Timestamp) -> bool {
    forall|target: ConditionTarget|
        row_cell(target, row) == #[trigger] sql::yields(select_term(target), columns, now)
}

/// [`sync::FACTS_SELECT`] selects, under the name of each target, the writing of the
/// expression that the target is read by; scores are read as large integers. The
/// WHERE clauses read flags off the same columns, with false in place of NULL, and
/// ages as the whole days since the same instants.
pub proof fn law_the_selected_columns_are_those_of_the_clauses(target: ConditionTarget)
    ensures
        sync::selects_as(
            sync::FACTS_SELECT@,
            if target is TotalScore || target is RankedScore {
                sql::written(select_term(target)) + "::bigint"@
            } else {
                sql::written(select_term(target))
            },
            sync::selected_name(target),
        ),
        target is IsSupporter || target is IsActive || target is IsRestricted ==> rule_sql::expr(
            target,
        ) == sql::written(sql::or_false(select_term(target))),
        target is AccountAgeDays || target is DaysSinceLastVisit ==> rule_sql::expr(target)
            == sql::written(sql::periods_since(select_term(target), 24 * 60 * 60)),
{
    sync::law_facts_are_selected_as_the_clauses_read_them(target);
    sql::law_expressions_are_written_as_meant(target);
    reveal(sql::term_of);
}

/// What is selected of a target says what its columns hold.
#[verifier::spinoff_prover]
proof fn lemma_selected(target: ConditionTarget, row: FactsRow, columns: Columns, now: Timestamp)
    requires
        row_cell(target, row) == sql::yields(select_term(target), columns, now),
    ensures
        match target {
            ConditionTarget::IsSupporter => sql::holds_flag(columns("ou.is_supporter"@), row.is_supporter),
            ConditionTarget::IsActive => sql::holds_flag(columns("ou.is_active"@), row.is_active),
            ConditionTarget::IsRestricted => sql::holds_flag(columns("ou.is_restricted"@), row.is_restricted),
            ConditionTarget::HasBadge => row.has_badge == match columns("ou.badge_count"@) {
                Cell::Int(n) => n > 0,
                _ => false,
            } && (columns("ou.badge_count"@) is Int || columns("ou.badge_count"@) is Null),
            ConditionTarget::HasGroupBadge => columns("ou.groups"@) matches Cell::Array(list) ==> row.has_group_badge == (list.len()
                > 0),
            ConditionTarget::AccountAgeDays => columns("ou.osu_joined_at"@) == row_cell(target, row),
            ConditionTarget::DaysSinceLastVisit => columns("ou.last_visit_at"@) == row_cell(target, row),
            ConditionTarget::BadgeCount => sql::holds_number(columns("ou.badge_count"@), row.badge_count as i64),
            ConditionTarget::FollowerCount => sql::holds_number(columns("ou.follower_count"@), row.follower_count as i64),
            ConditionTarget::MappingSubscribers => sql::holds_number(columns("ou.mapping_followers"@), row.mapping_subscribers as i64),
            ConditionTarget::Kudosu => sql::holds_number(columns("ou.kudosu_total"@), row.kudosu as i64),
            ConditionTarget::RankedBeatmaps => sql::holds_number(columns("ou.ranked_beatmaps"@), row.ranked_beatmaps as i64),
            ConditionTarget::LovedBeatmaps => sql::holds_number(columns("ou.loved_beatmaps"@), row.loved_beatmaps as i64),
            ConditionTarget::MappingPlaycount => sql::holds_number(columns("ou.mapping_playcount"@), row.mapping_playcount as i64),
            ConditionTarget::ReplaysWatchedByOthers => sql::holds_number(columns("ou.replays_watched_others"@), row.replays_watched_by_others as i64),
            ConditionTarget::FavouriteCount => sql::holds_number(columns("ou.favourite_beatmapsets"@), row.favourite_count as i64),
            ConditionTarget::CountryCode => columns("ou.country_code"@) == row_cell(target, row),
            ConditionTarget::Username => columns("ou.osu_username"@) == row_cell(target, row),
            ConditionTarget::GroupName => columns("ou.groups"@) == row_cell(target, row),
            ConditionTarget::Playstyle => columns("ou.playstyles"@) == row_cell(target, row),
            ConditionTarget::GlobalRank => columns("os.global_rank"@) == row_cell(target, row),
            ConditionTarget::CountryRank => columns("os.country_rank"@) == row_cell(target, row),
            ConditionTarget::PerformancePoints => sql::holds_number(columns("os.performance_points"@), row.performance_points as i64),
            ConditionTarget::PlayCount => sql::holds_number(columns("os.play_count"@), row.play_count as i64),
            ConditionTarget::PlayTimeHours => sql::holds_number(columns("os.play_time_hours"@), row.play_time_hours as i64),
            ConditionTarget::TotalScore => sql::holds_number(columns("os.total_score"@), row.total_score as i64),
            ConditionTarget::RankedScore => sql::holds_number(columns("os.ranked_score"@), row.ranked_score as i64),
            ConditionTarget::HitAccuracy => sql::holds_number(columns("os.hit_accuracy"@), row.hit_accuracy as i64),
            ConditionTarget::MaxCombo => sql::holds_number(columns("os.max_combo"@), row.max_combo as i64),
            ConditionTarget::LevelInt => sql::holds_number(columns("os.level_int"@), row.level_int as i64),
            ConditionTarget::SsCount => sql::holds_parts(
                columns("os.count_ss"@),
                columns("os.count_ss_silver"@),
                row.ss_count as i64,
            ),
            ConditionTarget::SCount => sql::holds_parts(
                columns("os.count_s"@),
                columns("os.count_s_silver"@),
                row.s_count as i64,
            ),
            ConditionTarget::ACount => sql::holds_number(columns("os.count_a"@), row.a_count as i64),
        },
{
    reveal(sql::term_of);
    match target {
        ConditionTarget::IsSupporter => {
            assert(sql::yields(sql::column("ou.is_supporter"@), columns, now) == columns("ou.is_supporter"@));
        },
        ConditionTarget::IsActive => {
            assert(sql::yields(sql::column("ou.is_active"@), columns, now) == columns("ou.is_active"@));
        },
        ConditionTarget::IsRestricted => {
            assert(sql::yields(sql::column("ou.is_restricted"@), columns, now) == columns("ou.is_restricted"@));
        },
        ConditionTarget::HasBadge => {
            assert(sql::yields(sql::column("ou.badge_count"@), columns, now) == columns("ou.badge_count"@));
            let count = sql::or_zero(sql::column("ou.badge_count"@));
            assert(sql::yields(sql::positive(count), columns, now) == match sql::yields(count, columns, now) {
                Cell::Int(n) => Cell::Bool(n > 0),
                _ => Cell::Null,
            });
        },
        ConditionTarget::HasGroupBadge => {
            assert(sql::yields(sql::column("ou.groups"@), columns, now) == columns("ou.groups"@));
            let size = sql::length(sql::column("ou.groups"@));
            let count = sql::or_zero(size);
            assert(sql::yields(count, columns, now) == match sql::yields(size, columns, now) {
                Cell::Null => Cell::Int(0),
                value => value,
            });
            assert(sql::yields(sql::positive(count), columns, now) == match sql::yields(count, columns, now) {
                Cell::Int(n) => Cell::Bool(n > 0),
                _ => Cell::Null,
            });
        },
        ConditionTarget::AccountAgeDays => {
            assert(sql::yields(sql::column("ou.osu_joined_at"@), columns, now) == columns("ou.osu_joined_at"@));
        },
        ConditionTarget::DaysSinceLastVisit => {
            assert(sql::yields(sql::column("ou.last_visit_at"@), columns, now) == columns("ou.last_visit_at"@));
        },
        ConditionTarget::BadgeCount => {
            assert(sql::yields(sql::column("ou.badge_count"@), columns, now) == columns("ou.badge_count"@));
        },
        ConditionTarget::FollowerCount => {
            assert(sql::yields(sql::column("ou.follower_count"@), columns, now) == columns("ou.follower_count"@));
        },
        ConditionTarget::MappingSubscribers => {
            assert(sql::yields(sql::column("ou.mapping_followers"@), columns, now) == columns("ou.mapping_followers"@));
        },
        ConditionTarget::Kudosu => {
            assert(sql::yields(sql::column("ou.kudosu_total"@), columns, now) == columns("ou.kudosu_total"@));
        },
        ConditionTarget::RankedBeatmaps => {
            assert(sql::yields(sql::column("ou.ranked_beatmaps"@), columns, now) == columns("ou.ranked_beatmaps"@));
        },
        ConditionTarget::LovedBeatmaps => {
            assert(sql::yields(sql::column("ou.loved_beatmaps"@), columns, now) == columns("ou.loved_beatmaps"@));
        },
        ConditionTarget::MappingPlaycount => {
            assert(sql::yields(sql::column("ou.mapping_playcount"@), columns, now) == columns("ou.mapping_playcount"@));
        },
        ConditionTarget::ReplaysWatchedByOthers => {
            assert(sql::yields(sql::column("ou.replays_watched_others"@), columns, now) == columns("ou.replays_watched_others"@));
        },
        ConditionTarget::FavouriteCount => {
            assert(sql::yields(sql::column("ou.favourite_beatmapsets"@), columns, now) == columns("ou.favourite_beatmapsets"@));
        },
        ConditionTarget::CountryCode => {
            assert(sql::yields(sql::column("ou.country_code"@), columns, now) == columns("ou.country_code"@));
        },
        ConditionTarget::Username => {
            assert(sql::yields(sql::column("ou.osu_username"@), columns, now) == columns("ou.osu_username"@));
        },
        ConditionTarget::GroupName => {
            assert(sql::yields(sql::column("ou.groups"@), columns, now) == columns("ou.groups"@));
        },
        ConditionTarget::Playstyle => {
            assert(sql::yields(sql::column("ou.playstyles"@), columns, now) == columns("ou.playstyles"@));
        },
        ConditionTarget::GlobalRank => {
            assert(sql::yields(sql::column("os.global_rank"@), columns, now) == columns("os.global_rank"@));
        },
        ConditionTarget::CountryRank => {
            assert(sql::yields(sql::column("os.country_rank"@), columns, now) == columns("os.country_rank"@));
        },
        ConditionTarget::PerformancePoints => {
            assert(sql::yields(sql::column("os.performance_points"@), columns, now) == columns("os.performance_points"@));
        },
        ConditionTarget::PlayCount => {
            assert(sql::yields(sql::column("os.play_count"@), columns, now) == columns("os.play_count"@));
        },
        ConditionTarget::PlayTimeHours => {
            assert(sql::yields(sql::column("os.play_time_hours"@), columns, now) == columns("os.play_time_hours"@));
        },
        ConditionTarget::TotalScore => {
            assert(sql::yields(sql::column("os.total_score"@), columns, now) == columns("os.total_score"@));
        },
        ConditionTarget::RankedScore => {
            assert(sql::yields(sql::column("os.ranked_score"@), columns, now) == columns("os.ranked_score"@));
        },
        ConditionTarget::HitAccuracy => {
            assert(sql::yields(sql::column("os.hit_accuracy"@), columns, now) == columns("os.hit_accuracy"@));
        },
        ConditionTarget::MaxCombo => {
            assert(sql::yields(sql::column("os.max_combo"@), columns, now) == columns("os.max_combo"@));
        },
        ConditionTarget::LevelInt => {
            assert(sql::yields(sql::column("os.level_int"@), columns, now) == columns("os.level_int"@));
        },
        ConditionTarget::SsCount => {
            assert(sql::yields(sql::column("os.count_ss"@), columns, now) == columns("os.count_ss"@));
            assert(sql::yields(sql::column("os.count_ss_silver"@), columns, now) == columns("os.count_ss_silver"@));
            let whole = sql::sum(sql::column("os.count_ss"@), sql::column("os.count_ss_silver"@));
            assert(sql::yields(whole, columns, now) is Null || sql::yields(whole, columns, now) is Int);
        },
        ConditionTarget::SCount => {
            assert(sql::yields(sql::column("os.count_s"@), columns, now) == columns("os.count_s"@));
            assert(sql::yields(sql::column("os.count_s_silver"@), columns, now) == columns("os.count_s_silver"@));
            let whole = sql::sum(sql::column("os.count_s"@), sql::column("os.count_s_silver"@));
            assert(sql::yields(whole, columns, now) is Null || sql::yields(whole, columns, now) is Int);
        },
        ConditionTarget::ACount => {
            assert(sql::yields(sql::column("os.count_a"@), columns, now) == columns("os.count_a"@));
        },
    }
}

/// The row that the sync of a player reads holds the facts of the row of the
/// database that it was selected from.
#[verifier::rlimit(60)]
#[verifier::spinoff_prover]
pub proof fn law_selected_rows_hold_the_facts(row: FactsRow, columns: Columns, now: Timestamp)
    requires
        selected_from(row, columns, now),
    ensures
        sql::row_of(columns, facts_of(row)),
{
    reveal(sql::row_of);
    assert(text::views(row.groups@).len() == row.groups@.len());
    lemma_selected(ConditionTarget::IsSupporter, row, columns, now);
    lemma_selected(ConditionTarget::IsActive, row, columns, now);
    lemma_selected(ConditionTarget::IsRestricted, row, columns, now);
    lemma_selected(ConditionTarget::HasBadge, row, columns, now);
    lemma_selected(ConditionTarget::HasGroupBadge, row, columns, now);
    lemma_selected(ConditionTarget::AccountAgeDays, row, columns, now);
    lemma_selected(ConditionTarget::DaysSinceLastVisit, row, columns, now);
    lemma_selected(ConditionTarget::BadgeCount, row, columns, now);
    lemma_selected(ConditionTarget::FollowerCount, row, columns, now);
    lemma_selected(ConditionTarget::MappingSubscribers, row, columns, now);
    lemma_selected(ConditionTarget::Kudosu, row, columns, now);
    lemma_selected(ConditionTarget::RankedBeatmaps, row, columns, now);
    lemma_selected(ConditionTarget::LovedBeatmaps, row, columns, now);
    lemma_selected(ConditionTarget::MappingPlaycount, row, columns, now);
    lemma_selected(ConditionTarget::ReplaysWatchedByOthers, row, columns, now);
    lemma_selected(ConditionTarget::FavouriteCount, row, columns, now);
    lemma_selected(ConditionTarget::CountryCode, row, columns, now);
    lemma_selected(ConditionTarget::Username, row, columns, now);
    lemma_selected(ConditionTarget::GroupName, row, columns, now);
    lemma_selected(ConditionTarget::Playstyle, row, columns, now);
    lemma_selected(ConditionTarget::GlobalRank, row, columns, now);
    lemma_selected(ConditionTarget::CountryRank, row, columns, now);
    lemma_selected(ConditionTarget::PerformancePoints, row, columns, now);
    lemma_selected(ConditionTarget::PlayCount, row, columns, now);
    lemma_selected(ConditionTarget::PlayTimeHours, row, columns, now);
    lemma_selected(ConditionTarget::TotalScore, row, columns, now);
    lemma_selected(ConditionTarget::RankedScore, row, columns, now);
    lemma_selected(ConditionTarget::HitAccuracy, row, columns, now);
    lemma_selected(ConditionTarget::MaxCombo, row, columns, now);
    lemma_selected(ConditionTarget::LevelInt, row, columns, now);
    lemma_selected(ConditionTarget::SsCount, row, columns, now);
    lemma_selected(ConditionTarget::SCount, row, columns, now);
    lemma_selected(ConditionTarget::ACount, row, columns, now);
}

/// The two syncs agree on every row of the database: the WHERE clause of a role link
/// is the writing of a condition that is true of the row exactly when the sync of
/// the player who it belongs to finds that they qualify.
pub proof fn law_both_syncs_decide_a_row_alike(
    tree: RuleTree,
    before: Seq<Param>,
    after: Seq<Param>,
    columns: Columns,
    row: FactsRow,
    now: Timestamp,
    regex: spec_fn(Seq<char>, Seq<char>) -> bool,
) -> (formula: Formula)
    requires
        tree.conditions_well_formed(),
        selected_from(row, columns, now),
        forall|g: int, k: int|
            0 <= g < tree.groups@.len() && 0 <= k < tree.groups@[g].conditions@.len()
                ==> rule_meaning::comparable(
                #[trigger] tree.groups@[g].conditions@[k],
                facts_of(row),
                now,
                regex,
            ),
    ensures
        rule_sql::where_text(tree, before.len()) == sql::spelled(formula),
        sql::unambiguous(formula),
        (sql::decided(
            formula,
            columns,
            before + rule_sql::where_params(tree) + after,
            now,
            regex,
        ) == Some(true)) == sync::factual_verdict(tree, Some(row), now),
{
    law_selected_rows_hold_the_facts(row, columns, now);
    sql::law_where_text_selects_whom_the_evaluator_accepts(
        tree,
        before,
        after,
        columns,
        facts_of(row),
        now,
        regex,
    )
}

/// The query of a role link joins the stats in the mode of its rule, keeps the rows of
/// the members whom the evaluator accepts, each player once and in order, and as many
/// as RoleLogic takes. A blanket grant keeps every member who has a row at all.
pub proof fn law_qualifying_query_keeps_the_members_who_qualify(
    tree: RuleTree,
    member_ids: Seq<Seq<char>>,
    limit: usize,
    columns: Columns,
    id: Seq<char>,
    f: Facts,
    now: Timestamp,
    regex: spec_fn(Seq<char>, Seq<char>) -> bool,
) -> (r: (Formula, Formula, nat))
    requires
        tree.conditions_well_formed(),
        sql::row_of(columns, f),
        columns("ou.discord_id"@) == Cell::Text(id),
        columns("discord_id"@) == Cell::Text(id),
        limit <= i64::MAX,
        forall|g: int, k: int|
            0 <= g < tree.groups@.len() && 0 <= k < tree.groups@[g].conditions@.len()
                ==> rule_meaning::comparable(
                #[trigger] tree.groups@[g].conditions@[k],
                f,
                now,
                regex,
            ),
    ensures
        ({
            let (join, kept, n) = r;
            let params = sync::qualifying_params(tree, member_ids, limit);
            &&& sync::qualifying_sql(tree) == if tree.grant_on_any_player {
                "SELECT discord_id FROM osu_users WHERE "@ + sql::spelled(kept)
                    + " ORDER BY discord_id LIMIT "@ + sql::placed(Place::Plain(n))
            } else {
                "SELECT DISTINCT ou.discord_id FROM osu_users ou LEFT JOIN osu_stats os ON os.osu_user_id = ou.osu_user_id AND "@
                    + sql::spelled(join) + " WHERE "@ + sql::spelled(kept)
                    + " ORDER BY ou.discord_id LIMIT "@ + sql::placed(Place::Plain(n))
            }
            &&& sql::unambiguous(join) && sql::binding(join) > 1
            &&& sql::unambiguous(kept)
            &&& !tree.grant_on_any_player ==> forall|other: Columns|
                sql::decided(join, other, params, now, regex) == Some(true) <==> #[trigger] other(
                    "os.mode"@,
                ) == Cell::Text(tree.default_mode.key())
            &&& (sql::decided(kept, columns, params, now, regex) == Some(true)) == (
            member_ids.contains(id) && condition_eval::tree_matches(tree, f, now))
            &&& n == params.len()
            &&& params[n - 1] == Param::Int(limit as i64)
            &&& limit as i64 == limit
        }),
{
    let params = sync::qualifying_params(tree, member_ids, limit);
    if tree.grant_on_any_player {
        let kept = Formula::Test(sql::column("discord_id"@), Op::Equal, Place::AnyOf(1));
        let join = Formula::Constant(true);
        reveal_with_fuel(text::dec, 2);
        reveal_strlit(
            "SELECT discord_id FROM osu_users WHERE discord_id = ANY($1::text[]) ORDER BY discord_id LIMIT $2",
        );
        reveal_strlit("SELECT discord_id FROM osu_users WHERE ");
        reveal_strlit("discord_id");
        reveal_strlit(" = ");
        reveal_strlit("ANY($");
        reveal_strlit("::text[])");
        reveal_strlit(" ORDER BY discord_id LIMIT ");
        reveal_strlit("$");
        assert(sync::qualifying_sql(tree) =~= "SELECT discord_id FROM osu_users WHERE "@
            + sql::spelled(kept) + " ORDER BY discord_id LIMIT "@ + sql::placed(Place::Plain(2)));
        assert(sql::yields(sql::column("discord_id"@), columns, now) == columns("discord_id"@));
        assert(sql::decided(kept, columns, params, now, regex) == Some(member_ids.contains(id)));
        assert(params.len() == 2 && params[1] == Param::Int(limit as i64));
        (join, kept, 2)
    } else {
        let before = seq![Param::Text(tree.default_mode.key()), Param::TextArray(member_ids)];
        let after = seq![Param::Int(limit as i64)];
        let rule = sql::law_where_text_selects_whom_the_evaluator_accepts(
            tree,
            before,
            after,
            columns,
            f,
            now,
            regex,
        );
        let n = params.len();
        let join = Formula::Test(sql::column("os.mode"@), Op::Equal, Place::Plain(1));
        let member = Formula::Test(sql::column("ou.discord_id"@), Op::Equal, Place::AnyOf(2));
        let kept = sql::and(member, sql::brackets(rule));
        assert(params[0] == before[0] && params[1] == before[1]);
        sql::lemma_connectives(member, sql::brackets(rule), columns, params, now, regex);
        sql::lemma_connectives(rule, rule, columns, params, now, regex);
        lemma_query_text(rule_sql::where_text(tree, 2), text::dec(n));
        assert(sql::spelled(sql::brackets(rule)) == "("@ + sql::spelled(rule) + ")"@);
        assert(sql::spelled(kept) == sql::spelled(member) + " AND "@ + sql::spelled(
            sql::brackets(rule),
        ));
        assert(sql::unambiguous(sql::brackets(rule)));
        assert forall|other: Columns| sql::decided(join, other, params, now, regex) == Some(true)
            <==> #[trigger] other("os.mode"@) == Cell::Text(tree.default_mode.key()) by {
            assert(sql::yields(sql::column("os.mode"@), other, now) == other("os.mode"@));
        }
        assert(sql::yields(sql::column("ou.discord_id"@), columns, now) == columns(
            "ou.discord_id"@,
        ));
        assert(sql::decided(member, columns, params, now, regex) == Some(member_ids.contains(id)));
        assert(params =~= before + rule_sql::where_params(tree) + after);
        assert((sql::decided(kept, columns, params, now, regex) == Some(true)) == (
        member_ids.contains(id) && condition_eval::tree_matches(tree, f, now)));
        assert(sync::qualifying_sql(tree) == sync::selected_sql(
            rule_sql::where_text(tree, 2),
            n,
        ));
        assert(sql::unambiguous(member));
        assert(sql::unambiguous(kept));
        assert(params[n - 1] == Param::Int(limit as i64));
        (join, kept, n)
    }
}

proof fn lemma_query_text(clause: Seq<char>, n: Seq<char>)
    ensures
        "SELECT DISTINCT ou.discord_id FROM osu_users ou LEFT JOIN osu_stats os ON os.osu_user_id = ou.osu_user_id AND os.mode = $1 WHERE ou.discord_id = ANY($2::text[]) AND ("@
            + clause + ") ORDER BY ou.discord_id LIMIT $"@ + n
            == "SELECT DISTINCT ou.discord_id FROM osu_users ou LEFT JOIN osu_stats os ON os.osu_user_id = ou.osu_user_id AND "@
            + sql::spelled(Formula::Test(sql::column("os.mode"@), Op::Equal, Place::Plain(1)))
            + " WHERE "@ + (sql::spelled(
            Formula::Test(sql::column("ou.discord_id"@), Op::Equal, Place::AnyOf(2)),
        ) + " AND "@ + ("("@ + clause + ")"@)) + " ORDER BY ou.discord_id LIMIT "@ + ("$"@ + n),
{
    let head =
        "SELECT DISTINCT ou.discord_id FROM osu_users ou LEFT JOIN osu_stats os ON os.osu_user_id = ou.osu_user_id AND "@;
    let join = sql::spelled(Formula::Test(sql::column("os.mode"@), Op::Equal, Place::Plain(1)));
    let member = sql::spelled(
        Formula::Test(sql::column("ou.discord_id"@), Op::Equal, Place::AnyOf(2)),
    );
    reveal_with_fuel(text::dec, 2);
    reveal_strlit(
        "SELECT DISTINCT ou.discord_id FROM osu_users ou LEFT JOIN osu_stats os ON os.osu_user_id = ou.osu_user_id AND os.mode = $1 WHERE ou.discord_id = ANY($2::text[]) AND (",
    );
    reveal_strlit(
        "SELECT DISTINCT ou.discord_id FROM osu_users ou LEFT JOIN osu_stats os ON os.osu_user_id = ou.osu_user_id AND ",
    );
    reveal_strlit("os.mode");
    reveal_strlit("ou.discord_id");
    reveal_strlit(" = ");
    reveal_strlit("ANY($");
    reveal_strlit("::text[])");
    reveal_strlit("$");
    reveal_strlit("(");
    reveal_strlit(")");
    reveal_strlit(" WHERE ");
    reveal_strlit(" AND ");
    reveal_strlit(") ORDER BY ou.discord_id LIMIT $");
    reveal_strlit(" ORDER BY ou.discord_id LIMIT ");
    assert("SELECT DISTINCT ou.discord_id FROM osu_users ou LEFT JOIN osu_stats os ON os.osu_user_id = ou.osu_user_id AND os.mode = $1 WHERE ou.discord_id = ANY($2::text[]) AND ("@
        =~= head + join + " WHERE "@ + member + " AND "@ + "("@);
    assert(") ORDER BY ou.discord_id LIMIT $"@ =~= ")"@ + " ORDER BY ou.discord_id LIMIT "@ + "$"@);
    assert(head + join + " WHERE "@ + member + " AND "@ + "("@ + clause + (")"@
        + " ORDER BY ou.discord_id LIMIT "@ + "$"@) + n =~= head + join + " WHERE "@ + (member
        + " AND "@ + ("("@ + clause + ")"@)) + " ORDER BY ou.discord_id LIMIT "@ + ("$"@ + n));
}

/// The facts of a player are selected off the same two tables as the query of a role
/// link, joined alike: the stats are those in the mode of the second parameter, and the
/// player is that of the first.
pub proof fn law_facts_are_those_of_one_player_in_one_mode()
    ensures
        exists|head: Seq<char>|
            sync::FACTS_SELECT@ == #[trigger] (head
                + (" FROM osu_users ou LEFT JOIN osu_stats os ON os.osu_user_id = ou.osu_user_id AND "@
                + sql::spelled(Formula::Test(sql::column("os.mode"@), Op::Equal, Place::Plain(2)))
                + " WHERE "@ + sql::spelled(
                Formula::Test(sql::column("ou.discord_id"@), Op::Equal, Place::Plain(1)),
            ))),
{
    let tail =
        " FROM osu_users ou LEFT JOIN osu_stats os ON os.osu_user_id = ou.osu_user_id AND "@
        + sql::spelled(Formula::Test(sql::column("os.mode"@), Op::Equal, Place::Plain(2)))
        + " WHERE "@ + sql::spelled(
        Formula::Test(sql::column("ou.discord_id"@), Op::Equal, Place::Plain(1)),
    );
    reveal_with_fuel(text::dec, 2);
    reveal_strlit(
        "SELECT ou.is_supporter                        AS is_supporter, ou.is_active                           AS is_active, ou.is_restricted                       AS is_restricted, (COALESCE(ou.badge_count, 0) > 0)      AS has_badge, (COALESCE(array_length(ou.groups, 1), 0) > 0) AS has_group_badge, ou.osu_joined_at                       AS osu_joined_at, ou.last_visit_at                       AS last_visit_at, COALESCE(ou.badge_count, 0)            AS badge_count, COALESCE(ou.follower_count, 0)         AS follower_count, COALESCE(ou.mapping_followers, 0)      AS mapping_subscribers, COALESCE(ou.kudosu_total, 0)           AS kudosu, COALESCE(ou.ranked_beatmaps, 0)        AS ranked_beatmaps, COALESCE(ou.loved_beatmaps, 0)         AS loved_beatmaps, COALESCE(ou.mapping_playcount, 0)      AS mapping_playcount, COALESCE(ou.replays_watched_others, 0) AS replays_watched_by_others, COALESCE(ou.favourite_beatmapsets, 0)  AS favourite_count, ou.country_code                        AS country_code, ou.osu_username                        AS username, ou.groups                              AS groups, ou.playstyles                          AS playstyles, os.global_rank                         AS global_rank, os.country_rank                        AS country_rank, COALESCE(os.performance_points, 0)     AS performance_points, COALESCE(os.play_count, 0)             AS play_count, COALESCE(os.play_time_hours, 0)        AS play_time_hours, COALESCE(os.total_score, 0)::bigint    AS total_score, COALESCE(os.ranked_score, 0)::bigint   AS ranked_score, COALESCE(os.hit_accuracy, 0)           AS hit_accuracy, COALESCE(os.max_combo, 0)              AS max_combo, COALESCE(os.level_int, 0)              AS level_int, COALESCE(os.count_ss + os.count_ss_silver, 0) AS ss_count, COALESCE(os.count_s + os.count_s_silver, 0)   AS s_count, COALESCE(os.count_a, 0)                AS a_count FROM osu_users ou LEFT JOIN osu_stats os ON os.osu_user_id = ou.osu_user_id AND os.mode = $2 WHERE ou.discord_id = $1",
    );
    reveal_strlit(
        " FROM osu_users ou LEFT JOIN osu_stats os ON os.osu_user_id = ou.osu_user_id AND ",
    );
    reveal_strlit("os.mode");
    reveal_strlit("ou.discord_id");
    reveal_strlit(" = ");
    reveal_strlit("$");
    reveal_strlit(" WHERE ");
    let head = sync::FACTS_SELECT@.take(1875);
    assert(sync::FACTS_SELECT@.skip(1875) =~= tail);
    assert(sync::FACTS_SELECT@ =~= head + tail);
}

} // verus!
