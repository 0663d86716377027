//! Sync engine: per-player (lightweight) and per-role-link (bulk).
//!
//! Each sync is a machine. [`PlayerSync`] and [`RoleLinkSync`] hold how far a
//! sync has come; a step takes what the last request brought back and says what
//! to do next. The caller performs the requests.
//!
//! - Guild membership comes from the Auth Gateway `/auth/internal/*`,
//!   never a local JOIN.
//! - Gateway HTTP failures end the sync (the worker retries): a role is never
//!   cleared on a transient lookup failure.
//! - A `RoleLinkNotFound` from RoleLogic deletes the orphan local row
//!   instead of retrying forever (Convention 47).

use crate::clock;
use crate::error::AppError;
use crate::models::condition::ConditionTarget;
use crate::models::facts::{Facts, Timestamp};
use crate::models::mode::Mode;
use crate::models::rule::RuleTree;
use crate::services::condition_eval;
use crate::services::rule_meaning;
use crate::services::rule_sql;
use crate::services::rule_sql::{Bind, Param};
use crate::text;
use vstd::prelude::*;
use vstd::string::*;

verus! {

/// JOINs `osu_users` with the per-mode row of `osu_stats`. Mirrors
/// [`rule_sql::target_expr`] one-for-one: every column that it reads is produced
/// here, defaulted via COALESCE where the SQL expression COALESCEs.
pub const FACTS_SELECT: &'static str = "SELECT \
    ou.is_supporter                        AS is_supporter, \
    ou.is_active                           AS is_active, \
    ou.is_restricted                       AS is_restricted, \
    (COALESCE(ou.badge_count, 0) > 0)      AS has_badge, \
    (COALESCE(array_length(ou.groups, 1), 0) > 0) AS has_group_badge, \
    ou.osu_joined_at                       AS osu_joined_at, \
    ou.last_visit_at                       AS last_visit_at, \
    COALESCE(ou.badge_count, 0)            AS badge_count, \
    COALESCE(ou.follower_count, 0)         AS follower_count, \
    COALESCE(ou.mapping_followers, 0)      AS mapping_subscribers, \
    COALESCE(ou.kudosu_total, 0)           AS kudosu, \
    COALESCE(ou.ranked_beatmaps, 0)        AS ranked_beatmaps, \
    COALESCE(ou.loved_beatmaps, 0)         AS loved_beatmaps, \
    COALESCE(ou.mapping_playcount, 0)      AS mapping_playcount, \
    COALESCE(ou.replays_watched_others, 0) AS replays_watched_by_others, \
    COALESCE(ou.favourite_beatmapsets, 0)  AS favourite_count, \
    ou.country_code                        AS country_code, \
    ou.osu_username                        AS username, \
    ou.groups                              AS groups, \
    ou.playstyles                          AS playstyles, \
    os.global_rank                         AS global_rank, \
    os.country_rank                        AS country_rank, \
    COALESCE(os.performance_points, 0)     AS performance_points, \
    COALESCE(os.play_count, 0)             AS play_count, \
    COALESCE(os.play_time_hours, 0)        AS play_time_hours, \
    COALESCE(os.total_score, 0)::bigint    AS total_score, \
    COALESCE(os.ranked_score, 0)::bigint   AS ranked_score, \
    COALESCE(os.hit_accuracy, 0)           AS hit_accuracy, \
    COALESCE(os.max_combo, 0)              AS max_combo, \
    COALESCE(os.level_int, 0)              AS level_int, \
    COALESCE(os.count_ss + os.count_ss_silver, 0) AS ss_count, \
    COALESCE(os.count_s + os.count_s_silver, 0)   AS s_count, \
    COALESCE(os.count_a, 0)                AS a_count \
  FROM osu_users ou \
  LEFT JOIN osu_stats os \
    ON os.osu_user_id = ou.osu_user_id AND os.mode = $2 \
  WHERE ou.discord_id = $1";

/// The column off which [`FACTS_SELECT`] reads a target: the expression of the
/// target. Flags that are never NULL, and the instants that ages are counted from,
/// are read as they are stored. Scores are read as large integers.
pub open spec fn selected_expr(target: ConditionTarget) -> Seq<char> {
    match target {
        ConditionTarget::IsSupporter => "ou.is_supporter"@,
        ConditionTarget::IsActive => "ou.is_active"@,
        ConditionTarget::IsRestricted => "ou.is_restricted"@,
        ConditionTarget::AccountAgeDays => "ou.osu_joined_at"@,
        ConditionTarget::DaysSinceLastVisit => "ou.last_visit_at"@,
        ConditionTarget::TotalScore | ConditionTarget::RankedScore => rule_sql::expr(target)
            + "::bigint"@,
        _ => rule_sql::expr(target),
    }
}

/// The name of that column in a [`FactsRow`]: the key of the target, but for the
/// instants that ages are counted from and for the lists.
pub open spec fn selected_name(target: ConditionTarget) -> Seq<char> {
    match target {
        ConditionTarget::AccountAgeDays => "osu_joined_at"@,
        ConditionTarget::DaysSinceLastVisit => "last_visit_at"@,
        ConditionTarget::GroupName => "groups"@,
        ConditionTarget::Playstyle => "playstyles"@,
        _ => target.key(),
    }
}

/// A run of spaces.
pub open spec fn spaces(n: nat) -> Seq<char> {
    Seq::new(n, |i: int| ' ')
}

/// An item of a SELECT list: an expression under a name, with `gap` spaces before
/// the word that joins them, and with what follows the name.
pub open spec fn select_item(expr: Seq<char>, gap: nat, name: Seq<char>, end: char) -> Seq<char> {
    seq![' '] + expr + spaces(gap) + "AS "@ + name + seq![end]
}

/// True when a statement selects an expression under a name.
pub open spec fn selects_as(sql: Seq<char>, expr: Seq<char>, name: Seq<char>) -> bool {
    exists|gap: nat, end: char|
        gap > 0 && (end == ',' || end == ' ') && #[trigger] text::has_part(
            sql,
            select_item(expr, gap, name, end),
        )
}

/// One row of [`FACTS_SELECT`].
#[derive(Debug)]
pub struct FactsRow {
    pub is_supporter: bool,
    pub is_active: bool,
    pub is_restricted: bool,
    pub has_badge: bool,
    pub has_group_badge: bool,
    pub osu_joined_at: Timestamp,
    pub last_visit_at: Option<Timestamp>,
    pub badge_count: i32,
    pub follower_count: i32,
    pub mapping_subscribers: i32,
    pub kudosu: i32,
    pub ranked_beatmaps: i32,
    pub loved_beatmaps: i32,
    pub mapping_playcount: i32,
    pub replays_watched_by_others: i32,
    pub favourite_count: i32,
    pub country_code: Option<String>,
    pub username: String,
    pub groups: Vec<String>,
    pub playstyles: Vec<String>,
    pub global_rank: Option<i32>,
    pub country_rank: Option<i32>,
    pub performance_points: i32,
    pub play_count: i32,
    pub play_time_hours: i32,
    pub total_score: i64,
    pub ranked_score: i64,
    pub hit_accuracy: i32,
    pub max_combo: i32,
    pub level_int: i32,
    pub ss_count: i32,
    pub s_count: i32,
    pub a_count: i32,
}

impl vstd::std_specs::convert::FromSpecImpl<FactsRow> for Facts {
    open spec fn obeys_from_spec() -> bool {
        true
    }

    open spec fn from_spec(r: FactsRow) -> Facts {
        Facts {
            is_supporter: r.is_supporter,
            is_active: r.is_active,
            is_restricted: r.is_restricted,
            has_badge: r.has_badge,
            has_group_badge: r.has_group_badge,
            osu_joined_at: Some(r.osu_joined_at),
            last_visit_at: r.last_visit_at,
            badge_count: r.badge_count as i64,
            follower_count: r.follower_count as i64,
            mapping_subscribers: r.mapping_subscribers as i64,
            kudosu: r.kudosu as i64,
            ranked_beatmaps: r.ranked_beatmaps as i64,
            loved_beatmaps: r.loved_beatmaps as i64,
            mapping_playcount: r.mapping_playcount as i64,
            replays_watched_by_others: r.replays_watched_by_others as i64,
            favourite_count: r.favourite_count as i64,
            country_code: r.country_code,
            username: r.username,
            groups: r.groups,
            playstyles: r.playstyles,
            global_rank: match r.global_rank {
                Some(n) => Some(n as i64),
                None => None,
            },
            country_rank: match r.country_rank {
                Some(n) => Some(n as i64),
                None => None,
            },
            performance_points: r.performance_points as i64,
            play_count: r.play_count as i64,
            play_time_hours: r.play_time_hours as i64,
            total_score: r.total_score,
            ranked_score: r.ranked_score,
            hit_accuracy: r.hit_accuracy as i64,
            max_combo: r.max_combo as i64,
            level_int: r.level_int as i64,
            ss_count: r.ss_count as i64,
            s_count: r.s_count as i64,
            a_count: r.a_count as i64,
        }
    }
}

impl From<FactsRow> for Facts {
    fn from(r: FactsRow) -> (facts: Facts) {
        Facts {
            is_supporter: r.is_supporter,
            is_active: r.is_active,
            is_restricted: r.is_restricted,
            has_badge: r.has_badge,
            has_group_badge: r.has_group_badge,
            osu_joined_at: Some(r.osu_joined_at),
            last_visit_at: r.last_visit_at,
            badge_count: r.badge_count as i64,
            follower_count: r.follower_count as i64,
            mapping_subscribers: r.mapping_subscribers as i64,
            kudosu: r.kudosu as i64,
            ranked_beatmaps: r.ranked_beatmaps as i64,
            loved_beatmaps: r.loved_beatmaps as i64,
            mapping_playcount: r.mapping_playcount as i64,
            replays_watched_by_others: r.replays_watched_by_others as i64,
            favourite_count: r.favourite_count as i64,
            country_code: r.country_code,
            username: r.username,
            groups: r.groups,
            playstyles: r.playstyles,
            global_rank: match r.global_rank {
                Some(n) => Some(n as i64),
                None => None,
            },
            country_rank: match r.country_rank {
                Some(n) => Some(n as i64),
                None => None,
            },
            performance_points: r.performance_points as i64,
            play_count: r.play_count as i64,
            play_time_hours: r.play_time_hours as i64,
            total_score: r.total_score,
            ranked_score: r.ranked_score,
            hit_accuracy: r.hit_accuracy as i64,
            max_combo: r.max_combo as i64,
            level_int: r.level_int as i64,
            ss_count: r.ss_count as i64,
            s_count: r.s_count as i64,
            a_count: r.a_count as i64,
        }
    }
}

// ---------------------------------------------------------------------------
// Per-player sync: fired after link / unlink / refresh.
// ---------------------------------------------------------------------------

/// A role link of a guild, with the rule that it grants by.
#[derive(Debug)]
pub struct RoleLink {
    pub guild_id: String,
    pub role_id: String,
    pub api_token: String,
    pub tree: RuleTree,
}

/// A role that the player holds.
#[derive(Debug)]
pub struct Assignment {
    pub guild_id: String,
    pub role_id: String,
}

/// A change to make on RoleLogic.
#[derive(Debug, PartialEq)]
pub enum PlayerAction {
    Add { guild_id: String, role_id: String, api_token: String },
    Remove { guild_id: String, role_id: String, api_token: String },
}

/// How far the sync of a player has come.
#[derive(Debug)]
pub enum PlayerSync {
    /// Waiting for the guilds that the player is in.
    Guilds,
    /// Waiting for the role links of those guilds.
    Links,
    /// Waiting to hear whether the player connected an osu! account at all. This
    /// is the only fact a `grant_on_any_player` rule needs.
    Linked { links: Vec<RoleLink> },
    /// Waiting for the roles that the player holds.
    Assigned { links: Vec<RoleLink>, is_linked: bool },
    /// Waiting for the facts that the next link is decided on. The links before
    /// it have been decided.
    Facts {
        links: Vec<RoleLink>,
        is_linked: bool,
        existing: Vec<Assignment>,
        verdicts: Vec<bool>,
    },
    Finished,
}

/// What a request of the sync of a player brought back.
#[derive(Debug)]
pub enum PlayerEvent {
    GuildIds(Vec<String>),
    RoleLinks(Vec<RoleLink>),
    IsLinked(bool),
    Assignments(Vec<Assignment>),
    /// The player's facts in the mode asked for; nothing where no account is
    /// linked.
    FactsRow(Option<FactsRow>),
    Failed(AppError),
}

/// What to do next for the sync of a player.
#[derive(Debug)]
pub enum PlayerAsk {
    FetchGuildIds,
    FetchRoleLinks { guild_ids: Vec<String> },
    CheckLinked,
    FetchAssignments,
    FetchFacts { mode: Mode },
    /// Make the changes, then the sync is done.
    Apply(Vec<PlayerAction>),
    Done,
    Fail(AppError),
}

/// True when a rule is decided on the player's facts, and not on whether there is
/// an account at all.
pub open spec fn needs_facts(tree: RuleTree) -> bool {
    !tree.grant_on_any_player && tree.groups@.len() > 0
}

/// The verdict on a rule that needs no facts. Convention 42: an unconfigured rule
/// grants the role to nobody.
pub open spec fn factless_verdict(tree: RuleTree, is_linked: bool) -> bool {
    tree.grant_on_any_player && is_linked
}

/// The verdict on a rule that needs facts. Not linked qualifies for nothing.
pub open spec fn factual_verdict(tree: RuleTree, row: Option<FactsRow>, now: Timestamp) -> bool {
    match row {
        Some(row) => condition_eval::tree_matches(
            tree,
            <Facts as vstd::std_specs::convert::FromSpec<FactsRow>>::from_spec(row),
            now,
        ),
        None => false,
    }
}

/// A guild and a role in it.
pub type RoleKey = (Seq<char>, Seq<char>);

pub open spec fn link_key(link: RoleLink) -> RoleKey {
    (link.guild_id@, link.role_id@)
}

pub open spec fn assignment_key(a: Assignment) -> RoleKey {
    (a.guild_id@, a.role_id@)
}

pub open spec fn action_key(a: PlayerAction) -> RoleKey {
    match a {
        PlayerAction::Add { guild_id, role_id, .. } => (guild_id@, role_id@),
        PlayerAction::Remove { guild_id, role_id, .. } => (guild_id@, role_id@),
    }
}

/// The roles of a list of assignments.
pub open spec fn held(existing: Seq<Assignment>) -> Set<RoleKey> {
    Set::new(|k: RoleKey| exists|i: int| 0 <= i < existing.len() && assignment_key(
        #[trigger] existing[i],
    ) == k)
}

/// The change that a link calls for, if it does.
pub open spec fn change(link: RoleLink, qualifies: bool, assigned: bool) -> Option<PlayerAction> {
    if qualifies && !assigned {
        Some(
            PlayerAction::Add {
                guild_id: link.guild_id,
                role_id: link.role_id,
                api_token: link.api_token,
            },
        )
    } else if !qualifies && assigned {
        Some(
            PlayerAction::Remove {
                guild_id: link.guild_id,
                role_id: link.role_id,
                api_token: link.api_token,
            },
        )
    } else {
        None
    }
}

/// The changes that the verdicts on the links call for, in the order of the
/// links.
pub open spec fn planned(
    links: Seq<RoleLink>,
    verdicts: Seq<bool>,
    held: Set<RoleKey>,
) -> Seq<PlayerAction>
    decreases links.len(),
{
    if links.len() == 0 {
        Seq::empty()
    } else {
        let i = links.len() - 1;
        let before = planned(links.drop_last(), verdicts, held);
        match change(links[i], verdicts[i], held.contains(link_key(links[i]))) {
            Some(action) => before.push(action),
            None => before,
        }
    }
}

/// The verdicts, with those behind them that need no facts.
pub open spec fn extended(
    links: Seq<RoleLink>,
    is_linked: bool,
    verdicts: Seq<bool>,
) -> Seq<bool>
    decreases links.len() - verdicts.len(),
{
    if verdicts.len() < links.len() && !needs_facts(links[verdicts.len() as int].tree) {
        extended(
            links,
            is_linked,
            verdicts.push(factless_verdict(links[verdicts.len() as int].tree, is_linked)),
        )
    } else {
        verdicts
    }
}

/// True when the sync goes on as it should from the given verdicts: to the facts
/// of the next link that needs some, or to the changes where all links are
/// decided.
pub open spec fn goes_on(
    links: Seq<RoleLink>,
    is_linked: bool,
    existing: Seq<Assignment>,
    verdicts: Seq<bool>,
    state: PlayerSync,
    ask: PlayerAsk,
) -> bool {
    let all = extended(links, is_linked, verdicts);
    if all.len() < links.len() {
        &&& state matches PlayerSync::Facts { links: l, is_linked: b, existing: e, verdicts: v }
        &&& l@ == links && b == is_linked && e@ == existing && v@ == all
        &&& ask == PlayerAsk::FetchFacts { mode: links[all.len() as int].tree.default_mode }
    } else {
        let plan = planned(links, all, held(existing));
        &&& state is Finished
        &&& if plan.len() == 0 {
            ask is Done
        } else {
            ask matches PlayerAsk::Apply(actions) && actions@ == plan
        }
    }
}

/// True when a step of the sync of a player is as it should be. An event that the
/// state does not wait for leads nowhere.
pub open spec fn player_stepped(
    state: PlayerSync,
    event: PlayerEvent,
    now: Timestamp,
    r: Option<(PlayerSync, PlayerAsk)>,
) -> bool {
    match (state, event) {
        (PlayerSync::Finished, _) => r is None,
        (_, PlayerEvent::Failed(e)) => r == Some((PlayerSync::Finished, PlayerAsk::Fail(e))),
        (PlayerSync::Guilds, PlayerEvent::GuildIds(ids)) => if ids@.len() == 0 {
            r == Some((PlayerSync::Finished, PlayerAsk::Done))
        } else {
            r == Some((PlayerSync::Links, PlayerAsk::FetchRoleLinks { guild_ids: ids }))
        },
        (PlayerSync::Links, PlayerEvent::RoleLinks(links)) => if links@.len() == 0 {
            r == Some((PlayerSync::Finished, PlayerAsk::Done))
        } else {
            r == Some((PlayerSync::Linked { links }, PlayerAsk::CheckLinked))
        },
        (PlayerSync::Linked { links }, PlayerEvent::IsLinked(is_linked)) => r == Some(
            (PlayerSync::Assigned { links, is_linked }, PlayerAsk::FetchAssignments),
        ),
        (PlayerSync::Assigned { links, is_linked }, PlayerEvent::Assignments(existing)) => {
            &&& r matches Some((next, ask))
            &&& goes_on(links@, is_linked, existing@, Seq::empty(), next, ask)
        },
        (
            PlayerSync::Facts { links, is_linked, existing, verdicts },
            PlayerEvent::FactsRow(row),
        ) => if verdicts@.len() < links@.len() {
            let verdict = factual_verdict(links@[verdicts@.len() as int].tree, row, now);
            &&& r matches Some((next, ask))
            &&& goes_on(links@, is_linked, existing@, verdicts@.push(verdict), next, ask)
        } else {
            r is None
        },
        _ => r is None,
    }
}

/// The first request of the sync of a player.
pub fn start_player_sync() -> (r: (PlayerSync, PlayerAsk))
    ensures
        r == (PlayerSync::Guilds, PlayerAsk::FetchGuildIds),
{
    (PlayerSync::Guilds, PlayerAsk::FetchGuildIds)
}

/// One step of the sync of a player, now.
pub fn player_step(state: PlayerSync, event: PlayerEvent) -> (r: Option<(PlayerSync, PlayerAsk)>)
    ensures
        exists|now: Timestamp|
            clock::is_reading(now) && #[trigger] player_stepped(state, event, now, r),
{
    let now = clock::utc_now();
    player_step_at(state, event, now)
}

/// One step of the sync of a player at a given instant.
pub fn player_step_at(state: PlayerSync, event: PlayerEvent, now: Timestamp) -> (r: Option<
    (PlayerSync, PlayerAsk),
>)
    ensures
        player_stepped(state, event, now, r),
{
    match (state, event) {
        (PlayerSync::Finished, _) => None,
        (_, PlayerEvent::Failed(e)) => Some((PlayerSync::Finished, PlayerAsk::Fail(e))),
        (PlayerSync::Guilds, PlayerEvent::GuildIds(ids)) => if ids.len() == 0 {
            Some((PlayerSync::Finished, PlayerAsk::Done))
        } else {
            Some((PlayerSync::Links, PlayerAsk::FetchRoleLinks { guild_ids: ids }))
        },
        (PlayerSync::Links, PlayerEvent::RoleLinks(links)) => if links.len() == 0 {
            Some((PlayerSync::Finished, PlayerAsk::Done))
        } else {
            Some((PlayerSync::Linked { links }, PlayerAsk::CheckLinked))
        },
        (PlayerSync::Linked { links }, PlayerEvent::IsLinked(is_linked)) => Some(
            (PlayerSync::Assigned { links, is_linked }, PlayerAsk::FetchAssignments),
        ),
        (PlayerSync::Assigned { links, is_linked }, PlayerEvent::Assignments(existing)) => Some(
            go_on(links, is_linked, existing, Vec::new()),
        ),
        (
            PlayerSync::Facts { links, is_linked, existing, verdicts },
            PlayerEvent::FactsRow(row),
        ) => {
            if verdicts.len() >= links.len() {
                return None;
            }
            let verdict = match row {
                Some(row) => {
                    let facts = Facts::from(row);
                    condition_eval::evaluate_at(&links[verdicts.len()].tree, &facts, now)
                },
                None => false,
            };
            let mut verdicts = verdicts;
            verdicts.push(verdict);
            Some(go_on(links, is_linked, existing, verdicts))
        },
        _ => None,
    }
}

fn go_on(
    links: Vec<RoleLink>,
    is_linked: bool,
    existing: Vec<Assignment>,
    verdicts: Vec<bool>,
) -> (r: (PlayerSync, PlayerAsk))
    requires
        verdicts@.len() <= links@.len(),
    ensures
        goes_on(links@, is_linked, existing@, verdicts@, r.0, r.1),
{
    let ghost start = verdicts@;
    let mut verdicts = verdicts;
    while verdicts.len() < links.len()
        invariant_except_break
            verdicts@.len() <= links@.len(),
            extended(links@, is_linked, verdicts@) == extended(links@, is_linked, start),
        ensures
            verdicts@ == extended(links@, is_linked, start),
        decreases links@.len() - verdicts@.len(),
    {
        let tree = &links[verdicts.len()].tree;
        if tree.grant_on_any_player {
            verdicts.push(is_linked);
        } else if tree.groups.len() == 0 {
            verdicts.push(false);
        } else {
            break;
        }
    }
    if verdicts.len() < links.len() {
        let mode = links[verdicts.len()].tree.default_mode;
        return (
            PlayerSync::Facts { links, is_linked, existing, verdicts },
            PlayerAsk::FetchFacts { mode },
        );
    }
    let actions = plan(&links, &verdicts, &existing);
    if actions.len() == 0 {
        (PlayerSync::Finished, PlayerAsk::Done)
    } else {
        (PlayerSync::Finished, PlayerAsk::Apply(actions))
    }
}

fn is_held(existing: &Vec<Assignment>, link: &RoleLink) -> (r: bool)
    ensures
        r == held(existing@).contains(link_key(*link)),
{
    let mut i: usize = 0;
    while i < existing.len()
        invariant
            i <= existing@.len(),
            forall|k: int| 0 <= k < i ==> assignment_key(#[trigger] existing@[k]) != link_key(*link),
        decreases existing@.len() - i,
    {
        if text::same(existing[i].guild_id.as_str(), link.guild_id.as_str()) && text::same(
            existing[i].role_id.as_str(),
            link.role_id.as_str(),
        ) {
            proof {
                assert(assignment_key(existing@[i as int]) == link_key(*link));
            }
            return true;
        }
        i += 1;
    }
    false
}

/// The changes that the verdicts on the links call for.
pub fn plan(links: &Vec<RoleLink>, verdicts: &Vec<bool>, existing: &Vec<Assignment>) -> (r: Vec<
    PlayerAction,
>)
    requires
        verdicts@.len() >= links@.len(),
    ensures
        r@ == planned(links@, verdicts@, held(existing@)),
{
    let mut actions: Vec<PlayerAction> = Vec::new();
    let mut i: usize = 0;
    while i < links.len()
        invariant
            i <= links@.len() <= verdicts@.len(),
            actions@ == planned(links@.take(i as int), verdicts@, held(existing@)),
        decreases links@.len() - i,
    {
        proof {
            assert(links@.take(i + 1).drop_last() =~= links@.take(i as int));
        }
        let link = &links[i];
        let assigned = is_held(existing, link);
        if verdicts[i] && !assigned {
            actions.push(
                PlayerAction::Add {
                    guild_id: link.guild_id.clone(),
                    role_id: link.role_id.clone(),
                    api_token: link.api_token.clone(),
                },
            );
        } else if !verdicts[i] && assigned {
            actions.push(
                PlayerAction::Remove {
                    guild_id: link.guild_id.clone(),
                    role_id: link.role_id.clone(),
                    api_token: link.api_token.clone(),
                },
            );
        }
        i += 1;
    }
    proof {
        assert(links@.take(links@.len() as int) =~= links@);
    }
    actions
}

/// What follows a call to RoleLogic.
#[derive(Debug, Clone, Copy, PartialEq, Eq, Structural)]
pub enum FollowUp {
    /// The call succeeded: store the change.
    Store,
    /// RoleLogic does not know the role link: delete it here as well.
    DeleteOrphan,
    /// The call failed: leave what is stored as it is.
    Leave,
}

/// What should follow a call that ended with the given error, or with none.
pub open spec fn follow_up(error: Option<AppError>) -> FollowUp {
    match error {
        None => FollowUp::Store,
        Some(AppError::RoleLinkNotFound) => FollowUp::DeleteOrphan,
        Some(_) => FollowUp::Leave,
    }
}

/// What follows adding a player to a role link or removing one from it.
pub fn after_call(error: &Option<AppError>) -> (r: FollowUp)
    ensures
        r == follow_up(*error),
{
    match error {
        None => FollowUp::Store,
        Some(AppError::RoleLinkNotFound) => FollowUp::DeleteOrphan,
        Some(_) => FollowUp::Leave,
    }
}

/// The roles held once a change has been made and stored.
pub open spec fn applied(held: Set<RoleKey>, action: PlayerAction) -> Set<RoleKey> {
    match action {
        PlayerAction::Add { .. } => held.insert(action_key(action)),
        PlayerAction::Remove { .. } => held.remove(action_key(action)),
    }
}

/// The roles held once all changes have been made and stored.
pub open spec fn all_applied(held: Set<RoleKey>, actions: Seq<PlayerAction>) -> Set<RoleKey>
    decreases actions.len(),
{
    if actions.len() == 0 {
        held
    } else {
        applied(all_applied(held, actions.drop_last()), actions.last())
    }
}

/// True when no two links are of the same role.
pub open spec fn distinct(links: Seq<RoleLink>) -> bool {
    forall|i: int, j: int|
        0 <= i < j < links.len() ==> link_key(#[trigger] links[i]) != link_key(#[trigger] links[j])
}

proof fn lemma_plan_keys(links: Seq<RoleLink>, verdicts: Seq<bool>, held: Set<RoleKey>, key: RoleKey)
    requires
        forall|i: int| 0 <= i < links.len() ==> link_key(#[trigger] links[i]) != key,
    ensures
        all_applied(held, planned(links, verdicts, held)).contains(key) == held.contains(key),
    decreases links.len(),
{
    if links.len() > 0 {
        let rest = links.drop_last();
        assert forall|i: int| 0 <= i < rest.len() implies link_key(#[trigger] rest[i]) != key by {
            assert(rest[i] == links[i]);
        }
        lemma_plan_keys(rest, verdicts, held, key);
        let before = planned(rest, verdicts, held);
        let after = planned(links, verdicts, held);
        let last = links[links.len() - 1];
        match change(last, verdicts[links.len() - 1], held.contains(link_key(last))) {
            Some(action) => {
                assert(after.drop_last() =~= before);
                assert(after.last() == action);
                assert(action_key(action) == link_key(last));
            },
            None => {},
        }
    }
}

/// Once the changes have been made, the player holds the role of a link exactly
/// when they qualify for it.
pub proof fn law_plan_reaches_verdicts(
    links: Seq<RoleLink>,
    verdicts: Seq<bool>,
    held: Set<RoleKey>,
    i: int,
)
    requires
        distinct(links),
        0 <= i < links.len(),
    ensures
        all_applied(held, planned(links, verdicts, held)).contains(link_key(links[i]))
            == verdicts[i],
    decreases links.len(),
{
    let rest = links.drop_last();
    let n = links.len() - 1;
    let before = planned(rest, verdicts, held);
    let after = planned(links, verdicts, held);
    let last = links[n];
    let key = link_key(links[i]);
    let action = change(last, verdicts[n], held.contains(link_key(last)));
    if action is Some {
        assert(after.drop_last() =~= before);
        assert(after.last() == action->0);
        assert(action_key(action->0) == link_key(last));
    }
    assert forall|a: int, b: int| 0 <= a < b < rest.len() implies link_key(#[trigger] rest[a])
        != link_key(#[trigger] rest[b]) by {
        assert(rest[a] == links[a] && rest[b] == links[b]);
    }
    if i < n {
        law_plan_reaches_verdicts(rest, verdicts, held, i);
        assert(rest[i] == links[i]);
        assert(key != link_key(last));
    } else {
        assert forall|k: int| 0 <= k < rest.len() implies link_key(#[trigger] rest[k]) != key by {
            assert(rest[k] == links[k]);
        }
        lemma_plan_keys(rest, verdicts, held, key);
    }
}

/// The changes leave the roles of other links as they are.
pub proof fn law_plan_leaves_other_roles(
    links: Seq<RoleLink>,
    verdicts: Seq<bool>,
    held: Set<RoleKey>,
    key: RoleKey,
)
    requires
        forall|i: int| 0 <= i < links.len() ==> link_key(#[trigger] links[i]) != key,
    ensures
        all_applied(held, planned(links, verdicts, held)).contains(key) == held.contains(key),
{
    lemma_plan_keys(links, verdicts, held, key);
}

/// Where every role held is as the verdicts have it, there is nothing to change.
/// So a sync that follows a completed one with the same verdicts makes no call.
pub proof fn law_settled_plan_is_empty(
    links: Seq<RoleLink>,
    verdicts: Seq<bool>,
    held: Set<RoleKey>,
)
    requires
        forall|i: int|
            0 <= i < links.len() ==> held.contains(link_key(#[trigger] links[i])) == verdicts[i],
    ensures
        planned(links, verdicts, held).len() == 0,
    decreases links.len(),
{
    if links.len() > 0 {
        let rest = links.drop_last();
        assert forall|i: int| 0 <= i < rest.len() implies held.contains(
            link_key(#[trigger] rest[i]),
        ) == verdicts[i] by {
            assert(rest[i] == links[i]);
        }
        law_settled_plan_is_empty(rest, verdicts, held);
        assert(held.contains(link_key(links[links.len() - 1])) == verdicts[links.len() - 1]);
    }
}

/// A player without a linked account qualifies for nothing.
pub proof fn law_unlinked_player_qualifies_for_nothing(tree: RuleTree, now: Timestamp)
    ensures
        !factless_verdict(tree, false),
        !factual_verdict(tree, None, now),
{
}

/// A failed request ends the sync without a change.
pub proof fn law_failed_lookup_changes_nothing(
    state: PlayerSync,
    error: AppError,
    now: Timestamp,
    r: Option<(PlayerSync, PlayerAsk)>,
)
    requires
        player_stepped(state, PlayerEvent::Failed(error), now, r),
        !(state is Finished),
    ensures
        r == Some((PlayerSync::Finished, PlayerAsk::Fail(error))),
{
}

/// True when the links that need no facts are decided as they should be.
pub open spec fn decided(links: Seq<RoleLink>, is_linked: bool, verdicts: Seq<bool>) -> bool {
    &&& verdicts.len() <= links.len()
    &&& forall|i: int|
        0 <= i < verdicts.len() && !needs_facts(links[i].tree) ==> #[trigger] verdicts[i]
            == factless_verdict(links[i].tree, is_linked)
}

/// Going on keeps the verdicts that there are, decides the links that need no
/// facts by whether an account is linked, and stops at one that needs some.
pub proof fn law_going_on_decides_factless_links(
    links: Seq<RoleLink>,
    is_linked: bool,
    verdicts: Seq<bool>,
)
    requires
        decided(links, is_linked, verdicts),
    ensures
        decided(links, is_linked, extended(links, is_linked, verdicts)),
        verdicts.is_prefix_of(extended(links, is_linked, verdicts)),
        extended(links, is_linked, verdicts).len() < links.len() ==> needs_facts(
            links[extended(links, is_linked, verdicts).len() as int].tree,
        ),
    decreases links.len() - verdicts.len(),
{
    let n = verdicts.len() as int;
    if n < links.len() && !needs_facts(links[n].tree) {
        let more = verdicts.push(factless_verdict(links[n].tree, is_linked));
        assert forall|i: int| 0 <= i < more.len() && !needs_facts(links[i].tree) implies
            #[trigger] more[i] == factless_verdict(links[i].tree, is_linked) by {
            if i < n {
                assert(more[i] == verdicts[i]);
            }
        }
        law_going_on_decides_factless_links(links, is_linked, more);
        assert(verdicts.is_prefix_of(more));
    }
}

/// What the sync of a player finds around it. The database answers by the game mode
/// that it is asked for.
pub struct PlayerSurroundings {
    pub guild_ids: Seq<Seq<char>>,
    /// The role links of those guilds.
    pub links: Seq<RoleLink>,
    pub is_linked: bool,
    pub rows: spec_fn(Mode) -> Option<FactsRow>,
    /// The roles that the player holds.
    pub held: Set<RoleKey>,
    /// The changes that RoleLogic was asked for, in the order of the links.
    pub calls: Seq<PlayerAction>,
}

/// One step of a run: what was asked for in which state, what came back, and what
/// the clock read then.
pub struct PlayerMove {
    pub state: PlayerSync,
    pub ask: PlayerAsk,
    pub event: PlayerEvent,
    pub now: Timestamp,
}

/// True when an event is what a request brings back, where every request succeeds.
pub open spec fn player_answers(w: PlayerSurroundings, ask: PlayerAsk, event: PlayerEvent) -> bool {
    match ask {
        PlayerAsk::FetchGuildIds => event matches PlayerEvent::GuildIds(ids) && text::views(ids@)
            == w.guild_ids,
        PlayerAsk::FetchRoleLinks { .. } => event matches PlayerEvent::RoleLinks(links) && links@
            == w.links,
        PlayerAsk::CheckLinked => event == PlayerEvent::IsLinked(w.is_linked),
        PlayerAsk::FetchAssignments => event matches PlayerEvent::Assignments(existing) && held(
            existing@,
        ) == w.held,
        PlayerAsk::FetchFacts { mode } => event == PlayerEvent::FactsRow((w.rows)(mode)),
        _ => false,
    }
}

/// True when the moves lead to the end of the sync, and leave the surroundings `end`
/// behind: the changes are made and stored.
pub open spec fn player_runs(
    w: PlayerSurroundings,
    moves: Seq<PlayerMove>,
    end: PlayerSurroundings,
) -> bool
    decreases moves.len(),
{
    if moves.len() == 0 {
        false
    } else {
        match moves[0].ask {
            PlayerAsk::Done => moves.len() == 1 && end == w,
            PlayerAsk::Apply(actions) => moves.len() == 1 && end == (PlayerSurroundings {
                held: all_applied(w.held, actions@),
                calls: w.calls + actions@,
                ..w
            }),
            _ => {
                &&& moves.len() > 1
                &&& player_answers(w, moves[0].ask, moves[0].event)
                &&& clock::is_reading(moves[0].now)
                &&& player_stepped(
                    moves[0].state,
                    moves[0].event,
                    moves[0].now,
                    Some((moves[1].state, moves[1].ask)),
                )
                &&& player_runs(w, moves.skip(1), end)
            },
        }
    }
}

/// True for a whole run of the sync in which every request succeeds.
pub open spec fn whole_player_run(
    w: PlayerSurroundings,
    moves: Seq<PlayerMove>,
    end: PlayerSurroundings,
) -> bool {
    &&& moves.len() > 0
    &&& moves[0].state is Guilds
    &&& moves[0].ask is FetchGuildIds
    &&& player_runs(w, moves, end)
}

/// The role links that the sync decides: none where the player is in no guild.
pub open spec fn links_at_stake(w: PlayerSurroundings) -> Seq<RoleLink> {
    if w.guild_ids.len() == 0 {
        Seq::empty()
    } else {
        w.links
    }
}

/// The verdict on a role link: on whether an account is linked, or on the facts in
/// the mode of its rule.
pub open spec fn link_verdict(
    tree: RuleTree,
    is_linked: bool,
    rows: spec_fn(Mode) -> Option<FactsRow>,
    now: Timestamp,
) -> bool {
    if needs_facts(tree) {
        factual_verdict(tree, rows(tree.default_mode), now)
    } else {
        factless_verdict(tree, is_linked)
    }
}

/// True when verdicts are those on the first links, each at its own instant.
pub open spec fn verdicts_at(
    links: Seq<RoleLink>,
    is_linked: bool,
    rows: spec_fn(Mode) -> Option<FactsRow>,
    verdicts: Seq<bool>,
    times: Seq<Timestamp>,
) -> bool {
    &&& verdicts.len() == times.len()
    &&& verdicts.len() <= links.len()
    &&& forall|i: int|
        0 <= i < verdicts.len() ==> clock::is_reading(#[trigger] times[i]) && verdicts[i]
            == link_verdict(links[i].tree, is_linked, rows, times[i])
}

/// The first move of a run, and what follows it.
proof fn lemma_player_move(
    w: PlayerSurroundings,
    moves: Seq<PlayerMove>,
    end: PlayerSurroundings,
)
    requires
        player_runs(w, moves, end),
        !(moves[0].ask is Done || moves[0].ask is Apply),
    ensures
        moves.len() > 1,
        player_answers(w, moves[0].ask, moves[0].event),
        clock::is_reading(moves[0].now),
        player_stepped(
            moves[0].state,
            moves[0].event,
            moves[0].now,
            Some((moves.skip(1)[0].state, moves.skip(1)[0].ask)),
        ),
        player_runs(w, moves.skip(1), end),
{
}

/// The verdicts that need no facts are right at any instant.
proof fn lemma_extended_verdicts(
    w: PlayerSurroundings,
    verdicts: Seq<bool>,
    times: Seq<Timestamp>,
    now: Timestamp,
) -> (more: Seq<Timestamp>)
    requires
        verdicts_at(w.links, w.is_linked, w.rows, verdicts, times),
        clock::is_reading(now),
    ensures
        verdicts_at(
            w.links,
            w.is_linked,
            w.rows,
            extended(w.links, w.is_linked, verdicts),
            more,
        ),
        extended(w.links, w.is_linked, verdicts).len() < w.links.len() ==> needs_facts(
            w.links[extended(w.links, w.is_linked, verdicts).len() as int].tree,
        ),
    decreases w.links.len() - verdicts.len(),
{
    let n = verdicts.len() as int;
    if n < w.links.len() && !needs_facts(w.links[n].tree) {
        let next = verdicts.push(factless_verdict(w.links[n].tree, w.is_linked));
        let times_next = times.push(now);
        assert forall|i: int| 0 <= i < next.len() implies clock::is_reading(
            #[trigger] times_next[i],
        ) && next[i] == link_verdict(w.links[i].tree, w.is_linked, w.rows, times_next[i]) by {
            if i < n {
                assert(times_next[i] == times[i]);
            }
        }
        lemma_extended_verdicts(w, next, times_next, now)
    } else {
        times
    }
}

/// From any verdicts on, the run ends with the changes that all verdicts call for.
proof fn lemma_player_goes_on(
    w: PlayerSurroundings,
    moves: Seq<PlayerMove>,
    end: PlayerSurroundings,
    existing: Seq<Assignment>,
    verdicts: Seq<bool>,
    times: Seq<Timestamp>,
    now: Timestamp,
) -> (r: (Seq<bool>, Seq<Timestamp>))
    requires
        player_runs(w, moves, end),
        goes_on(w.links, w.is_linked, existing, verdicts, moves[0].state, moves[0].ask),
        held(existing) == w.held,
        verdicts_at(w.links, w.is_linked, w.rows, verdicts, times),
        clock::is_reading(now),
    ensures
        r.0.len() == w.links.len(),
        verdicts_at(w.links, w.is_linked, w.rows, r.0, r.1),
        end == (PlayerSurroundings {
            held: all_applied(w.held, planned(w.links, r.0, w.held)),
            calls: w.calls + planned(w.links, r.0, w.held),
            ..w
        }),
    decreases moves.len(),
{
    let all = extended(w.links, w.is_linked, verdicts);
    let all_times = lemma_extended_verdicts(w, verdicts, times, now);
    if all.len() < w.links.len() {
        lemma_player_move(w, moves, end);
        let tree = w.links[all.len() as int].tree;
        let verdict = factual_verdict(tree, (w.rows)(tree.default_mode), moves[0].now);
        let next = all.push(verdict);
        let next_times = all_times.push(moves[0].now);
        assert forall|i: int| 0 <= i < next.len() implies clock::is_reading(
            #[trigger] next_times[i],
        ) && next[i] == link_verdict(w.links[i].tree, w.is_linked, w.rows, next_times[i]) by {
            if i < all.len() {
                assert(next_times[i] == all_times[i]);
            }
        }
        lemma_player_goes_on(w, moves.skip(1), end, existing, next, next_times, now)
    } else {
        let plan = planned(w.links, all, w.held);
        if plan.len() == 0 {
            assert(plan =~= Seq::empty());
            assert(w.calls + plan =~= w.calls);
        }
        (all, all_times)
    }
}

/// A run in which every request succeeds ends with the changes that the verdicts on
/// the role links call for: each verdict is on whether an account is linked, or, where
/// the rule needs facts, on the facts in its mode at the instant at which they came.
/// The instants come back beside the verdicts.
pub proof fn law_player_run_makes_the_planned_changes(
    w: PlayerSurroundings,
    moves: Seq<PlayerMove>,
    end: PlayerSurroundings,
) -> (r: (Seq<bool>, Seq<Timestamp>))
    requires
        whole_player_run(w, moves, end),
    ensures
        r.0.len() == links_at_stake(w).len(),
        verdicts_at(links_at_stake(w), w.is_linked, w.rows, r.0, r.1),
        end == (PlayerSurroundings {
            held: all_applied(w.held, planned(links_at_stake(w), r.0, w.held)),
            calls: w.calls + planned(links_at_stake(w), r.0, w.held),
            ..w
        }),
{
    let second = moves.skip(1);
    lemma_player_move(w, moves, end);
    let ids = moves[0].event->GuildIds_0;
    assert(text::views(ids@).len() == ids@.len());
    if w.guild_ids.len() == 0 || w.links.len() == 0 {
        assert(w.calls + Seq::<PlayerAction>::empty() =~= w.calls);
        if w.guild_ids.len() > 0 {
            lemma_player_move(w, second, end);
            assert(player_runs(w, second.skip(1), end));
        }
        (Seq::empty(), Seq::empty())
    } else {
        let third = second.skip(1);
        let fourth = third.skip(1);
        lemma_player_move(w, second, end);
        lemma_player_move(w, third, end);
        lemma_player_move(w, fourth, end);
        let existing = fourth[0].event->Assignments_0;
        lemma_player_goes_on(
            w,
            fourth.skip(1),
            end,
            existing@,
            Seq::empty(),
            Seq::empty(),
            moves[0].now,
        )
    }
}

/// Once a run is through, the player holds the role of a link exactly when they
/// qualify for it, and the roles of no link are as they were.
pub proof fn law_player_run_grants_what_is_due(
    w: PlayerSurroundings,
    moves: Seq<PlayerMove>,
    end: PlayerSurroundings,
) -> (times: Seq<Timestamp>)
    requires
        whole_player_run(w, moves, end),
        distinct(w.links),
    ensures
        times.len() == links_at_stake(w).len(),
        forall|i: int|
            0 <= i < times.len() ==> clock::is_reading(#[trigger] times[i]) && end.held.contains(
                link_key(links_at_stake(w)[i]),
            ) == link_verdict(links_at_stake(w)[i].tree, w.is_linked, w.rows, times[i]),
        forall|key: RoleKey|
            (forall|i: int| 0 <= i < links_at_stake(w).len() ==> link_key(
                #[trigger] links_at_stake(w)[i],
            ) != key) ==> #[trigger] end.held.contains(key) == w.held.contains(key),
{
    let (verdicts, times) = law_player_run_makes_the_planned_changes(w, moves, end);
    let links = links_at_stake(w);
    assert forall|i: int| 0 <= i < times.len() implies clock::is_reading(#[trigger] times[i])
        && end.held.contains(link_key(links[i])) == link_verdict(
        links[i].tree,
        w.is_linked,
        w.rows,
        times[i],
    ) by {
        law_plan_reaches_verdicts(links, verdicts, w.held, i);
    }
    assert forall|key: RoleKey|
        (forall|i: int| 0 <= i < links.len() ==> link_key(#[trigger] links[i]) != key) implies
        #[trigger] end.held.contains(key) == w.held.contains(key) by {
        law_plan_leaves_other_roles(links, verdicts, w.held, key);
    }
    times
}

// ---------------------------------------------------------------------------
// Per-role-link sync (bulk).
// ---------------------------------------------------------------------------

/// A statement with its parameters, in the order of their numbers.
#[derive(Debug, PartialEq)]
pub struct Query {
    pub sql: String,
    pub binds: Vec<Bind>,
}

/// How far the sync of a role link has come.
#[derive(Debug)]
pub enum RoleLinkSync {
    /// Waiting for the stored role link.
    Link,
    /// Waiting for the members of the guild.
    Members { api_token: String, tree: RuleTree },
    /// Waiting for the number of players that RoleLogic takes.
    Limit { api_token: String, tree: RuleTree, member_ids: Vec<String> },
    /// Waiting for the players that qualify.
    Qualifying { api_token: String },
    /// Waiting for the players that hold the role.
    Current { api_token: String, qualifying: Vec<String> },
    /// Waiting for RoleLogic to take the players.
    Upload { qualifying: Vec<String> },
    /// Waiting to hear whether any player holds the role that nobody should.
    Drain { api_token: String },
    /// Waiting for RoleLogic to take the empty list.
    DrainUpload,
    /// Waiting for the last statement.
    Store,
    Finished,
}

/// What a request of the sync of a role link brought back.
#[derive(Debug)]
pub enum RoleLinkEvent {
    /// The token and the rule of the role link; nothing where it is gone.
    Link(Option<(String, RuleTree)>),
    MemberIds(Vec<String>),
    UserLimit(usize),
    /// The players asked for, ordered and without repetition.
    Players(Vec<String>),
    AnyAssigned(bool),
    Done,
    Failed(AppError),
}

/// What to do next for the sync of a role link.
#[derive(Debug)]
pub enum RoleLinkAsk {
    FetchLink,
    FetchMemberIds,
    FetchUserLimit { api_token: String },
    RunQuery(Query),
    FetchAssigned,
    CheckAssigned,
    /// Hand RoleLogic the whole list of players.
    Upload { api_token: String, users: Vec<String> },
    /// Store the list in place of the one before, in one transaction.
    StoreAssigned { users: Vec<String> },
    /// Delete the stored list.
    ClearAssigned,
    /// Delete the role link, which RoleLogic does not know. Best effort: a
    /// failure is logged. The sync is done.
    DeleteOrphan,
    Done,
    Fail(AppError),
}

/// The players of a guild that connected an osu! account.
pub open spec fn any_player_sql() -> Seq<char> {
    "SELECT discord_id FROM osu_users WHERE discord_id = ANY($1::text[]) ORDER BY discord_id LIMIT $2"@
}

/// The players of a guild that a WHERE clause selects; `limit_slot` is the number
/// of the parameter that caps them.
pub open spec fn selected_sql(clause: Seq<char>, limit_slot: nat) -> Seq<char> {
    "SELECT DISTINCT ou.discord_id FROM osu_users ou LEFT JOIN osu_stats os ON os.osu_user_id = ou.osu_user_id AND os.mode = $1 WHERE ou.discord_id = ANY($2::text[]) AND ("@
        + clause + ") ORDER BY ou.discord_id LIMIT $"@ + text::dec(limit_slot)
}

/// The text of the query for the players that a rule grants to.
pub open spec fn qualifying_sql(tree: RuleTree) -> Seq<char> {
    if tree.grant_on_any_player {
        any_player_sql()
    } else {
        selected_sql(rule_sql::where_text(tree, 2), 2 + rule_sql::where_params(tree).len() + 1)
    }
}

/// The parameters of that query.
pub open spec fn qualifying_params(
    tree: RuleTree,
    member_ids: Seq<Seq<char>>,
    limit: usize,
) -> Seq<Param> {
    if tree.grant_on_any_player {
        seq![Param::TextArray(member_ids), Param::Int(limit as i64)]
    } else {
        seq![Param::Text(tree.default_mode.key()), Param::TextArray(member_ids)]
            + rule_sql::where_params(tree) + seq![Param::Int(limit as i64)]
    }
}

/// The query for the players that a rule grants to: `$1` is the mode, `$2` the
/// members, the parameters of the rule follow, and the limit is last. A blanket
/// grant needs the members and the limit only.
pub fn qualifying_query(tree: &RuleTree, member_ids: Vec<String>, user_limit: usize) -> (r: Query)
    ensures
        r.sql@ == qualifying_sql(*tree),
        rule_sql::params(r.binds@) == qualifying_params(*tree, text::views(member_ids@), user_limit),
{
    let mut binds: Vec<Bind> = Vec::new();
    let limit: i64 = #[verifier::truncate] (user_limit as i64);
    if tree.grant_on_any_player {
        binds.push(Bind::TextArray(member_ids));
        binds.push(Bind::Int(limit));
        proof {
            assert(rule_sql::params(binds@) =~= qualifying_params(
                *tree,
                text::views(member_ids@),
                user_limit,
            ));
        }
        return Query {
            sql: "SELECT discord_id FROM osu_users WHERE discord_id = ANY($1::text[]) ORDER BY discord_id LIMIT $2".to_owned(),
            binds,
        };
    }
    let (rule_where, rule_binds) = rule_sql::build_rule_where(tree, 2);
    let limit_idx: u128 = 2 + rule_binds.len() as u128 + 1;
    let mut sql = text::join2(
        "SELECT DISTINCT ou.discord_id FROM osu_users ou LEFT JOIN osu_stats os ON os.osu_user_id = ou.osu_user_id AND os.mode = $1 WHERE ou.discord_id = ANY($2::text[]) AND (",
        rule_where.as_str(),
    );
    sql.append(") ORDER BY ou.discord_id LIMIT $");
    sql.append(text::decimal(limit_idx).as_str());
    binds.push(Bind::Text(tree.default_mode.as_str().to_owned()));
    binds.push(Bind::TextArray(member_ids));
    let ghost head = binds@;
    let ghost middle = rule_binds@;
    let mut rule_binds = rule_binds;
    binds.append(&mut rule_binds);
    binds.push(Bind::Int(limit));
    proof {
        assert(rule_sql::params(middle).len() == middle.len());
        assert(binds@ =~= head + middle + seq![Bind::Int(limit)]);
        assert(rule_sql::params(binds@) =~= qualifying_params(
            *tree,
            text::views(member_ids@),
            user_limit,
        ));
    }
    Query { sql, binds }
}

/// True when a request for the players that qualify is as it should be.
pub open spec fn asks_qualifying(
    ask: RoleLinkAsk,
    tree: RuleTree,
    member_ids: Seq<Seq<char>>,
    limit: usize,
) -> bool {
    &&& ask matches RoleLinkAsk::RunQuery(q)
    &&& q.sql@ == qualifying_sql(tree)
    &&& rule_sql::params(q.binds@) == qualifying_params(tree, member_ids, limit)
}

/// True when a step of the sync of a role link is as it should be. An event that
/// the state does not wait for leads nowhere.
pub open spec fn role_link_stepped(
    state: RoleLinkSync,
    event: RoleLinkEvent,
    r: Option<(RoleLinkSync, RoleLinkAsk)>,
) -> bool {
    match (state, event) {
        (RoleLinkSync::Finished, _) => r is None,
        (
            RoleLinkSync::Limit { .. } | RoleLinkSync::Upload { .. } | RoleLinkSync::DrainUpload,
            RoleLinkEvent::Failed(AppError::RoleLinkNotFound),
        ) => r == Some((RoleLinkSync::Finished, RoleLinkAsk::DeleteOrphan)),
        (RoleLinkSync::Limit { .. }, RoleLinkEvent::Failed(AppError::RoleLinkDisabled)) => r
            == Some((RoleLinkSync::Finished, RoleLinkAsk::Done)),
        (_, RoleLinkEvent::Failed(e)) => r == Some(
            (RoleLinkSync::Finished, RoleLinkAsk::Fail(e)),
        ),
        (RoleLinkSync::Link, RoleLinkEvent::Link(None)) => r == Some(
            (RoleLinkSync::Finished, RoleLinkAsk::Done),
        ),
        (RoleLinkSync::Link, RoleLinkEvent::Link(Some((api_token, tree)))) => if tree.unconfigured() {
            r == Some((RoleLinkSync::Drain { api_token }, RoleLinkAsk::CheckAssigned))
        } else {
            r == Some((RoleLinkSync::Members { api_token, tree }, RoleLinkAsk::FetchMemberIds))
        },
        (RoleLinkSync::Members { api_token, tree }, RoleLinkEvent::MemberIds(member_ids)) => {
            if member_ids@.len() == 0 {
                r == Some((RoleLinkSync::Drain { api_token }, RoleLinkAsk::CheckAssigned))
            } else {
                r == Some(
                    (
                        RoleLinkSync::Limit { api_token, tree, member_ids },
                        RoleLinkAsk::FetchUserLimit { api_token },
                    ),
                )
            }
        },
        (
            RoleLinkSync::Limit { api_token, tree, member_ids },
            RoleLinkEvent::UserLimit(limit),
        ) => {
            &&& r matches Some((next, ask))
            &&& next == RoleLinkSync::Qualifying { api_token }
            &&& asks_qualifying(ask, tree, text::views(member_ids@), limit)
        },
        (RoleLinkSync::Qualifying { api_token }, RoleLinkEvent::Players(qualifying)) => r == Some(
            (RoleLinkSync::Current { api_token, qualifying }, RoleLinkAsk::FetchAssigned),
        ),
        (RoleLinkSync::Current { api_token, qualifying }, RoleLinkEvent::Players(current)) => {
            if text::views(current@) == text::views(qualifying@) {
                r == Some((RoleLinkSync::Finished, RoleLinkAsk::Done))
            } else {
                &&& r matches Some((next, ask))
                &&& next == RoleLinkSync::Upload { qualifying }
                &&& ask matches RoleLinkAsk::Upload { api_token: token, users }
                &&& token == api_token && text::views(users@) == text::views(qualifying@)
            }
        },
        (RoleLinkSync::Upload { qualifying }, RoleLinkEvent::Done) => r == Some(
            (RoleLinkSync::Store, RoleLinkAsk::StoreAssigned { users: qualifying }),
        ),
        (RoleLinkSync::Drain { api_token }, RoleLinkEvent::AnyAssigned(any)) => if any {
            &&& r matches Some((next, ask))
            &&& next is DrainUpload
            &&& ask matches RoleLinkAsk::Upload { api_token: token, users }
            &&& token == api_token && users@.len() == 0
        } else {
            r == Some((RoleLinkSync::Finished, RoleLinkAsk::Done))
        },
        (RoleLinkSync::DrainUpload, RoleLinkEvent::Done) => r == Some(
            (RoleLinkSync::Store, RoleLinkAsk::ClearAssigned),
        ),
        (RoleLinkSync::Store, RoleLinkEvent::Done) => r == Some(
            (RoleLinkSync::Finished, RoleLinkAsk::Done),
        ),
        _ => r is None,
    }
}

/// The first request of the sync of a role link.
pub fn start_role_link_sync() -> (r: (RoleLinkSync, RoleLinkAsk))
    ensures
        r == (RoleLinkSync::Link, RoleLinkAsk::FetchLink),
{
    (RoleLinkSync::Link, RoleLinkAsk::FetchLink)
}

/// One step of the sync of a role link.
pub fn role_link_step(state: RoleLinkSync, event: RoleLinkEvent) -> (r: Option<
    (RoleLinkSync, RoleLinkAsk),
>)
    ensures
        role_link_stepped(state, event, r),
{
    match (state, event) {
        (RoleLinkSync::Finished, _) => None,
        (
            RoleLinkSync::Limit { .. } | RoleLinkSync::Upload { .. } | RoleLinkSync::DrainUpload,
            RoleLinkEvent::Failed(AppError::RoleLinkNotFound),
        ) => Some((RoleLinkSync::Finished, RoleLinkAsk::DeleteOrphan)),
        (RoleLinkSync::Limit { .. }, RoleLinkEvent::Failed(AppError::RoleLinkDisabled)) => Some(
            (RoleLinkSync::Finished, RoleLinkAsk::Done),
        ),
        (_, RoleLinkEvent::Failed(e)) => Some((RoleLinkSync::Finished, RoleLinkAsk::Fail(e))),
        (RoleLinkSync::Link, RoleLinkEvent::Link(None)) => Some(
            (RoleLinkSync::Finished, RoleLinkAsk::Done),
        ),
        (RoleLinkSync::Link, RoleLinkEvent::Link(Some((api_token, tree)))) => {
            // Convention 42: NOT grant_on_any AND no groups grants to nobody. The
            // WHERE clause would also be "FALSE" here, but draining saves the
            // gateway call and the upload.
            if !tree.grant_on_any_player && tree.groups.len() == 0 {
                Some((RoleLinkSync::Drain { api_token }, RoleLinkAsk::CheckAssigned))
            } else {
                Some((RoleLinkSync::Members { api_token, tree }, RoleLinkAsk::FetchMemberIds))
            }
        },
        (RoleLinkSync::Members { api_token, tree }, RoleLinkEvent::MemberIds(member_ids)) => {
            if member_ids.len() == 0 {
                Some((RoleLinkSync::Drain { api_token }, RoleLinkAsk::CheckAssigned))
            } else {
                let token = api_token.clone();
                Some(
                    (
                        RoleLinkSync::Limit { api_token, tree, member_ids },
                        RoleLinkAsk::FetchUserLimit { api_token: token },
                    ),
                )
            }
        },
        (
            RoleLinkSync::Limit { api_token, tree, member_ids },
            RoleLinkEvent::UserLimit(limit),
        ) => {
            let query = qualifying_query(&tree, member_ids, limit);
            Some((RoleLinkSync::Qualifying { api_token }, RoleLinkAsk::RunQuery(query)))
        },
        (RoleLinkSync::Qualifying { api_token }, RoleLinkEvent::Players(qualifying)) => Some(
            (RoleLinkSync::Current { api_token, qualifying }, RoleLinkAsk::FetchAssigned),
        ),
        (RoleLinkSync::Current { api_token, qualifying }, RoleLinkEvent::Players(current)) => {
            // Skip the upload entirely when the computed list already equals
            // what is assigned.
            if text::same_list(&current, &qualifying) {
                Some((RoleLinkSync::Finished, RoleLinkAsk::Done))
            } else {
                let users = text::copy_list(&qualifying);
                Some(
                    (
                        RoleLinkSync::Upload { qualifying },
                        RoleLinkAsk::Upload { api_token, users },
                    ),
                )
            }
        },
        (RoleLinkSync::Upload { qualifying }, RoleLinkEvent::Done) => Some(
            (RoleLinkSync::Store, RoleLinkAsk::StoreAssigned { users: qualifying }),
        ),
        (RoleLinkSync::Drain { api_token }, RoleLinkEvent::AnyAssigned(any)) => {
            // Already empty? Skip the upload, so that a repeated "grant nobody"
            // sync does not send an empty list every cycle.
            if any {
                Some(
                    (
                        RoleLinkSync::DrainUpload,
                        RoleLinkAsk::Upload { api_token, users: Vec::new() },
                    ),
                )
            } else {
                Some((RoleLinkSync::Finished, RoleLinkAsk::Done))
            }
        },
        (RoleLinkSync::DrainUpload, RoleLinkEvent::Done) => Some(
            (RoleLinkSync::Store, RoleLinkAsk::ClearAssigned),
        ),
        (RoleLinkSync::Store, RoleLinkEvent::Done) => Some(
            (RoleLinkSync::Finished, RoleLinkAsk::Done),
        ),
        _ => None,
    }
}

/// The two syncs agree on a player: the query of a role link selects the player's
/// row exactly when the sync of that player finds that they qualify.
pub proof fn law_both_syncs_agree(
    tree: RuleTree,
    row: FactsRow,
    now: Timestamp,
    regex: spec_fn(Seq<char>, Seq<char>) -> bool,
)
    requires
        tree.well_formed(),
        forall|g: int, k: int|
            0 <= g < tree.groups@.len() && 0 <= k < tree.groups@[g].conditions@.len()
                ==> rule_meaning::comparable(
                #[trigger] tree.groups@[g].conditions@[k],
                <Facts as vstd::std_specs::convert::FromSpec<FactsRow>>::from_spec(row),
                now,
                regex,
            ),
    ensures
        rule_meaning::selects(
            tree,
            <Facts as vstd::std_specs::convert::FromSpec<FactsRow>>::from_spec(row),
            now,
            regex,
        ) == factual_verdict(tree, Some(row), now),
{
    rule_meaning::law_where_mirrors_evaluation(
        tree,
        <Facts as vstd::std_specs::convert::FromSpec<FactsRow>>::from_spec(row),
        now,
        regex,
    );
}

/// True for the requests that change who holds the role, here or on RoleLogic.
pub open spec fn changes_roles(ask: RoleLinkAsk) -> bool {
    ask is Upload || ask is StoreAssigned || ask is ClearAssigned
}

/// A failed lookup or upload never changes who holds a role: it ends the sync.
/// Only a role link that RoleLogic does not know is deleted.
pub proof fn law_failure_never_clears_a_role(
    state: RoleLinkSync,
    error: AppError,
    r: Option<(RoleLinkSync, RoleLinkAsk)>,
)
    requires
        role_link_stepped(state, RoleLinkEvent::Failed(error), r),
    ensures
        r matches Some((next, ask)) ==> next is Finished && !changes_roles(ask),
        r matches Some((_, RoleLinkAsk::DeleteOrphan)) ==> error is RoleLinkNotFound,
{
}

/// The list is stored only when RoleLogic took it: a list that is uploaded is
/// stored as it was uploaded, once the upload is done.
pub proof fn law_stored_list_is_the_uploaded_one(
    state: RoleLinkSync,
    event: RoleLinkEvent,
    r: Option<(RoleLinkSync, RoleLinkAsk)>,
)
    requires
        role_link_stepped(state, event, r),
    ensures
        r matches Some((_, RoleLinkAsk::StoreAssigned { users })) ==> event is Done && state
            == (RoleLinkSync::Upload { qualifying: users }),
        r matches Some((_, RoleLinkAsk::ClearAssigned)) ==> event is Done && state is DrainUpload,
        r matches Some((next, RoleLinkAsk::Upload { users, .. })) ==> (next matches
            RoleLinkSync::Upload { qualifying } && text::views(users@) == text::views(qualifying@))
            || (next is DrainUpload && users@.len() == 0),
{
}

/// Convention 42 through the sync: the players of an unconfigured rule are never
/// queried. Its role is drained.
pub proof fn law_unconfigured_link_is_drained(
    api_token: String,
    tree: RuleTree,
    r: Option<(RoleLinkSync, RoleLinkAsk)>,
)
    requires
        tree.unconfigured(),
        role_link_stepped(RoleLinkSync::Link, RoleLinkEvent::Link(Some((api_token, tree))), r),
    ensures
        r == Some((RoleLinkSync::Drain { api_token }, RoleLinkAsk::CheckAssigned)),
{
}

/// A list of players that is already assigned is not uploaded again.
pub proof fn law_equal_list_is_not_uploaded(
    api_token: String,
    qualifying: Vec<String>,
    current: Vec<String>,
    r: Option<(RoleLinkSync, RoleLinkAsk)>,
)
    requires
        text::views(current@) == text::views(qualifying@),
        role_link_stepped(
            RoleLinkSync::Current { api_token, qualifying },
            RoleLinkEvent::Players(current),
            r,
        ),
    ensures
        r == Some((RoleLinkSync::Finished, RoleLinkAsk::Done)),
{
}

/// What the sync of a role link finds around it. The database answers queries by
/// their text and their parameters.
pub struct Surroundings {
    pub link: Option<(String, RuleTree)>,
    pub member_ids: Seq<Seq<char>>,
    pub user_limit: usize,
    pub select: spec_fn(Seq<char>, Seq<Param>) -> Seq<Seq<char>>,
    /// The stored list of the players that hold the role.
    pub assigned: Seq<Seq<char>>,
    /// The lists that RoleLogic was handed, in their order.
    pub uploads: Seq<Seq<Seq<char>>>,
}

/// One step of a run: what was asked for in which state, and what came back.
pub struct RoleLinkMove {
    pub state: RoleLinkSync,
    pub ask: RoleLinkAsk,
    pub event: RoleLinkEvent,
}

/// True when an event is what a request brings back, where every request succeeds.
pub open spec fn answers(w: Surroundings, ask: RoleLinkAsk, event: RoleLinkEvent) -> bool {
    match ask {
        RoleLinkAsk::FetchLink => event == RoleLinkEvent::Link(w.link),
        RoleLinkAsk::FetchMemberIds => event matches RoleLinkEvent::MemberIds(ids) && text::views(
            ids@,
        ) == w.member_ids,
        RoleLinkAsk::FetchUserLimit { .. } => event == RoleLinkEvent::UserLimit(w.user_limit),
        RoleLinkAsk::RunQuery(q) => event matches RoleLinkEvent::Players(ids) && text::views(ids@)
            == (w.select)(q.sql@, rule_sql::params(q.binds@)),
        RoleLinkAsk::FetchAssigned => event matches RoleLinkEvent::Players(ids) && text::views(
            ids@,
        ) == w.assigned,
        RoleLinkAsk::CheckAssigned => event == RoleLinkEvent::AnyAssigned(w.assigned.len() > 0),
        RoleLinkAsk::Upload { .. }
        | RoleLinkAsk::StoreAssigned { .. }
        | RoleLinkAsk::ClearAssigned => event is Done,
        _ => false,
    }
}

/// What a request leaves behind.
pub open spec fn left_by(w: Surroundings, ask: RoleLinkAsk) -> Surroundings {
    match ask {
        RoleLinkAsk::Upload { users, .. } => Surroundings {
            uploads: w.uploads.push(text::views(users@)),
            ..w
        },
        RoleLinkAsk::StoreAssigned { users } => Surroundings {
            assigned: text::views(users@),
            ..w
        },
        RoleLinkAsk::ClearAssigned => Surroundings { assigned: Seq::empty(), ..w },
        _ => w,
    }
}

/// True when the moves lead from the surroundings `w` to the end of the sync, and
/// leave the surroundings `end` behind.
pub open spec fn runs(w: Surroundings, moves: Seq<RoleLinkMove>, end: Surroundings) -> bool
    decreases moves.len(),
{
    if moves.len() == 0 {
        false
    } else if moves[0].ask is Done {
        moves.len() == 1 && end == w
    } else {
        &&& moves.len() > 1
        &&& answers(w, moves[0].ask, moves[0].event)
        &&& role_link_stepped(
            moves[0].state,
            moves[0].event,
            Some((moves[1].state, moves[1].ask)),
        )
        &&& runs(left_by(w, moves[0].ask), moves.skip(1), end)
    }
}

/// True for a whole run of the sync in which every request succeeds.
pub open spec fn whole_run(w: Surroundings, moves: Seq<RoleLinkMove>, end: Surroundings) -> bool {
    &&& moves.len() > 0
    &&& moves[0].state is Link
    &&& moves[0].ask is FetchLink
    &&& runs(w, moves, end)
}

/// The players that should hold the role: those whom the query of the rule selects
/// among the members, and nobody where the rule names nobody or the guild has no
/// members. Where the role link is gone the stored list stays.
pub open spec fn wanted(w: Surroundings) -> Seq<Seq<char>> {
    match w.link {
        None => w.assigned,
        Some((_, tree)) => if tree.unconfigured() || w.member_ids.len() == 0 {
            Seq::empty()
        } else {
            (w.select)(
                qualifying_sql(tree),
                qualifying_params(tree, w.member_ids, w.user_limit),
            )
        },
    }
}

/// The surroundings once the given list is stored, and uploaded where it is new.
spec fn settled_on(w: Surroundings, list: Seq<Seq<char>>) -> Surroundings {
    Surroundings {
        assigned: list,
        uploads: if list == w.assigned {
            w.uploads
        } else {
            w.uploads.push(list)
        },
        ..w
    }
}

/// The first move of a run, and what follows it.
proof fn lemma_move(w: Surroundings, moves: Seq<RoleLinkMove>, end: Surroundings)
    requires
        runs(w, moves, end),
    ensures
        moves[0].ask is Done ==> end == w,
        !(moves[0].ask is Done) ==> {
            &&& answers(w, moves[0].ask, moves[0].event)
            &&& role_link_stepped(
                moves[0].state,
                moves[0].event,
                Some((moves.skip(1)[0].state, moves.skip(1)[0].ask)),
            )
            &&& runs(left_by(w, moves[0].ask), moves.skip(1), end)
        },
{
}

proof fn lemma_run_from_store(w: Surroundings, moves: Seq<RoleLinkMove>, end: Surroundings)
    requires
        runs(w, moves, end),
        moves[0].state is Store,
        moves[0].ask is StoreAssigned || moves[0].ask is ClearAssigned,
    ensures
        end == left_by(w, moves[0].ask),
{
    lemma_move(w, moves, end);
    lemma_move(left_by(w, moves[0].ask), moves.skip(1), end);
}

proof fn lemma_run_from_drain(w: Surroundings, moves: Seq<RoleLinkMove>, end: Surroundings)
    requires
        runs(w, moves, end),
        moves[0].state is Drain,
        moves[0].ask is CheckAssigned,
    ensures
        end == settled_on(w, Seq::empty()),
{
    let rest = moves.skip(1);
    lemma_move(w, moves, end);
    lemma_move(w, rest, end);
    if w.assigned.len() == 0 {
        assert(w.assigned =~= Seq::empty());
    } else {
        let users = rest[0].ask->Upload_users;
        assert(text::views(users@) =~= Seq::empty());
        lemma_run_from_store(left_by(w, rest[0].ask), rest.skip(1), end);
    }
}

proof fn lemma_run_from_qualifying(w: Surroundings, moves: Seq<RoleLinkMove>, end: Surroundings)
    requires
        runs(w, moves, end),
        moves[0].state is Qualifying,
        moves[0].ask is RunQuery,
    ensures
        end == settled_on(
            w,
            (w.select)(
                moves[0].ask->RunQuery_0.sql@,
                rule_sql::params(moves[0].ask->RunQuery_0.binds@),
            ),
        ),
{
    let rest = moves.skip(1);
    let last = rest.skip(1);
    lemma_move(w, moves, end);
    lemma_move(w, rest, end);
    lemma_move(w, last, end);
    let qualifying = moves[0].event->Players_0;
    if w.assigned != text::views(qualifying@) {
        lemma_run_from_store(left_by(w, last[0].ask), last.skip(1), end);
    }
}

/// Once a run is through, the stored list is the wanted one. It was uploaded once
/// where it differs from the list that was stored before, and not at all where it
/// equals it. Nothing else has changed.
pub proof fn law_run_stores_the_wanted_list(
    w: Surroundings,
    moves: Seq<RoleLinkMove>,
    end: Surroundings,
)
    requires
        whole_run(w, moves, end),
    ensures
        end == (Surroundings {
            assigned: wanted(w),
            uploads: if wanted(w) == w.assigned {
                w.uploads
            } else {
                w.uploads.push(wanted(w))
            },
            ..w
        }),
{
    let rest = moves.skip(1);
    lemma_move(w, moves, end);
    lemma_move(w, rest, end);
    if let Some((_, tree)) = w.link {
        if tree.unconfigured() {
            lemma_run_from_drain(w, rest, end);
        } else {
            let last = rest.skip(1);
            let ids = rest[0].event->MemberIds_0;
            assert(text::views(ids@).len() == ids@.len());
            if w.member_ids.len() == 0 {
                lemma_run_from_drain(w, last, end);
            } else {
                lemma_move(w, last, end);
                lemma_run_from_qualifying(w, last.skip(1), end);
            }
        }
    }
}

/// True when the database answers the query of a rule as the query means: it
/// selects members whose row the WHERE clause is true of, and leaves none of them
/// out unless the limit is reached. `rows` holds the facts of the linked players.
pub open spec fn answers_faithfully(
    w: Surroundings,
    tree: RuleTree,
    rows: Map<Seq<char>, Facts>,
    now: Timestamp,
    regex: spec_fn(Seq<char>, Seq<char>) -> bool,
) -> bool {
    let found = (w.select)(
        qualifying_sql(tree),
        qualifying_params(tree, w.member_ids, w.user_limit),
    );
    &&& forall|id: Seq<char>| #[trigger]
        found.contains(id) ==> w.member_ids.contains(id) && rows.dom().contains(id)
            && rule_meaning::selects(tree, rows[id], now, regex)
    &&& found.len() < w.user_limit ==> forall|id: Seq<char>|
        w.member_ids.contains(id) && rows.dom().contains(id) && rule_meaning::selects(
            tree,
            rows[id],
            now,
            regex,
        ) ==> #[trigger] found.contains(id)
}

/// Once a run of a configured rule is through, the players that hold the role are
/// members whom the evaluator accepts, and all of them where the limit is not
/// reached.
pub proof fn law_run_grants_to_those_who_qualify(
    w: Surroundings,
    moves: Seq<RoleLinkMove>,
    end: Surroundings,
    tree: RuleTree,
    rows: Map<Seq<char>, Facts>,
    now: Timestamp,
    regex: spec_fn(Seq<char>, Seq<char>) -> bool,
    id: Seq<char>,
)
    requires
        whole_run(w, moves, end),
        w.link matches Some((_, t)) && t == tree,
        tree.well_formed(),
        w.member_ids.len() > 0,
        answers_faithfully(w, tree, rows, now, regex),
        rows.dom().contains(id),
        forall|g: int, k: int|
            0 <= g < tree.groups@.len() && 0 <= k < tree.groups@[g].conditions@.len()
                ==> rule_meaning::comparable(
                #[trigger] tree.groups@[g].conditions@[k],
                rows[id],
                now,
                regex,
            ),
    ensures
        end.assigned.contains(id) ==> w.member_ids.contains(id) && condition_eval::tree_matches(
            tree,
            rows[id],
            now,
        ),
        end.assigned.len() < w.user_limit && w.member_ids.contains(id)
            && condition_eval::tree_matches(tree, rows[id], now) ==> end.assigned.contains(id),
{
    law_run_stores_the_wanted_list(w, moves, end);
    rule_meaning::law_where_mirrors_evaluation(tree, rows[id], now, regex);
}

/// A run that follows another at once uploads nothing and changes nothing.
pub proof fn law_second_run_uploads_nothing(
    w: Surroundings,
    first: Seq<RoleLinkMove>,
    between: Surroundings,
    second: Seq<RoleLinkMove>,
    end: Surroundings,
)
    requires
        whole_run(w, first, between),
        whole_run(between, second, end),
    ensures
        end == between,
        end.uploads == between.uploads,
{
    law_run_stores_the_wanted_list(w, first, between);
    law_run_stores_the_wanted_list(between, second, end);
    assert(wanted(between) == wanted(w));
}

proof fn lemma_adjacent(s: Seq<char>, a: Seq<char>, b: Seq<char>, i: int)
    requires
        text::occurs_at(s, a, i),
        text::occurs_at(s, b, i + a.len()),
    ensures
        text::occurs_at(s, a + b, i),
{
    assert(s.subrange(i, i + a.len() + b.len()) =~= s.subrange(i, i + a.len()) + s.subrange(
        i + a.len(),
        i + a.len() + b.len(),
    ));
}

proof fn lemma_item(s: Seq<char>, target: ConditionTarget, gap: nat, end: char, i: int)
    requires
        gap > 0,
        end == ',' || end == ' ',
        ({
            let expr = selected_expr(target);
            let name = selected_name(target);
            let at = i + 1 + expr.len();
            &&& 0 <= i
            &&& at + gap + 3 + name.len() < s.len()
            &&& s[i] == ' '
            &&& text::occurs_at(s, expr, i + 1)
            &&& text::occurs_at(s, spaces(gap), at)
            &&& s[at + gap] == 'A' && s[at + gap + 1] == 'S' && s[at + gap + 2] == ' '
            &&& text::occurs_at(s, name, at + gap + 3)
            &&& s[at + gap + 3 + name.len()] == end
        }),
    ensures
        selects_as(s, selected_expr(target), selected_name(target)),
{
    let expr = selected_expr(target);
    let name = selected_name(target);
    let at = i + 1 + expr.len();
    reveal_strlit("AS ");
    assert(s.subrange(i, i + 1) =~= seq![' ']);
    lemma_adjacent(s, seq![' '], expr, i);
    lemma_adjacent(s, seq![' '] + expr, spaces(gap), i);
    assert(s.subrange(at + gap, at + gap + 3) =~= "AS "@);
    lemma_adjacent(s, seq![' '] + expr + spaces(gap), "AS "@, i);
    lemma_adjacent(s, seq![' '] + expr + spaces(gap) + "AS "@, name, i);
    assert(s.subrange(at + gap + 3 + name.len(), at + gap + 4 + name.len()) =~= seq![end]);
    lemma_adjacent(s, seq![' '] + expr + spaces(gap) + "AS "@ + name, seq![end], i);
    assert(text::occurs_at(s, select_item(expr, gap, name, end), i));
    assert(text::has_part(s, select_item(expr, gap, name, end)));
}

/// Every target is read off the columns that its expression in a WHERE clause is
/// made of: the facts of one player and the clause of a bulk query come from the
/// same place.
#[verifier::rlimit(100)]
#[verifier::spinoff_prover]
pub proof fn law_facts_are_selected_as_the_clauses_read_them(target: ConditionTarget)
    ensures
        selects_as(FACTS_SELECT@, selected_expr(target), selected_name(target)),
{
    reveal_strlit("SELECT ou.is_supporter                        AS is_supporter, ou.is_active                           AS is_active, ou.is_restricted                       AS is_restricted, (COALESCE(ou.badge_count, 0) > 0)      AS has_badge, (COALESCE(array_length(ou.groups, 1), 0) > 0) AS has_group_badge, ou.osu_joined_at                       AS osu_joined_at, ou.last_visit_at                       AS last_visit_at, COALESCE(ou.badge_count, 0)            AS badge_count, COALESCE(ou.follower_count, 0)         AS follower_count, COALESCE(ou.mapping_followers, 0)      AS mapping_subscribers, COALESCE(ou.kudosu_total, 0)           AS kudosu, COALESCE(ou.ranked_beatmaps, 0)        AS ranked_beatmaps, COALESCE(ou.loved_beatmaps, 0)         AS loved_beatmaps, COALESCE(ou.mapping_playcount, 0)      AS mapping_playcount, COALESCE(ou.replays_watched_others, 0) AS replays_watched_by_others, COALESCE(ou.favourite_beatmapsets, 0)  AS favourite_count, ou.country_code                        AS country_code, ou.osu_username                        AS username, ou.groups                              AS groups, ou.playstyles                          AS playstyles, os.global_rank                         AS global_rank, os.country_rank                        AS country_rank, COALESCE(os.performance_points, 0)     AS performance_points, COALESCE(os.play_count, 0)             AS play_count, COALESCE(os.play_time_hours, 0)        AS play_time_hours, COALESCE(os.total_score, 0)::bigint    AS total_score, COALESCE(os.ranked_score, 0)::bigint   AS ranked_score, COALESCE(os.hit_accuracy, 0)           AS hit_accuracy, COALESCE(os.max_combo, 0)              AS max_combo, COALESCE(os.level_int, 0)              AS level_int, COALESCE(os.count_ss + os.count_ss_silver, 0) AS ss_count, COALESCE(os.count_s + os.count_s_silver, 0)   AS s_count, COALESCE(os.count_a, 0)                AS a_count FROM osu_users ou LEFT JOIN osu_stats os ON os.osu_user_id = ou.osu_user_id AND os.mode = $2 WHERE ou.discord_id = $1");
    reveal_strlit("::bigint");
    match target {
        ConditionTarget::IsSupporter => {
            reveal_strlit("ou.is_supporter");
            reveal_strlit("is_supporter");
            assert(FACTS_SELECT@.subrange(7, 22) =~= "ou.is_supporter"@);
            assert(FACTS_SELECT@.subrange(22, 46) =~= spaces(24));
            assert(FACTS_SELECT@.subrange(49, 61) =~= "is_supporter"@);
            lemma_item(FACTS_SELECT@, target, 24, ',', 6);
        },
        ConditionTarget::IsActive => {
            reveal_strlit("ou.is_active");
            reveal_strlit("is_active");
            assert(FACTS_SELECT@.subrange(63, 75) =~= "ou.is_active"@);
            assert(FACTS_SELECT@.subrange(75, 102) =~= spaces(27));
            assert(FACTS_SELECT@.subrange(105, 114) =~= "is_active"@);
            lemma_item(FACTS_SELECT@, target, 27, ',', 62);
        },
        ConditionTarget::IsRestricted => {
            reveal_strlit("ou.is_restricted");
            reveal_strlit("is_restricted");
            assert(FACTS_SELECT@.subrange(116, 132) =~= "ou.is_restricted"@);
            assert(FACTS_SELECT@.subrange(132, 155) =~= spaces(23));
            assert(FACTS_SELECT@.subrange(158, 171) =~= "is_restricted"@);
            lemma_item(FACTS_SELECT@, target, 23, ',', 115);
        },
        ConditionTarget::HasBadge => {
            reveal_strlit("(COALESCE(ou.badge_count, 0) > 0)");
            reveal_strlit("has_badge");
            assert(FACTS_SELECT@.subrange(173, 206) =~= "(COALESCE(ou.badge_count, 0) > 0)"@);
            assert(FACTS_SELECT@.subrange(206, 212) =~= spaces(6));
            assert(FACTS_SELECT@.subrange(215, 224) =~= "has_badge"@);
            lemma_item(FACTS_SELECT@, target, 6, ',', 172);
        },
        ConditionTarget::HasGroupBadge => {
            reveal_strlit("(COALESCE(array_length(ou.groups, 1), 0) > 0)");
            reveal_strlit("has_group_badge");
            assert(FACTS_SELECT@.subrange(226, 271) =~= "(COALESCE(array_length(ou.groups, 1), 0) > 0)"@);
            assert(FACTS_SELECT@.subrange(271, 272) =~= spaces(1));
            assert(FACTS_SELECT@.subrange(275, 290) =~= "has_group_badge"@);
            lemma_item(FACTS_SELECT@, target, 1, ',', 225);
        },
        ConditionTarget::AccountAgeDays => {
            reveal_strlit("ou.osu_joined_at");
            reveal_strlit("osu_joined_at");
            assert(FACTS_SELECT@.subrange(292, 308) =~= "ou.osu_joined_at"@);
            assert(FACTS_SELECT@.subrange(308, 331) =~= spaces(23));
            assert(FACTS_SELECT@.subrange(334, 347) =~= "osu_joined_at"@);
            lemma_item(FACTS_SELECT@, target, 23, ',', 291);
        },
        ConditionTarget::DaysSinceLastVisit => {
            reveal_strlit("ou.last_visit_at");
            reveal_strlit("last_visit_at");
            assert(FACTS_SELECT@.subrange(349, 365) =~= "ou.last_visit_at"@);
            assert(FACTS_SELECT@.subrange(365, 388) =~= spaces(23));
            assert(FACTS_SELECT@.subrange(391, 404) =~= "last_visit_at"@);
            lemma_item(FACTS_SELECT@, target, 23, ',', 348);
        },
        ConditionTarget::BadgeCount => {
            reveal_strlit("COALESCE(ou.badge_count, 0)");
            reveal_strlit("badge_count");
            assert(FACTS_SELECT@.subrange(406, 433) =~= "COALESCE(ou.badge_count, 0)"@);
            assert(FACTS_SELECT@.subrange(433, 445) =~= spaces(12));
            assert(FACTS_SELECT@.subrange(448, 459) =~= "badge_count"@);
            lemma_item(FACTS_SELECT@, target, 12, ',', 405);
        },
        ConditionTarget::FollowerCount => {
            reveal_strlit("COALESCE(ou.follower_count, 0)");
            reveal_strlit("follower_count");
            assert(FACTS_SELECT@.subrange(461, 491) =~= "COALESCE(ou.follower_count, 0)"@);
            assert(FACTS_SELECT@.subrange(491, 500) =~= spaces(9));
            assert(FACTS_SELECT@.subrange(503, 517) =~= "follower_count"@);
            lemma_item(FACTS_SELECT@, target, 9, ',', 460);
        },
        ConditionTarget::MappingSubscribers => {
            reveal_strlit("COALESCE(ou.mapping_followers, 0)");
            reveal_strlit("mapping_subscribers");
            assert(FACTS_SELECT@.subrange(519, 552) =~= "COALESCE(ou.mapping_followers, 0)"@);
            assert(FACTS_SELECT@.subrange(552, 558) =~= spaces(6));
            assert(FACTS_SELECT@.subrange(561, 580) =~= "mapping_subscribers"@);
            lemma_item(FACTS_SELECT@, target, 6, ',', 518);
        },
        ConditionTarget::Kudosu => {
            reveal_strlit("COALESCE(ou.kudosu_total, 0)");
            reveal_strlit("kudosu");
            assert(FACTS_SELECT@.subrange(582, 610) =~= "COALESCE(ou.kudosu_total, 0)"@);
            assert(FACTS_SELECT@.subrange(610, 621) =~= spaces(11));
            assert(FACTS_SELECT@.subrange(624, 630) =~= "kudosu"@);
            lemma_item(FACTS_SELECT@, target, 11, ',', 581);
        },
        ConditionTarget::RankedBeatmaps => {
            reveal_strlit("COALESCE(ou.ranked_beatmaps, 0)");
            reveal_strlit("ranked_beatmaps");
            assert(FACTS_SELECT@.subrange(632, 663) =~= "COALESCE(ou.ranked_beatmaps, 0)"@);
            assert(FACTS_SELECT@.subrange(663, 671) =~= spaces(8));
            assert(FACTS_SELECT@.subrange(674, 689) =~= "ranked_beatmaps"@);
            lemma_item(FACTS_SELECT@, target, 8, ',', 631);
        },
        ConditionTarget::LovedBeatmaps => {
            reveal_strlit("COALESCE(ou.loved_beatmaps, 0)");
            reveal_strlit("loved_beatmaps");
            assert(FACTS_SELECT@.subrange(691, 721) =~= "COALESCE(ou.loved_beatmaps, 0)"@);
            assert(FACTS_SELECT@.subrange(721, 730) =~= spaces(9));
            assert(FACTS_SELECT@.subrange(733, 747) =~= "loved_beatmaps"@);
            lemma_item(FACTS_SELECT@, target, 9, ',', 690);
        },
        ConditionTarget::MappingPlaycount => {
            reveal_strlit("COALESCE(ou.mapping_playcount, 0)");
            reveal_strlit("mapping_playcount");
            assert(FACTS_SELECT@.subrange(749, 782) =~= "COALESCE(ou.mapping_playcount, 0)"@);
            assert(FACTS_SELECT@.subrange(782, 788) =~= spaces(6));
            assert(FACTS_SELECT@.subrange(791, 808) =~= "mapping_playcount"@);
            lemma_item(FACTS_SELECT@, target, 6, ',', 748);
        },
        ConditionTarget::ReplaysWatchedByOthers => {
            reveal_strlit("COALESCE(ou.replays_watched_others, 0)");
            reveal_strlit("replays_watched_by_others");
            assert(FACTS_SELECT@.subrange(810, 848) =~= "COALESCE(ou.replays_watched_others, 0)"@);
            assert(FACTS_SELECT@.subrange(848, 849) =~= spaces(1));
            assert(FACTS_SELECT@.subrange(852, 877) =~= "replays_watched_by_others"@);
            lemma_item(FACTS_SELECT@, target, 1, ',', 809);
        },
        ConditionTarget::FavouriteCount => {
            reveal_strlit("COALESCE(ou.favourite_beatmapsets, 0)");
            reveal_strlit("favourite_count");
            assert(FACTS_SELECT@.subrange(879, 916) =~= "COALESCE(ou.favourite_beatmapsets, 0)"@);
            assert(FACTS_SELECT@.subrange(916, 918) =~= spaces(2));
            assert(FACTS_SELECT@.subrange(921, 936) =~= "favourite_count"@);
            lemma_item(FACTS_SELECT@, target, 2, ',', 878);
        },
        ConditionTarget::CountryCode => {
            reveal_strlit("ou.country_code");
            reveal_strlit("country_code");
            assert(FACTS_SELECT@.subrange(938, 953) =~= "ou.country_code"@);
            assert(FACTS_SELECT@.subrange(953, 977) =~= spaces(24));
            assert(FACTS_SELECT@.subrange(980, 992) =~= "country_code"@);
            lemma_item(FACTS_SELECT@, target, 24, ',', 937);
        },
        ConditionTarget::Username => {
            reveal_strlit("ou.osu_username");
            reveal_strlit("username");
            assert(FACTS_SELECT@.subrange(994, 1009) =~= "ou.osu_username"@);
            assert(FACTS_SELECT@.subrange(1009, 1033) =~= spaces(24));
            assert(FACTS_SELECT@.subrange(1036, 1044) =~= "username"@);
            lemma_item(FACTS_SELECT@, target, 24, ',', 993);
        },
        ConditionTarget::GroupName => {
            reveal_strlit("ou.groups");
            reveal_strlit("groups");
            assert(FACTS_SELECT@.subrange(1046, 1055) =~= "ou.groups"@);
            assert(FACTS_SELECT@.subrange(1055, 1085) =~= spaces(30));
            assert(FACTS_SELECT@.subrange(1088, 1094) =~= "groups"@);
            lemma_item(FACTS_SELECT@, target, 30, ',', 1045);
        },
        ConditionTarget::Playstyle => {
            reveal_strlit("ou.playstyles");
            reveal_strlit("playstyles");
            assert(FACTS_SELECT@.subrange(1096, 1109) =~= "ou.playstyles"@);
            assert(FACTS_SELECT@.subrange(1109, 1135) =~= spaces(26));
            assert(FACTS_SELECT@.subrange(1138, 1148) =~= "playstyles"@);
            lemma_item(FACTS_SELECT@, target, 26, ',', 1095);
        },
        ConditionTarget::GlobalRank => {
            reveal_strlit("os.global_rank");
            reveal_strlit("global_rank");
            assert(FACTS_SELECT@.subrange(1150, 1164) =~= "os.global_rank"@);
            assert(FACTS_SELECT@.subrange(1164, 1189) =~= spaces(25));
            assert(FACTS_SELECT@.subrange(1192, 1203) =~= "global_rank"@);
            lemma_item(FACTS_SELECT@, target, 25, ',', 1149);
        },
        ConditionTarget::CountryRank => {
            reveal_strlit("os.country_rank");
            reveal_strlit("country_rank");
            assert(FACTS_SELECT@.subrange(1205, 1220) =~= "os.country_rank"@);
            assert(FACTS_SELECT@.subrange(1220, 1244) =~= spaces(24));
            assert(FACTS_SELECT@.subrange(1247, 1259) =~= "country_rank"@);
            lemma_item(FACTS_SELECT@, target, 24, ',', 1204);
        },
        ConditionTarget::PerformancePoints => {
            reveal_strlit("COALESCE(os.performance_points, 0)");
            reveal_strlit("performance_points");
            assert(FACTS_SELECT@.subrange(1261, 1295) =~= "COALESCE(os.performance_points, 0)"@);
            assert(FACTS_SELECT@.subrange(1295, 1300) =~= spaces(5));
            assert(FACTS_SELECT@.subrange(1303, 1321) =~= "performance_points"@);
            lemma_item(FACTS_SELECT@, target, 5, ',', 1260);
        },
        ConditionTarget::PlayCount => {
            reveal_strlit("COALESCE(os.play_count, 0)");
            reveal_strlit("play_count");
            assert(FACTS_SELECT@.subrange(1323, 1349) =~= "COALESCE(os.play_count, 0)"@);
            assert(FACTS_SELECT@.subrange(1349, 1362) =~= spaces(13));
            assert(FACTS_SELECT@.subrange(1365, 1375) =~= "play_count"@);
            lemma_item(FACTS_SELECT@, target, 13, ',', 1322);
        },
        ConditionTarget::PlayTimeHours => {
            reveal_strlit("COALESCE(os.play_time_hours, 0)");
            reveal_strlit("play_time_hours");
            assert(FACTS_SELECT@.subrange(1377, 1408) =~= "COALESCE(os.play_time_hours, 0)"@);
            assert(FACTS_SELECT@.subrange(1408, 1416) =~= spaces(8));
            assert(FACTS_SELECT@.subrange(1419, 1434) =~= "play_time_hours"@);
            lemma_item(FACTS_SELECT@, target, 8, ',', 1376);
        },
        ConditionTarget::TotalScore => {
            reveal_strlit("COALESCE(os.total_score, 0)");
            reveal_strlit("total_score");
            assert(FACTS_SELECT@.subrange(1436, 1463) =~= "COALESCE(os.total_score, 0)"@);
            assert(FACTS_SELECT@.subrange(1463, 1471) =~= "::bigint"@);
            lemma_adjacent(FACTS_SELECT@, "COALESCE(os.total_score, 0)"@, "::bigint"@, 1436);
            assert(FACTS_SELECT@.subrange(1471, 1475) =~= spaces(4));
            assert(FACTS_SELECT@.subrange(1478, 1489) =~= "total_score"@);
            lemma_item(FACTS_SELECT@, target, 4, ',', 1435);
        },
        ConditionTarget::RankedScore => {
            reveal_strlit("COALESCE(os.ranked_score, 0)");
            reveal_strlit("ranked_score");
            assert(FACTS_SELECT@.subrange(1491, 1519) =~= "COALESCE(os.ranked_score, 0)"@);
            assert(FACTS_SELECT@.subrange(1519, 1527) =~= "::bigint"@);
            lemma_adjacent(FACTS_SELECT@, "COALESCE(os.ranked_score, 0)"@, "::bigint"@, 1491);
            assert(FACTS_SELECT@.subrange(1527, 1530) =~= spaces(3));
            assert(FACTS_SELECT@.subrange(1533, 1545) =~= "ranked_score"@);
            lemma_item(FACTS_SELECT@, target, 3, ',', 1490);
        },
        ConditionTarget::HitAccuracy => {
            reveal_strlit("COALESCE(os.hit_accuracy, 0)");
            reveal_strlit("hit_accuracy");
            assert(FACTS_SELECT@.subrange(1547, 1575) =~= "COALESCE(os.hit_accuracy, 0)"@);
            assert(FACTS_SELECT@.subrange(1575, 1586) =~= spaces(11));
            assert(FACTS_SELECT@.subrange(1589, 1601) =~= "hit_accuracy"@);
            lemma_item(FACTS_SELECT@, target, 11, ',', 1546);
        },
        ConditionTarget::MaxCombo => {
            reveal_strlit("COALESCE(os.max_combo, 0)");
            reveal_strlit("max_combo");
            assert(FACTS_SELECT@.subrange(1603, 1628) =~= "COALESCE(os.max_combo, 0)"@);
            assert(FACTS_SELECT@.subrange(1628, 1642) =~= spaces(14));
            assert(FACTS_SELECT@.subrange(1645, 1654) =~= "max_combo"@);
            lemma_item(FACTS_SELECT@, target, 14, ',', 1602);
        },
        ConditionTarget::LevelInt => {
            reveal_strlit("COALESCE(os.level_int, 0)");
            reveal_strlit("level_int");
            assert(FACTS_SELECT@.subrange(1656, 1681) =~= "COALESCE(os.level_int, 0)"@);
            assert(FACTS_SELECT@.subrange(1681, 1695) =~= spaces(14));
            assert(FACTS_SELECT@.subrange(1698, 1707) =~= "level_int"@);
            lemma_item(FACTS_SELECT@, target, 14, ',', 1655);
        },
        ConditionTarget::SsCount => {
            reveal_strlit("COALESCE(os.count_ss + os.count_ss_silver, 0)");
            reveal_strlit("ss_count");
            assert(FACTS_SELECT@.subrange(1709, 1754) =~= "COALESCE(os.count_ss + os.count_ss_silver, 0)"@);
            assert(FACTS_SELECT@.subrange(1754, 1755) =~= spaces(1));
            assert(FACTS_SELECT@.subrange(1758, 1766) =~= "ss_count"@);
            lemma_item(FACTS_SELECT@, target, 1, ',', 1708);
        },
        ConditionTarget::SCount => {
            reveal_strlit("COALESCE(os.count_s + os.count_s_silver, 0)");
            reveal_strlit("s_count");
            assert(FACTS_SELECT@.subrange(1768, 1811) =~= "COALESCE(os.count_s + os.count_s_silver, 0)"@);
            assert(FACTS_SELECT@.subrange(1811, 1814) =~= spaces(3));
            assert(FACTS_SELECT@.subrange(1817, 1824) =~= "s_count"@);
            lemma_item(FACTS_SELECT@, target, 3, ',', 1767);
        },
        ConditionTarget::ACount => {
            reveal_strlit("COALESCE(os.count_a, 0)");
            reveal_strlit("a_count");
            assert(FACTS_SELECT@.subrange(1826, 1849) =~= "COALESCE(os.count_a, 0)"@);
            assert(FACTS_SELECT@.subrange(1849, 1865) =~= spaces(16));
            assert(FACTS_SELECT@.subrange(1868, 1875) =~= "a_count"@);
            lemma_item(FACTS_SELECT@, target, 16, ' ', 1825);
        },
    }
}

/// Every change is called for by a link: it is made on the role of the link, with the
/// token of the link, and adds the role exactly when the player qualifies.
pub proof fn law_changes_are_made_in_the_name_of_their_link(
    links: Seq<RoleLink>,
    verdicts: Seq<bool>,
    held: Set<RoleKey>,
    k: int,
) -> (i: int)
    requires
        0 <= k < planned(links, verdicts, held).len(),
    ensures
        0 <= i < links.len(),
        match planned(links, verdicts, held)[k] {
            PlayerAction::Add { guild_id, role_id, api_token } => guild_id == links[i].guild_id
                && role_id == links[i].role_id && api_token == links[i].api_token && verdicts[i]
                && !held.contains((guild_id@, role_id@)),
            PlayerAction::Remove { guild_id, role_id, api_token } => guild_id == links[i].guild_id
                && role_id == links[i].role_id && api_token == links[i].api_token && !verdicts[i]
                && held.contains((guild_id@, role_id@)),
        },
    decreases links.len(),
{
    let n = links.len() - 1;
    let before = planned(links.drop_last(), verdicts, held);
    if k < before.len() {
        let i = law_changes_are_made_in_the_name_of_their_link(
            links.drop_last(),
            verdicts,
            held,
            k,
        );
        assert(planned(links, verdicts, held)[k] == before[k]);
        assert(links.drop_last()[i] == links[i]);
        i
    } else {
        n
    }
}

/// A change that RoleLogic made is stored, a role link that it does not know is deleted
/// here as well, and any other failure leaves everything as it is.
pub proof fn law_calls_are_followed_up(error: Option<AppError>)
    ensures
        follow_up(error) is Store <==> error is None,
        follow_up(error) is DeleteOrphan <==> (error matches Some(e) && e is RoleLinkNotFound),
        follow_up(error) is Leave <==> (error matches Some(e) && !(e is RoleLinkNotFound)),
{
}

/// The role links that are asked for are those of the guilds that the player is in.
pub proof fn law_links_are_those_of_the_guilds(
    ids: Vec<String>,
    now: Timestamp,
    r: Option<(PlayerSync, PlayerAsk)>,
)
    requires
        player_stepped(PlayerSync::Guilds, PlayerEvent::GuildIds(ids), now, r),
    ensures
        ids@.len() > 0 ==> (r matches Some((PlayerSync::Links, PlayerAsk::FetchRoleLinks {
            guild_ids,
        })) && guild_ids == ids),
        ids@.len() == 0 ==> (r matches Some((PlayerSync::Finished, PlayerAsk::Done))),
{
}

/// The token that the sync of a role link works with, once it has one.
pub open spec fn token_of(state: RoleLinkSync) -> Option<String> {
    match state {
        RoleLinkSync::Members { api_token, .. } => Some(api_token),
        RoleLinkSync::Limit { api_token, .. } => Some(api_token),
        RoleLinkSync::Qualifying { api_token } => Some(api_token),
        RoleLinkSync::Current { api_token, .. } => Some(api_token),
        RoleLinkSync::Drain { api_token } => Some(api_token),
        _ => None,
    }
}

/// The sync of a role link speaks to RoleLogic with the token of that link alone, from
/// the first step to the upload.
pub proof fn law_role_links_use_their_own_token(
    state: RoleLinkSync,
    event: RoleLinkEvent,
    next: RoleLinkSync,
    ask: RoleLinkAsk,
)
    requires
        role_link_stepped(state, event, Some((next, ask))),
    ensures
        event matches RoleLinkEvent::Link(Some(link)) ==> token_of(next) == Some(link.0),
        token_of(state) is Some && token_of(next) is Some ==> token_of(next) == token_of(state),
        ask matches RoleLinkAsk::FetchUserLimit { api_token } ==> token_of(state) == Some(
            api_token,
        ),
        ask matches RoleLinkAsk::Upload { api_token, .. } ==> token_of(state) == Some(api_token),
{
}

/// The rule and the members that the query is made of are those that were fetched, and
/// the limit is the one that RoleLogic gave.
pub proof fn law_queries_are_made_of_what_was_fetched(
    api_token: String,
    tree: RuleTree,
    member_ids: Vec<String>,
    limit: usize,
    first: Option<(RoleLinkSync, RoleLinkAsk)>,
    second: Option<(RoleLinkSync, RoleLinkAsk)>,
    third: Option<(RoleLinkSync, RoleLinkAsk)>,
)
    requires
        !tree.unconfigured(),
        member_ids@.len() > 0,
        role_link_stepped(
            RoleLinkSync::Link,
            RoleLinkEvent::Link(Some((api_token, tree))),
            first,
        ),
        first matches Some((next, _)) ==> role_link_stepped(
            next,
            RoleLinkEvent::MemberIds(member_ids),
            second,
        ),
        second matches Some((next, _)) ==> role_link_stepped(
            next,
            RoleLinkEvent::UserLimit(limit),
            third,
        ),
    ensures
        third matches Some((_, RoleLinkAsk::RunQuery(q))) && q.sql@ == qualifying_sql(tree)
            && rule_sql::params(q.binds@) == qualifying_params(
            tree,
            text::views(member_ids@),
            limit,
        ),
{
}

/// A failure that ends a sync is reported as it is. Where RoleLogic does not know the
/// role link, the link is deleted here as well; where the link is disabled there, there
/// is nothing to do.
pub proof fn law_failures_are_reported_as_they_are(
    state: RoleLinkSync,
    error: AppError,
    r: Option<(RoleLinkSync, RoleLinkAsk)>,
)
    requires
        !(state is Finished),
        role_link_stepped(state, RoleLinkEvent::Failed(error), r),
    ensures
        r matches Some((RoleLinkSync::Finished, ask)) && (if error is RoleLinkNotFound && (state
            is Limit || state is Upload || state is DrainUpload) {
            ask is DeleteOrphan
        } else if error is RoleLinkDisabled && state is Limit {
            ask is Done
        } else {
            ask == RoleLinkAsk::Fail(error)
        }),
{
}

} // verus!
