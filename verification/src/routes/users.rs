//! Public "linked players" listing: every server member who linked an
//! osu! account. Useful for admins to see who's actually playing.
//!
//! Gated by the guild's `view_permission`:
//!   * 'disabled': nobody (page renders an explanatory notice)
//!   * 'managers': Manage-Server only
//!   * 'members': any member of the guild

use crate::clock;
use crate::error;
use crate::error::{AppError, Problem};
use crate::headers;
use crate::json;
use crate::json::{Json, Value};
use crate::models::facts::Timestamp;
use crate::services::auth;
use crate::services::auth::GuildPermission;
use crate::services::csrf;
use crate::text;
use axum::http::HeaderMap;
use vstd::prelude::*;
use vstd::string::*;

verus! {

/// The players page: its template with the base URL and the guild filled in.
pub fn users_page(template: &str, base_url: &str, guild_id: &str) -> (r: String)
    ensures
        r@ == text::replaced(
            text::replaced(template@, "{{BASE_URL}}"@, base_url@),
            "{{GUILD_ID}}"@,
            guild_id@,
        ),
{
    proof {
        reveal_strlit("{{BASE_URL}}");
        reveal_strlit("{{GUILD_ID}}");
    }
    let html = text::replace(template, "{{BASE_URL}}", base_url);
    text::replace(html.as_str(), "{{GUILD_ID}}", guild_id)
}

/// One player of the list, with their stats in osu! standard.
#[derive(Debug, PartialEq)]
pub struct PlayerRow {
    pub discord_id: String,
    pub discord_name: Option<String>,
    pub osu_username: String,
    pub osu_user_id: i64,
    pub country_code: Option<String>,
    pub is_supporter: bool,
    pub badge_count: i32,
    pub global_rank: Option<i32>,
    pub performance_points: i32,
    pub play_count: i32,
    pub last_visit_at: Option<Timestamp>,
    pub linked_at: Timestamp,
}

impl PlayerRow {
    /// Its instants are ones that the calendar knows.
    pub open spec fn valid(self) -> bool {
        &&& self.linked_at.valid()
        &&& self.last_visit_at is Some ==> self.last_visit_at->0.valid()
    }
}

/// A player as JSON, given how the instants are shown.
pub open spec fn player_json(
    row: PlayerRow,
    last_visit_at: Option<Seq<char>>,
    linked_at: Seq<char>,
) -> Json {
    Json::object().with("discord_id"@, Json::Text(row.discord_id@)).with(
        "discord_name"@,
        json::opt_text(text::opt_view(row.discord_name)),
    ).with("osu_username"@, Json::Text(row.osu_username@)).with(
        "osu_user_id"@,
        Json::Int(row.osu_user_id as int),
    ).with(
        "osu_profile_url"@,
        Json::Text("https://osu.ppy.sh/users/"@ + text::int_dec(row.osu_user_id as int)),
    ).with("country_code"@, json::opt_text(text::opt_view(row.country_code))).with(
        "is_supporter"@,
        Json::Bool(row.is_supporter),
    ).with("badge_count"@, Json::Int(row.badge_count as int)).with(
        "global_rank"@,
        match row.global_rank {
            Some(n) => Json::Int(n as int),
            None => Json::Null,
        },
    ).with("performance_points"@, Json::Int(row.performance_points as int)).with(
        "play_count"@,
        Json::Int(row.play_count as int),
    ).with("last_visit_at"@, json::opt_text(last_visit_at)).with(
        "linked_at"@,
        Json::Text(linked_at),
    )
}

/// A player as JSON.
pub open spec fn row_json(row: PlayerRow) -> Json {
    player_json(
        row,
        match row.last_visit_at {
            Some(t) => Some(clock::rfc3339_text(t.secs, t.nanos)),
            None => None,
        },
        clock::rfc3339_text(row.linked_at.secs, row.linked_at.nanos),
    )
}

fn opt_str(s: &Option<String>) -> (r: Option<&str>)
    ensures
        text::opt_str_view(r) == text::opt_view(*s),
{
    match s {
        Some(t) => Some(t.as_str()),
        None => None,
    }
}

/// Write a player as JSON, given how the instants are shown.
pub fn show_player(row: &PlayerRow, last_visit_at: Option<&str>, linked_at: &str) -> (r: Value)
    ensures
        r@ == player_json(*row, text::opt_str_view(last_visit_at), linked_at@),
{
    let id = text::signed_decimal(row.osu_user_id);
    let url = text::join2("https://osu.ppy.sh/users/", id.as_str());
    let global_rank = match row.global_rank {
        Some(n) => Value::number(n as i64),
        None => Value::Null,
    };
    Value::object().with("discord_id", Value::text(row.discord_id.as_str())).with(
        "discord_name",
        Value::opt_text(opt_str(&row.discord_name)),
    ).with("osu_username", Value::text(row.osu_username.as_str())).with(
        "osu_user_id",
        Value::number(row.osu_user_id),
    ).with("osu_profile_url", Value::text(url.as_str())).with(
        "country_code",
        Value::opt_text(opt_str(&row.country_code)),
    ).with("is_supporter", Value::Bool(row.is_supporter)).with(
        "badge_count",
        Value::number(row.badge_count as i64),
    ).with("global_rank", global_rank).with(
        "performance_points",
        Value::number(row.performance_points as i64),
    ).with("play_count", Value::number(row.play_count as i64)).with(
        "last_visit_at",
        Value::opt_text(last_visit_at),
    ).with("linked_at", Value::text(linked_at))
}

fn show_row(row: &PlayerRow) -> (r: Value)
    requires
        row.valid(),
    ensures
        r@ == row_json(*row),
{
    let linked_at = clock::show_rfc3339(row.linked_at);
    match row.last_visit_at {
        Some(t) => {
            let visited = clock::show_rfc3339(t);
            show_player(row, Some(visited.as_str()), linked_at.as_str())
        },
        None => show_player(row, None, linked_at.as_str()),
    }
}

/// The body of the players list.
pub open spec fn list_json(
    guild_id: Seq<char>,
    guild_name: Option<Seq<char>>,
    rows: Seq<PlayerRow>,
) -> Json {
    Json::object().with("guild_id"@, Json::Text(guild_id)).with(
        "guild_name"@,
        json::opt_text(guild_name),
    ).with("count"@, Json::Int(rows.len() as int)).with(
        "users"@,
        Json::List(rows.map_values(|row: PlayerRow| row_json(row))),
    )
}

fn show_list(guild_id: &str, guild_name: &Option<String>, rows: &Vec<PlayerRow>) -> (r: Value)
    requires
        forall|i: int| 0 <= i < rows@.len() ==> (#[trigger] rows@[i]).valid(),
    ensures
        r@ == list_json(guild_id@, text::opt_view(*guild_name), rows@),
{
    let mut users: Vec<Value> = Vec::new();
    let mut i: usize = 0;
    while i < rows.len()
        invariant
            i <= rows@.len(),
            forall|k: int| 0 <= k < rows@.len() ==> (#[trigger] rows@[k]).valid(),
            users@.len() == i,
            forall|k: int| 0 <= k < i ==> (#[trigger] users@[k])@ == row_json(rows@[k]),
        decreases rows@.len() - i,
    {
        users.push(show_row(&rows[i]));
        i += 1;
    }
    proof {
        Value::array_view(users);
        assert(json::json_list(users@) =~= rows@.map_values(|row: PlayerRow| row_json(row)));
    }
    Value::object().with("guild_id", Value::text(guild_id)).with(
        "guild_name",
        Value::opt_text(opt_str(guild_name)),
    ).with("count", Value::count(rows.len())).with("users", Value::Array(users))
}

/// The permission that a guild has set, which is 'managers' where it has set none.
pub open spec fn effective(view_permission: Option<Seq<char>>) -> Seq<char> {
    match view_permission {
        Some(s) => s,
        None => "managers"@,
    }
}

/// Whether a caller may see the list of a guild whose permission is not
/// 'disabled'.
pub open spec fn viewer_verdict(view_permission: Seq<char>, perm: GuildPermission) -> Result<
    (),
    Problem,
> {
    if !perm.is_member {
        Err(Problem::Forbidden("You're not a member of this server."@))
    } else if view_permission == "managers"@ && !perm.is_manager {
        Err(Problem::Forbidden("This list is visible to server managers only."@))
    } else {
        Ok(())
    }
}

/// How far a request for the players list has come.
#[derive(Debug)]
pub enum ListState {
    /// Waiting for the guild's permission.
    Setting,
    /// Waiting for the caller's permission.
    Permission { view_permission: String },
    /// Waiting for the members of the guild.
    Members,
    /// Waiting for the players.
    Players { guild_name: Option<String> },
    Finished,
}

/// What a request for the players list brought back.
#[derive(Debug)]
pub enum ListEvent {
    ViewPermission(Option<String>),
    Permission(GuildPermission),
    Members { member_ids: Vec<String>, guild_name: Option<String> },
    Players(Vec<PlayerRow>),
    Failed(AppError),
}

impl ListEvent {
    /// The instants of its players are ones that the calendar knows.
    pub open spec fn valid(self) -> bool {
        self matches ListEvent::Players(rows) ==> forall|i: int|
            0 <= i < rows@.len() ==> (#[trigger] rows@[i]).valid()
    }
}

/// What to do next for a request for the players list.
#[derive(Debug)]
pub enum ListAsk {
    FetchViewPermission,
    FetchPermission,
    FetchMembers,
    /// The linked players among the members, ordered by their osu! names.
    FetchPlayers { member_ids: Vec<String> },
    Reply(Value),
    Fail(AppError),
}

/// True when a step ends the request with the given refusal.
pub open spec fn refuses(r: Option<(ListState, ListAsk)>, problem: Problem) -> bool {
    r matches Some((ListState::Finished, ListAsk::Fail(e))) && e@ == problem
}

/// True when a step of a request for the players list is as it should be. An event
/// that the state does not wait for leads nowhere.
pub open spec fn list_stepped(
    guild_id: Seq<char>,
    state: ListState,
    event: ListEvent,
    r: Option<(ListState, ListAsk)>,
) -> bool {
    match (state, event) {
        (ListState::Finished, _) => r is None,
        (_, ListEvent::Failed(e)) => r == Some((ListState::Finished, ListAsk::Fail(e))),
        (ListState::Setting, ListEvent::ViewPermission(set)) => {
            let view_permission = effective(text::opt_view(set));
            if view_permission == "disabled"@ {
                refuses(
                    r,
                    Problem::Forbidden("The player list is disabled for this server."@),
                )
            } else {
                &&& r matches Some((
                    ListState::Permission { view_permission: v },
                    ListAsk::FetchPermission,
                ))
                &&& v@ == view_permission
            }
        },
        (ListState::Permission { view_permission }, ListEvent::Permission(perm)) => match viewer_verdict(
            view_permission@,
            perm,
        ) {
            Err(problem) => refuses(r, problem),
            Ok(()) => r == Some((ListState::Members, ListAsk::FetchMembers)),
        },
        (ListState::Members, ListEvent::Members { member_ids, guild_name }) => r == Some(
            (ListState::Players { guild_name }, ListAsk::FetchPlayers { member_ids }),
        ),
        (ListState::Players { guild_name }, ListEvent::Players(rows)) => {
            &&& r matches Some((ListState::Finished, ListAsk::Reply(body)))
            &&& body@ == list_json(guild_id, text::opt_view(guild_name), rows@)
        },
        _ => r is None,
    }
}

/// The first step of a request for the players list.
pub fn start_list() -> (r: (ListState, ListAsk))
    ensures
        r == (ListState::Setting, ListAsk::FetchViewPermission),
{
    (ListState::Setting, ListAsk::FetchViewPermission)
}

fn refuse(msg: &str) -> (r: Option<(ListState, ListAsk)>)
    ensures
        refuses(r, Problem::Forbidden(msg@)),
{
    Some((ListState::Finished, ListAsk::Fail(AppError::Forbidden(msg.to_owned()))))
}

/// One step of a request for the players list.
pub fn users_data(guild_id: &str, state: ListState, event: ListEvent) -> (r: Option<
    (ListState, ListAsk),
>)
    requires
        event.valid(),
    ensures
        list_stepped(guild_id@, state, event, r),
{
    match (state, event) {
        (ListState::Finished, _) => None,
        (_, ListEvent::Failed(e)) => Some((ListState::Finished, ListAsk::Fail(e))),
        (ListState::Setting, ListEvent::ViewPermission(set)) => {
            let view_permission = match set {
                Some(s) => s,
                None => "managers".to_owned(),
            };
            if text::same(view_permission.as_str(), "disabled") {
                return refuse("The player list is disabled for this server.");
            }
            Some((ListState::Permission { view_permission }, ListAsk::FetchPermission))
        },
        (ListState::Permission { view_permission }, ListEvent::Permission(perm)) => {
            if !perm.is_member {
                return refuse("You're not a member of this server.");
            }
            if text::same(view_permission.as_str(), "managers") && !perm.is_manager {
                return refuse("This list is visible to server managers only.");
            }
            Some((ListState::Members, ListAsk::FetchMembers))
        },
        (ListState::Members, ListEvent::Members { member_ids, guild_name }) => Some(
            (ListState::Players { guild_name }, ListAsk::FetchPlayers { member_ids }),
        ),
        (ListState::Players { guild_name }, ListEvent::Players(rows)) => {
            let body = show_list(guild_id, &guild_name, &rows);
            Some((ListState::Finished, ListAsk::Reply(body)))
        },
        _ => None,
    }
}

#[derive(Debug)]
pub struct ViewPermBody {
    pub view_permission: String,
}

/// The permissions that a guild can set.
pub open spec fn is_view_permission(s: Seq<char>) -> bool {
    s == "disabled"@ || s == "managers"@ || s == "members"@
}

/// The verdict on a permission to set.
pub open spec fn permission_verdict(s: Seq<char>) -> Result<(), Problem> {
    if is_view_permission(s) {
        Ok(())
    } else {
        Err(
            Problem::BadRequest(
                "Unknown view_permission '"@ + s + "' (expected disabled|managers|members)."@,
            ),
        )
    }
}

/// A request without a bearer token rides on the cookie, so its `Origin` is
/// checked; a bearer token is its own defense.
pub fn check_origin(headers: &HeaderMap, allowed_origins: &[String]) -> (r: Result<(), AppError>)
    ensures
        error::outcome(r) == match auth::bearer(headers::first_text(*headers, "authorization"@)) {
            Some(_) => Ok::<(), Problem>(()),
            None => csrf::judged(headers::first_text(*headers, "origin"@), allowed_origins@),
        },
{
    match auth::extract_bearer(headers) {
        Some(_) => Ok(()),
        None => csrf::verify_origin(headers, allowed_origins),
    }
}

/// Judge a permission to set, and write the answer.
pub fn set_view_permission(body: &ViewPermBody) -> (r: Result<Value, AppError>)
    ensures
        match r {
            Ok(v) => permission_verdict(body.view_permission@) is Ok && v@ == Json::object().with(
                "success"@,
                Json::Bool(true),
            ).with("view_permission"@, Json::Text(body.view_permission@)),
            Err(e) => permission_verdict(body.view_permission@) == Err::<(), Problem>(e@),
        },
{
    let vp = body.view_permission.as_str();
    if text::same(vp, "disabled") || text::same(vp, "managers") || text::same(vp, "members") {
        Ok(Value::object().with("success", Value::Bool(true)).with("view_permission", Value::text(vp)))
    } else {
        Err(
            AppError::BadRequest(
                text::join3(
                    "Unknown view_permission '",
                    vp,
                    "' (expected disabled|managers|members).",
                ),
            ),
        )
    }
}

/// Only members of a guild see its list, and only managers where the guild says so
/// or has set nothing.
pub proof fn law_list_is_gated(view_permission: Option<Seq<char>>, perm: GuildPermission)
    ensures
        viewer_verdict(effective(view_permission), perm) is Ok ==> perm.is_member,
        view_permission is None && viewer_verdict(effective(view_permission), perm) is Ok
            ==> perm.is_manager,
        view_permission == Some("managers"@) && viewer_verdict(effective(view_permission), perm) is Ok
            ==> perm.is_manager,
{
}

/// The players of a guild are asked for only once the caller may see them: from
/// the states before, no step leads to them.
pub proof fn law_players_come_last(
    guild_id: Seq<char>,
    state: ListState,
    event: ListEvent,
    next: ListState,
    ask: ListAsk,
)
    requires
        list_stepped(guild_id, state, event, Some((next, ask))),
    ensures
        ask is FetchMembers ==> (state matches ListState::Permission { view_permission } && (
        event matches ListEvent::Permission(perm) && viewer_verdict(view_permission@, perm) is Ok)),
        ask is FetchPlayers ==> state is Members,
        ask is Reply ==> state is Players,
{
}

/// Every fact of a player stands in the list under its own name.
pub proof fn law_players_are_shown_under_their_names(
    row: PlayerRow,
    last_visit_at: Option<Seq<char>>,
    linked_at: Seq<char>,
)
    ensures
        player_json(row, last_visit_at, linked_at).field("discord_id"@) == Some(
            Json::Text(row.discord_id@),
        ),
        player_json(row, last_visit_at, linked_at).field("discord_name"@) == Some(
            match row.discord_name {
                Some(s) => Json::Text(s@),
                None => Json::Null,
            },
        ),
        player_json(row, last_visit_at, linked_at).field("osu_username"@) == Some(
            Json::Text(row.osu_username@),
        ),
        player_json(row, last_visit_at, linked_at).field("osu_user_id"@) == Some(
            Json::Int(row.osu_user_id as int),
        ),
        player_json(row, last_visit_at, linked_at).field("country_code"@) == Some(
            match row.country_code {
                Some(s) => Json::Text(s@),
                None => Json::Null,
            },
        ),
        player_json(row, last_visit_at, linked_at).field("is_supporter"@) == Some(
            Json::Bool(row.is_supporter),
        ),
        player_json(row, last_visit_at, linked_at).field("badge_count"@) == Some(
            Json::Int(row.badge_count as int),
        ),
        player_json(row, last_visit_at, linked_at).field("global_rank"@) == Some(
            match row.global_rank {
                Some(n) => Json::Int(n as int),
                None => Json::Null,
            },
        ),
        player_json(row, last_visit_at, linked_at).field("performance_points"@) == Some(
            Json::Int(row.performance_points as int),
        ),
        player_json(row, last_visit_at, linked_at).field("play_count"@) == Some(
            Json::Int(row.play_count as int),
        ),
        player_json(row, last_visit_at, linked_at).field("last_visit_at"@) == Some(
            match last_visit_at {
                Some(s) => Json::Text(s),
                None => Json::Null,
            },
        ),
        player_json(row, last_visit_at, linked_at).field("linked_at"@) == Some(
            Json::Text(linked_at),
        ),
        player_json(row, last_visit_at, linked_at).field("osu_profile_url"@) == Some(
            Json::Text("https://osu.ppy.sh/users/"@ + text::int_dec(row.osu_user_id as int)),
        ),
{
    reveal_strlit("discord_id");
    reveal_strlit("discord_name");
    reveal_strlit("osu_username");
    reveal_strlit("osu_user_id");
    reveal_strlit("osu_profile_url");
    reveal_strlit("country_code");
    reveal_strlit("is_supporter");
    reveal_strlit("badge_count");
    reveal_strlit("global_rank");
    reveal_strlit("performance_points");
    reveal_strlit("play_count");
    reveal_strlit("last_visit_at");
    reveal_strlit("linked_at");
    assert("discord_id"@.len() == 10 && "discord_id"@[0] == 'd');
    assert("discord_name"@.len() == 12 && "discord_name"@[0] == 'd');
    assert("osu_username"@.len() == 12 && "osu_username"@[0] == 'o');
    assert("osu_user_id"@.len() == 11 && "osu_user_id"@[0] == 'o');
    assert("osu_profile_url"@.len() == 15 && "osu_profile_url"@[0] == 'o');
    assert("country_code"@.len() == 12 && "country_code"@[0] == 'c');
    assert("is_supporter"@.len() == 12 && "is_supporter"@[0] == 'i');
    assert("badge_count"@.len() == 11 && "badge_count"@[0] == 'b');
    assert("global_rank"@.len() == 11 && "global_rank"@[0] == 'g');
    assert("performance_points"@.len() == 18 && "performance_points"@[0] == 'p');
    assert("play_count"@.len() == 10 && "play_count"@[0] == 'p');
    assert("last_visit_at"@.len() == 13 && "last_visit_at"@[0] == 'l');
    assert("linked_at"@.len() == 9 && "linked_at"@[0] == 'l');
    let j = player_json(row, last_visit_at, linked_at);
    assert(j->Fields_0[0].0 == "discord_id"@);
    assert(j->Fields_0[1].0 == "discord_name"@);
    assert(j->Fields_0[2].0 == "osu_username"@);
    assert(j->Fields_0[3].0 == "osu_user_id"@);
    assert(j->Fields_0[4].0 == "osu_profile_url"@);
    assert(j->Fields_0[5].0 == "country_code"@);
    assert(j->Fields_0[6].0 == "is_supporter"@);
    assert(j->Fields_0[7].0 == "badge_count"@);
    assert(j->Fields_0[8].0 == "global_rank"@);
    assert(j->Fields_0[9].0 == "performance_points"@);
    assert(j->Fields_0[10].0 == "play_count"@);
    assert(j->Fields_0[11].0 == "last_visit_at"@);
    assert(j->Fields_0[12].0 == "linked_at"@);
    json::lemma_field_at(j->Fields_0, 0);
    json::lemma_field_at(j->Fields_0, 1);
    json::lemma_field_at(j->Fields_0, 2);
    json::lemma_field_at(j->Fields_0, 3);
    json::lemma_field_at(j->Fields_0, 4);
    json::lemma_field_at(j->Fields_0, 5);
    json::lemma_field_at(j->Fields_0, 6);
    json::lemma_field_at(j->Fields_0, 7);
    json::lemma_field_at(j->Fields_0, 8);
    json::lemma_field_at(j->Fields_0, 9);
    json::lemma_field_at(j->Fields_0, 10);
    json::lemma_field_at(j->Fields_0, 11);
    json::lemma_field_at(j->Fields_0, 12);
}

/// The list names its guild, counts its players, and shows them in the order in which
/// they came.
pub proof fn law_lists_show_every_player(
    guild_id: Seq<char>,
    guild_name: Option<Seq<char>>,
    rows: Seq<PlayerRow>,
    i: int,
)
    requires
        0 <= i < rows.len(),
    ensures
        list_json(guild_id, guild_name, rows).field("guild_id"@) == Some(Json::Text(guild_id)),
        list_json(guild_id, guild_name, rows).field("guild_name"@) == Some(
            match guild_name {
                Some(s) => Json::Text(s),
                None => Json::Null,
            },
        ),
        list_json(guild_id, guild_name, rows).field("count"@) == Some(
            Json::Int(rows.len() as int),
        ),
        list_json(guild_id, guild_name, rows).field("users"@) matches Some(Json::List(users))
            && users.len() == rows.len() && users[i].field("discord_id"@) == Some(
            Json::Text(rows[i].discord_id@),
        ),
{
    reveal_strlit("guild_id");
    reveal_strlit("guild_name");
    reveal_strlit("count");
    reveal_strlit("users");
    assert("guild_id"@.len() == 8 && "guild_id"@[0] == 'g');
    assert("guild_name"@.len() == 10 && "guild_name"@[0] == 'g');
    assert("count"@.len() == 5 && "count"@[0] == 'c');
    assert("users"@.len() == 5 && "users"@[0] == 'u');
    let j = list_json(guild_id, guild_name, rows);
    assert(j->Fields_0[0].0 == "guild_id"@);
    assert(j->Fields_0[1].0 == "guild_name"@);
    assert(j->Fields_0[2].0 == "count"@);
    assert(j->Fields_0[3].0 == "users"@);
    json::lemma_field_at(j->Fields_0, 0);
    json::lemma_field_at(j->Fields_0, 1);
    json::lemma_field_at(j->Fields_0, 2);
    json::lemma_field_at(j->Fields_0, 3);
    let row = rows[i];
    law_players_are_shown_under_their_names(
        row,
        match row.last_visit_at {
            Some(t) => Some(clock::rfc3339_text(t.secs, t.nanos)),
            None => None,
        },
        clock::rfc3339_text(row.linked_at.secs, row.linked_at.nanos),
    );
}

/// Who sees the list: nobody where it is disabled, every member where it is open to
/// members, and managers alone where it is left to them or nothing is set. The run of
/// a request, step by step, comes to that.
pub proof fn law_the_list_is_shown_to_whom_it_is_open(
    guild_id: Seq<char>,
    set: Option<String>,
    perm: GuildPermission,
    first: Option<(ListState, ListAsk)>,
    second: Option<(ListState, ListAsk)>,
)
    requires
        list_stepped(guild_id, ListState::Setting, ListEvent::ViewPermission(set), first),
        first matches Some((ListState::Permission { view_permission }, _)) ==> list_stepped(
            guild_id,
            ListState::Permission { view_permission },
            ListEvent::Permission(perm),
            second,
        ),
    ensures
        set matches Some(s) ==> s@ == "disabled"@ ==> (first matches Some((
            ListState::Finished,
            ListAsk::Fail(e),
        )) && e@ is Forbidden),
        set matches Some(s) ==> s@ == "members"@ ==> ((second matches Some((
            ListState::Members,
            ListAsk::FetchMembers,
        ))) <==> perm.is_member),
        (set is None || set->0@ == "managers"@) ==> ((second matches Some((
            ListState::Members,
            ListAsk::FetchMembers,
        ))) <==> perm.is_member && perm.is_manager),
{
    reveal_strlit("disabled");
    reveal_strlit("members");
    reveal_strlit("managers");
    assert("disabled"@.len() == 8 && "disabled"@[0] == 'd');
    assert("members"@.len() == 7);
    assert("managers"@.len() == 8 && "managers"@[0] == 'm');
}

/// The members that the gateway names are those whose players are asked for, and the
/// name of the guild is kept for the reply.
pub proof fn law_the_list_is_of_the_members(
    guild_id: Seq<char>,
    member_ids: Vec<String>,
    guild_name: Option<String>,
    rows: Vec<PlayerRow>,
    third: Option<(ListState, ListAsk)>,
    fourth: Option<(ListState, ListAsk)>,
)
    requires
        list_stepped(
            guild_id,
            ListState::Members,
            ListEvent::Members { member_ids, guild_name },
            third,
        ),
        third matches Some((next, _)) ==> list_stepped(
            guild_id,
            next,
            ListEvent::Players(rows),
            fourth,
        ),
    ensures
        third matches Some((_, ListAsk::FetchPlayers { member_ids: ids })) && ids == member_ids,
        fourth matches Some((ListState::Finished, ListAsk::Reply(body))) && body@.field("guild_id"@)
            == Some(Json::Text(guild_id)) && body@.field("count"@) == Some(
            Json::Int(rows@.len() as int),
        ) && body@.field("guild_name"@) == Some(
            match guild_name {
                Some(s) => Json::Text(s@),
                None => Json::Null,
            },
        ),
{
    reveal_strlit("guild_id");
    reveal_strlit("guild_name");
    reveal_strlit("count");
    reveal_strlit("users");
    assert("guild_id"@.len() == 8 && "guild_id"@[0] == 'g');
    assert("guild_name"@.len() == 10 && "guild_name"@[0] == 'g');
    assert("count"@.len() == 5 && "count"@[0] == 'c');
    assert("users"@.len() == 5 && "users"@[0] == 'u');
    let j = list_json(guild_id, text::opt_view(guild_name), rows@);
    assert(j->Fields_0[0].0 == "guild_id"@);
    assert(j->Fields_0[1].0 == "guild_name"@);
    assert(j->Fields_0[2].0 == "count"@);
    json::lemma_field_at(j->Fields_0, 0);
    json::lemma_field_at(j->Fields_0, 1);
    json::lemma_field_at(j->Fields_0, 2);
}

/// A permission can be set exactly when it opens or closes the list: each of the three
/// is accepted and said back, and nothing else is.
pub proof fn law_permissions_are_said_back(body: &ViewPermBody, r: Result<Value, AppError>)
    requires
        call_ensures(set_view_permission, (body,), r),
    ensures
        r is Ok <==> body.view_permission@ == "disabled"@ || body.view_permission@ == "managers"@
            || body.view_permission@ == "members"@,
        r matches Ok(v) ==> v@.field("view_permission"@) == Some(
            Json::Text(body.view_permission@),
        ) && v@.field("success"@) == Some(Json::Bool(true)),
        r matches Err(e) ==> e is BadRequest,
{
    reveal_strlit("success");
    reveal_strlit("view_permission");
    assert("success"@.len() == 7 && "view_permission"@.len() == 15);
    if let Ok(v) = r {
        let fields = v@->Fields_0;
        assert(fields[0].0 == "success"@ && fields[1].0 == "view_permission"@);
        json::lemma_field_at(fields, 0);
        json::lemma_field_at(fields, 1);
    }
}

/// A request that carries a bearer token passes whatever its origin; any other is held
/// to the list of origins.
pub proof fn law_cookies_are_held_to_the_origins(
    headers: &HeaderMap,
    origins: &[String],
    r: Result<(), AppError>,
)
    requires
        call_ensures(check_origin, (headers, origins), r),
    ensures
        auth::bearer(headers::first_text(*headers, "authorization"@)) is Some ==> r is Ok,
        auth::bearer(headers::first_text(*headers, "authorization"@)) is None ==> (r is Ok <==> (
        headers::first_text(*headers, "origin"@) matches Some(origin) && csrf::allowed(
            origin,
            origins@,
        ))),
        r matches Err(e) ==> e is Forbidden,
{
}

/// The players page is its template with the base URL and the guild in their places.
pub proof fn law_players_pages_are_filled_in(
    x: Seq<char>,
    y: Seq<char>,
    template: &str,
    base_url: &str,
    guild_id: &str,
    page: String,
)
    requires
        call_ensures(users_page, (template, base_url, guild_id), page),
        !x.contains('{'),
        !y.contains('{'),
        !base_url@.contains('{'),
    ensures
        template@ == x + "{{BASE_URL}}"@ + y ==> page@ == x + base_url@ + y,
        template@ == x + "{{GUILD_ID}}"@ + y ==> page@ == x + guild_id@ + y,
{
    let a = "{{BASE_URL}}"@;
    let b = "{{GUILD_ID}}"@;
    let none = Seq::<char>::empty();
    reveal_strlit("{{BASE_URL}}");
    reveal_strlit("{{GUILD_ID}}");
    assert(a[0] == '{' && a[1] == '{' && b[0] == '{');
    if template@ == x + a + y {
        text::law_replacing_fills_the_place(x, a, y, base_url@);
        let s = x + base_url@ + y;
        assert(!s.contains('{')) by {
            if s.contains('{') {
                let k = choose|k: int| 0 <= k < s.len() && s[k] == '{';
                if k < x.len() {
                    assert(x[k] == '{');
                } else if k < x.len() + base_url@.len() {
                    assert(base_url@[k - x.len()] == '{');
                } else {
                    assert(y[k - x.len() - base_url@.len()] == '{');
                }
            }
        }
        text::law_replacing_fills_the_place(s, b, none, guild_id@);
        assert(s + none =~= s);
    }
    if template@ == x + b + y {
        text::lemma_other_place(x, b, y, a, base_url@, 2);
        text::law_replacing_fills_the_place(x, b, y, guild_id@);
    }
}

/// A lookup that fails ends the request with the failure as it is.
pub proof fn law_list_failures_are_reported_as_they_are(
    guild_id: Seq<char>,
    state: ListState,
    error: AppError,
    r: Option<(ListState, ListAsk)>,
)
    requires
        !(state is Finished),
        list_stepped(guild_id, state, ListEvent::Failed(error), r),
    ensures
        r matches Some((ListState::Finished, ListAsk::Fail(e))) && e == error,
{
}

} // verus!
