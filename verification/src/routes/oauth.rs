//! osu! OAuth callback. Only one flow exists (viewer link); broadcaster /
//! channel concepts don't apply to osu!.
//!
//! Linking an account and refreshing a linked one are machines. [`LinkState`]
//! holds how far they have come; a step takes what the last request brought back
//! and says what to do next. The caller performs the requests, those that store in
//! one transaction from the profile to the commit.

use crate::clock;
use crate::config::OsuConfig;
use crate::error;
use crate::error::{AppError, Problem};
use crate::models::facts::Timestamp;
use crate::models::mode::Mode;
use crate::services::jobs;
use crate::services::jobs::NewJob;
use crate::services::osu::{GradeCounts, Group, OsuClient, OsuUser, UserStatistics};
use crate::text;
use vstd::prelude::*;
use vstd::string::*;

verus! {

#[derive(Debug, PartialEq)]
pub struct CallbackQuery {
    pub code: Option<String>,
    pub state: Option<String>,
    pub error: Option<String>,
    pub error_description: Option<String>,
}

/// What was stored when a link flow started.
#[derive(Debug, PartialEq)]
pub struct OauthState {
    pub code_verifier: String,
    pub discord_id: String,
}

/// The redirect URI of a base URL.
pub open spec fn callback_location(base_url: Seq<char>) -> Seq<char> {
    text::trimmed_end_of(base_url, '/') + "/oauth/osu/callback"@
}

/// `{base_url}/oauth/osu/callback`: the exact redirect URI to register on
/// the osu! OAuth application page.
pub fn redirect_uri(base_url: &str) -> (r: String)
    ensures
        r@ == callback_location(base_url@),
{
    text::join2(text::trim_end_of(base_url, '/'), "/oauth/osu/callback")
}

/// How long a member has to come back from osu!, in seconds.
pub const STATE_LIFETIME_SECS: u32 = 600;

/// When a state that is stored now expires.
pub fn state_expiry() -> (r: Timestamp)
    ensures
        exists|now: Timestamp|
            clock::is_reading(now) && r == #[trigger] clock::later(
                now,
                STATE_LIFETIME_SECS as nat,
            ),
{
    let now = clock::utc_now();
    clock::after(now, STATE_LIFETIME_SECS)
}

/// The client of the configured application, or what is not configured.
pub open spec fn client_verdict(osu: OsuConfig) -> Result<OsuClient, Problem> {
    match (osu.client_id, osu.client_secret) {
        (None, _) => Err(Problem::Internal("OSU_CLIENT_ID is not configured."@)),
        (Some(_), None) => Err(Problem::Internal("OSU_CLIENT_SECRET is not configured."@)),
        (Some(client_id), Some(client_secret)) => Ok(OsuClient { client_id, client_secret }),
    }
}

/// The client of the configured application.
pub fn build_osu_client(osu: &OsuConfig) -> (r: Result<OsuClient, AppError>)
    ensures
        error::outcome(r) == client_verdict(*osu),
{
    let client_id = match &osu.client_id {
        Some(id) => id.clone(),
        None => return Err(AppError::Internal("OSU_CLIENT_ID is not configured.".to_owned())),
    };
    let client_secret = match &osu.client_secret {
        Some(secret) => secret.clone(),
        None => return Err(
            AppError::Internal("OSU_CLIENT_SECRET is not configured.".to_owned()),
        ),
    };
    Ok(OsuClient::new(client_id, client_secret))
}

// ---------------------------------------------------------------------------
// What is stored of a player.
// ---------------------------------------------------------------------------

/// The profile of a player as it is stored.
#[derive(Debug, PartialEq)]
pub struct ProfileRow {
    pub discord_id: String,
    pub osu_user_id: i64,
    pub osu_username: String,
    pub discord_name: Option<String>,
    pub country_code: Option<String>,
    pub country_name: Option<String>,
    pub profile_colour: Option<String>,
    pub avatar_url: Option<String>,
    pub osu_joined_at: Timestamp,
    pub last_visit_at: Option<Timestamp>,
    pub is_supporter: bool,
    pub support_level: i32,
    pub is_restricted: bool,
    pub is_active: bool,
    pub badge_count: i32,
    pub follower_count: i32,
    pub mapping_followers: i32,
    pub kudosu_total: i32,
    pub ranked_beatmaps: i32,
    pub loved_beatmaps: i32,
    pub pending_beatmaps: i32,
    pub graveyard_beatmaps: i32,
    pub mapping_playcount: i32,
    pub replays_watched_others: i32,
    pub favourite_beatmapsets: i32,
    pub playstyles: Vec<String>,
    pub groups: Vec<String>,
}

/// A count as it is stored: zero where there is none, its low 32 bits otherwise.
pub open spec fn narrow(n: Option<i64>) -> i32 {
    match n {
        Some(n) => n as i32,
        None => 0,
    }
}

fn narrowed(n: Option<i64>) -> (r: i32)
    ensures
        r == narrow(n),
{
    match n {
        Some(n) => #[verifier::truncate] (n as i32),
        None => 0,
    }
}

/// The country of a player: the code of the profile, or that of its country.
pub open spec fn country_code_of(u: OsuUser) -> Option<Seq<char>> {
    match (u.country_code, u.country) {
        (Some(code), _) => Some(code@),
        (None, Some(country)) => text::opt_view(country.code),
        (None, None) => None,
    }
}

/// The name of a player's country.
pub open spec fn country_name_of(u: OsuUser) -> Option<Seq<char>> {
    match u.country {
        Some(country) => text::opt_view(country.name),
        None => None,
    }
}

/// The identifiers of a list of groups, the missing and the empty ones left out.
pub open spec fn identifiers(groups: Seq<Group>) -> Seq<Seq<char>>
    decreases groups.len(),
{
    if groups.len() == 0 {
        Seq::empty()
    } else {
        let before = identifiers(groups.drop_last());
        match groups.last().identifier {
            Some(id) => if id@.len() > 0 {
                before.push(id@)
            } else {
                before
            },
            None => before,
        }
    }
}

/// The groups of a player.
pub open spec fn groups_of(u: OsuUser) -> Seq<Seq<char>> {
    match u.groups {
        Some(groups) => identifiers(groups@),
        None => Seq::empty(),
    }
}

/// The playstyles of a player.
pub open spec fn playstyles_of(u: OsuUser) -> Seq<Seq<char>> {
    match u.playstyle {
        Some(list) => text::views(list@),
        None => Seq::empty(),
    }
}

/// The number of a player's badges, as it is stored.
pub open spec fn badges_of(u: OsuUser) -> i32 {
    match u.badges {
        Some(badges) => badges@.len() as i32,
        None => 0,
    }
}

/// The kudosu of a player, as they are stored.
pub open spec fn kudosu_of(u: OsuUser) -> i32 {
    match u.kudosu {
        Some(k) => k.total as i32,
        None => 0,
    }
}

impl ProfileRow {
    /// True when this is what is stored of a player, given when they joined and
    /// when they were last seen.
    pub open spec fn describes(
        self,
        discord_id: Seq<char>,
        u: OsuUser,
        discord_name: Option<Seq<char>>,
        joined: (i64, u32),
        last_visit: Option<(i64, u32)>,
    ) -> bool {
        &&& self.discord_id@ == discord_id
        &&& self.osu_user_id == u.id
        &&& self.osu_username@ == u.username@
        &&& text::opt_view(self.discord_name) == discord_name
        &&& text::opt_view(self.country_code) == country_code_of(u)
        &&& text::opt_view(self.country_name) == country_name_of(u)
        &&& text::opt_view(self.profile_colour) == text::opt_view(u.profile_colour)
        &&& text::opt_view(self.avatar_url) == text::opt_view(u.avatar_url)
        &&& self.osu_joined_at == Timestamp { secs: joined.0, nanos: joined.1 }
        &&& self.last_visit_at == match last_visit {
            Some(t) => Some(Timestamp { secs: t.0, nanos: t.1 }),
            None => None,
        }
        &&& self.is_supporter == u.is_supporter
        &&& self.support_level == u.support_level as i32
        &&& self.is_restricted == u.is_restricted
        &&& self.is_active == u.is_active
        &&& self.badge_count == badges_of(u)
        &&& self.follower_count == narrow(u.follower_count)
        &&& self.mapping_followers == narrow(u.mapping_follower_count)
        &&& self.kudosu_total == kudosu_of(u)
        &&& self.ranked_beatmaps == narrow(u.ranked_beatmapset_count)
        &&& self.loved_beatmaps == narrow(u.loved_beatmapset_count)
        &&& self.pending_beatmaps == narrow(u.pending_beatmapset_count)
        &&& self.graveyard_beatmaps == narrow(u.graveyard_beatmapset_count)
        &&& self.mapping_playcount == narrow(u.beatmap_playcounts_count)
        &&& self.replays_watched_others == narrow(u.replays_watched_by_others)
        &&& self.favourite_beatmapsets == narrow(u.favourite_beatmapset_count)
        &&& text::views(self.playstyles@) == playstyles_of(u)
        &&& text::views(self.groups@) == groups_of(u)
    }
}

/// When a player was last seen: nothing where the profile does not say, or says
/// nothing that can be read.
pub open spec fn last_visit_of(u: OsuUser) -> Option<(i64, u32)> {
    match u.last_visit {
        Some(s) => match clock::rfc3339(s@) {
            Ok(t) => Some(t),
            Err(_) => None,
        },
        None => None,
    }
}

/// True when an outcome is what is to be stored of a player: their profile, or an
/// error where it does not say when they joined.
pub open spec fn profiled(
    r: Result<ProfileRow, AppError>,
    discord_id: Seq<char>,
    u: OsuUser,
    discord_name: Option<Seq<char>>,
    joined: Result<(i64, u32), Seq<char>>,
    last_visit: Option<(i64, u32)>,
) -> bool {
    match joined {
        Ok(t) => r matches Ok(row) && row.describes(discord_id, u, discord_name, t, last_visit),
        Err(e) => r matches Err(err) && err@ == Problem::OsuApi("invalid join_date: "@ + e),
    }
}

fn copy_opt(s: &Option<String>) -> (r: Option<String>)
    ensures
        text::opt_view(r) == text::opt_view(*s),
{
    match s {
        Some(t) => Some(t.clone()),
        None => None,
    }
}

fn collect_groups(u: &OsuUser) -> (r: Vec<String>)
    ensures
        text::views(r@) == groups_of(*u),
{
    let mut out: Vec<String> = Vec::new();
    proof {
        assert(text::views(out@) =~= Seq::empty());
    }
    if let Some(groups) = &u.groups {
        let mut i: usize = 0;
        while i < groups.len()
            invariant
                i <= groups@.len(),
                text::views(out@) == identifiers(groups@.take(i as int)),
            decreases groups@.len() - i,
        {
            proof {
                assert(groups@.take(i + 1).drop_last() =~= groups@.take(i as int));
            }
            if let Some(id) = &groups[i].identifier {
                if id.as_str().unicode_len() > 0 {
                    let ghost before = out@;
                    out.push(id.clone());
                    proof {
                        assert(text::views(out@) =~= text::views(before).push(id@));
                    }
                }
            }
            i += 1;
        }
        proof {
            assert(groups@.take(groups@.len() as int) =~= groups@);
        }
    }
    out
}

/// What is stored of a player.
pub fn profile_row(discord_id: &str, u: &OsuUser, discord_name: Option<&str>) -> (r: Result<
    ProfileRow,
    AppError,
>)
    ensures
        profiled(
            r,
            discord_id@,
            *u,
            text::opt_str_view(discord_name),
            clock::rfc3339(u.join_date@),
            last_visit_of(*u),
        ),
{
    let joined = clock::parse_rfc3339(u.join_date.as_str());
    let last_visit = match &u.last_visit {
        Some(s) => match clock::parse_rfc3339(s.as_str()) {
            Ok(t) => Some(t),
            Err(_) => None,
        },
        None => None,
    };
    profile_row_with(discord_id, u, discord_name, joined, last_visit)
}

/// What is stored of a player, given what their dates were read as.
pub fn profile_row_with(
    discord_id: &str,
    u: &OsuUser,
    discord_name: Option<&str>,
    joined: Result<(i64, u32), String>,
    last_visit: Option<(i64, u32)>,
) -> (r: Result<ProfileRow, AppError>)
    ensures
        profiled(
            r,
            discord_id@,
            *u,
            text::opt_str_view(discord_name),
            match joined {
                Ok(t) => Ok::<(i64, u32), Seq<char>>(t),
                Err(e) => Err::<(i64, u32), Seq<char>>(e@),
            },
            last_visit,
        ),
{
    let joined: (i64, u32) = match joined {
        Ok(t) => t,
        Err(e) => return Err(AppError::OsuApi(text::join2("invalid join_date: ", e.as_str()))),
    };
    let country_code = match &u.country_code {
        Some(code) => Some(code.clone()),
        None => match &u.country {
            Some(country) => copy_opt(&country.code),
            None => None,
        },
    };
    let country_name = match &u.country {
        Some(country) => copy_opt(&country.name),
        None => None,
    };
    let badge_count: i32 = match &u.badges {
        Some(badges) => #[verifier::truncate] (badges.len() as i32),
        None => 0,
    };
    let kudosu_total: i32 = match &u.kudosu {
        Some(k) => #[verifier::truncate] (k.total as i32),
        None => 0,
    };
    let playstyles: Vec<String> = match &u.playstyle {
        Some(list) => text::copy_list(list),
        None => {
            let none: Vec<String> = Vec::new();
            proof {
                assert(text::views(none@) =~= Seq::empty());
            }
            none
        },
    };
    Ok(
        ProfileRow {
            discord_id: discord_id.to_owned(),
            osu_user_id: u.id,
            osu_username: u.username.clone(),
            discord_name: match discord_name {
                Some(name) => Some(name.to_owned()),
                None => None,
            },
            country_code,
            country_name,
            profile_colour: copy_opt(&u.profile_colour),
            avatar_url: copy_opt(&u.avatar_url),
            osu_joined_at: Timestamp { secs: joined.0, nanos: joined.1 },
            last_visit_at: match last_visit {
                Some(t) => Some(Timestamp { secs: t.0, nanos: t.1 }),
                None => None,
            },
            is_supporter: u.is_supporter,
            support_level: #[verifier::truncate] (u.support_level as i32),
            is_restricted: u.is_restricted,
            is_active: u.is_active,
            badge_count,
            follower_count: narrowed(u.follower_count),
            mapping_followers: narrowed(u.mapping_follower_count),
            kudosu_total,
            ranked_beatmaps: narrowed(u.ranked_beatmapset_count),
            loved_beatmaps: narrowed(u.loved_beatmapset_count),
            pending_beatmaps: narrowed(u.pending_beatmapset_count),
            graveyard_beatmaps: narrowed(u.graveyard_beatmapset_count),
            mapping_playcount: narrowed(u.beatmap_playcounts_count),
            replays_watched_others: narrowed(u.replays_watched_by_others),
            favourite_beatmapsets: narrowed(u.favourite_beatmapset_count),
            playstyles,
            groups: collect_groups(u),
        },
    )
}

/// The stats of a player in a mode as they are stored.
#[derive(Debug, PartialEq)]
pub struct StatsRow {
    pub osu_user_id: i64,
    pub mode: Mode,
    pub global_rank: Option<i32>,
    pub country_rank: Option<i32>,
    pub performance_points: i32,
    pub play_count: i32,
    pub play_time_hours: i32,
    pub total_score: i64,
    pub ranked_score: i64,
    pub hit_accuracy: i32,
    pub max_combo: i32,
    pub level_int: i32,
    pub count_ss_silver: i32,
    pub count_ss: i32,
    pub count_s_silver: i32,
    pub count_s: i32,
    pub count_a: i32,
}

/// A rank as it is stored: its low 32 bits, nothing where there is none.
pub open spec fn narrow_rank(n: Option<i64>) -> Option<i32> {
    match n {
        Some(n) => Some(n as i32),
        None => None,
    }
}

/// Whole hours of a number of seconds, cut off towards zero.
pub open spec fn hours(secs: int) -> int {
    if secs >= 0 {
        secs / 3600
    } else {
        -((-secs) / 3600)
    }
}

/// A number, or zero.
pub open spec fn or_zero(n: Option<i64>) -> i64 {
    match n {
        Some(n) => n,
        None => 0,
    }
}

/// A small number, or zero.
pub open spec fn or_zero_small(n: Option<i32>) -> i32 {
    match n {
        Some(n) => n,
        None => 0,
    }
}

/// What is stored of the statistics of a player.
pub open spec fn stats_of(osu_user_id: i64, mode: Mode, s: UserStatistics) -> StatsRow {
    let grades = match s.grade_counts {
        Some(g) => g,
        None => GradeCounts { ss: 0, ssh: 0, s: 0, sh: 0, a: 0 },
    };
    StatsRow {
        osu_user_id,
        mode,
        global_rank: narrow_rank(s.global_rank),
        country_rank: narrow_rank(s.country_rank),
        performance_points: or_zero_small(s.pp),
        play_count: narrow(s.play_count),
        play_time_hours: match s.play_time {
            Some(secs) => hours(secs as int) as i32,
            None => 0,
        },
        total_score: or_zero(s.total_score),
        ranked_score: or_zero(s.ranked_score),
        hit_accuracy: or_zero_small(s.hit_accuracy),
        max_combo: narrow(s.maximum_combo),
        level_int: match s.level {
            Some(level) => narrow(level.current),
            None => 0,
        },
        count_ss_silver: grades.ssh as i32,
        count_ss: grades.ss as i32,
        count_s_silver: grades.sh as i32,
        count_s: grades.s as i32,
        count_a: grades.a as i32,
    }
}

/// What is stored of a player in a mode: zeros and no ranks where the reply holds
/// no statistics.
pub open spec fn stored_stats(osu_user_id: i64, mode: Mode, u: OsuUser) -> StatsRow {
    match u.statistics {
        Some(s) => stats_of(osu_user_id, mode, s),
        None => StatsRow {
            osu_user_id,
            mode,
            global_rank: None,
            country_rank: None,
            performance_points: 0,
            play_count: 0,
            play_time_hours: 0,
            total_score: 0,
            ranked_score: 0,
            hit_accuracy: 0,
            max_combo: 0,
            level_int: 0,
            count_ss_silver: 0,
            count_ss: 0,
            count_s_silver: 0,
            count_s: 0,
            count_a: 0,
        },
    }
}

fn narrowed_rank(n: Option<i64>) -> (r: Option<i32>)
    ensures
        r == narrow_rank(n),
{
    match n {
        Some(n) => Some(#[verifier::truncate] (n as i32)),
        None => None,
    }
}

fn whole_hours(secs: i64) -> (r: i32)
    ensures
        r == hours(secs as int) as i32,
{
    let secs: i128 = secs as i128;
    let whole: i128 = if secs >= 0 {
        secs / 3600
    } else {
        -((-secs) / 3600)
    };
    let whole: i64 = whole as i64;
    #[verifier::truncate] (whole as i32)
}

/// What is stored of a player in a mode.
pub fn stats_row(osu_user_id: i64, mode: Mode, u: &OsuUser) -> (r: StatsRow)
    ensures
        r == stored_stats(osu_user_id, mode, *u),
{
    let s = match &u.statistics {
        Some(s) => s,
        None => return StatsRow {
            osu_user_id,
            mode,
            global_rank: None,
            country_rank: None,
            performance_points: 0,
            play_count: 0,
            play_time_hours: 0,
            total_score: 0,
            ranked_score: 0,
            hit_accuracy: 0,
            max_combo: 0,
            level_int: 0,
            count_ss_silver: 0,
            count_ss: 0,
            count_s_silver: 0,
            count_s: 0,
            count_a: 0,
        },
    };
    let (ss, ssh, sc, sh, a): (i64, i64, i64, i64, i64) = match &s.grade_counts {
        Some(g) => (g.ss, g.ssh, g.s, g.sh, g.a),
        None => (0, 0, 0, 0, 0),
    };
    StatsRow {
        osu_user_id,
        mode,
        global_rank: narrowed_rank(s.global_rank),
        country_rank: narrowed_rank(s.country_rank),
        performance_points: match s.pp {
            Some(n) => n,
            None => 0,
        },
        play_count: narrowed(s.play_count),
        play_time_hours: match s.play_time {
            Some(secs) => whole_hours(secs),
            None => 0,
        },
        total_score: match s.total_score {
            Some(n) => n,
            None => 0,
        },
        ranked_score: match s.ranked_score {
            Some(n) => n,
            None => 0,
        },
        hit_accuracy: match s.hit_accuracy {
            Some(n) => n,
            None => 0,
        },
        max_combo: narrowed(s.maximum_combo),
        level_int: match &s.level {
            Some(level) => narrowed(level.current),
            None => 0,
        },
        count_ss_silver: #[verifier::truncate] (ssh as i32),
        count_ss: #[verifier::truncate] (ss as i32),
        count_s_silver: #[verifier::truncate] (sh as i32),
        count_s: #[verifier::truncate] (sc as i32),
        count_a: #[verifier::truncate] (a as i32),
    }
}

// ---------------------------------------------------------------------------
// The success page.
// ---------------------------------------------------------------------------

/// How a character is written inside HTML.
pub open spec fn html_char(c: char) -> Seq<char> {
    if c == '&' {
        "&amp;"@
    } else if c == '<' {
        "&lt;"@
    } else if c == '>' {
        "&gt;"@
    } else if c == '"' {
        "&quot;"@
    } else {
        seq![c]
    }
}

/// A text as it is written inside HTML.
pub open spec fn html_escaped(s: Seq<char>) -> Seq<char> {
    text::expanded(s, |c: char| html_char(c))
}

/// Escapes a text for HTML.
pub fn html_escape(s: &str) -> (r: String)
    ensures
        r@ == html_escaped(s@),
{
    let chars = text::chars_of(s);
    let mut out = String::new();
    let mut i: usize = 0;
    while i < chars.len()
        invariant
            i <= chars@.len(),
            chars@ == s@,
            out@ == html_escaped(s@.take(i as int)),
        decreases chars@.len() - i,
    {
        let c: char = chars[i];
        let ghost before = out@;
        proof {
            assert(s@.take(i + 1).drop_last() =~= s@.take(i as int));
        }
        if c == '&' {
            out.append("&amp;");
        } else if c == '<' {
            out.append("&lt;");
        } else if c == '>' {
            out.append("&gt;");
        } else if c == '"' {
            out.append("&quot;");
        } else {
            out.push(c);
        }
        proof {
            assert(out@ =~= before + html_char(c));
        }
        i += 1;
    }
    proof {
        assert(s@.take(s@.len() as int) =~= s@);
    }
    out
}

/// The page that a member sees once an account is linked: its template with the
/// base URL and the account filled in.
pub fn success_page(template: &str, base_url: &str, username: &str, user_id: i64) -> (r: String)
    ensures
        r@ == text::replaced(
            text::replaced(
                text::replaced(template@, "{{BASE_URL}}"@, base_url@),
                "{{OSU_USERNAME}}"@,
                html_escaped(username@),
            ),
            "{{OSU_USER_ID}}"@,
            text::int_dec(user_id as int),
        ),
{
    proof {
        reveal_strlit("{{BASE_URL}}");
        reveal_strlit("{{OSU_USERNAME}}");
        reveal_strlit("{{OSU_USER_ID}}");
    }
    let page = text::replace(template, "{{BASE_URL}}", base_url);
    let name = html_escape(username);
    let page = text::replace(page.as_str(), "{{OSU_USERNAME}}", name.as_str());
    let id = text::signed_decimal(user_id);
    text::replace(page.as_str(), "{{OSU_USER_ID}}", id.as_str())
}

// ---------------------------------------------------------------------------
// Linking and refreshing.
// ---------------------------------------------------------------------------

/// How far a link or a refresh has come.
#[derive(Debug)]
pub enum LinkState {
    /// Waiting for the row of the state that came back.
    State { code: String },
    /// Waiting for the tokens that the code is exchanged for.
    Exchange { discord_id: String },
    /// Waiting for the account that the tokens belong to.
    Me { discord_id: String },
    /// Waiting for the app token of a refresh.
    RefreshToken { discord_id: String, osu_user_id: i64 },
    /// Waiting for the profile that is refreshed.
    Primary { discord_id: String, osu_user_id: i64, app_token: String },
    /// Waiting for the profile to be stored. The app token is there in a refresh.
    Profile {
        discord_id: String,
        osu_user_id: i64,
        username: String,
        app_token: Option<String>,
    },
    /// Waiting for the app token of a link.
    AppToken { discord_id: String, osu_user_id: i64, username: String },
    /// Waiting for the player in the mode at `at`.
    Fetching {
        discord_id: String,
        osu_user_id: i64,
        username: String,
        app_token: String,
        at: usize,
    },
    /// Waiting for the stats in the mode at `at` to be stored.
    Storing {
        discord_id: String,
        osu_user_id: i64,
        username: String,
        app_token: String,
        at: usize,
    },
    /// Waiting for the transaction to be committed.
    Commit { discord_id: String, osu_user_id: i64, username: String },
    /// Waiting for the role evaluation to be enqueued.
    Enqueue { osu_user_id: i64, username: String },
    Finished,
}

/// What a request of a link or a refresh brought back.
#[derive(Debug)]
pub enum LinkEvent {
    /// The row of the state: nothing where it is unknown or has expired.
    StateRow(Option<OauthState>),
    Token { access_token: String },
    User(OsuUser),
    Done,
    Failed(AppError),
}

/// What to do next for a link or a refresh.
#[derive(Debug)]
pub enum LinkAsk {
    /// Consume the state row in a single statement, so that it can't be replayed
    /// even on race.
    ConsumeState { state: String },
    Exchange { client: OsuClient, code: String, code_verifier: String, redirect_uri: String },
    FetchMe { access_token: String },
    FetchAppToken,
    FetchUser { app_token: String, osu_user_id: i64, mode: Mode },
    /// Begin the transaction and store the profile.
    StoreProfile(ProfileRow),
    StoreStats(StatsRow),
    Commit,
    Enqueue(NewJob),
    /// The account is stored and its roles are under way.
    Finish { osu_user_id: i64, username: String },
    Fail(AppError),
}

/// The verdict on a callback: the code and the state that it carries.
pub open spec fn callback_verdict(q: CallbackQuery) -> Result<(String, String), Problem> {
    match (q.error, q.code, q.state) {
        (Some(err), _, _) => Err(
            Problem::BadRequest(
                "osu! returned an error during authorization: "@ + err@ + " ("@
                    + match q.error_description {
                    Some(desc) => desc@,
                    None => Seq::empty(),
                } + ")"@,
            ),
        ),
        (None, None, _) => Err(Problem::BadRequest("Missing `code` from osu! callback."@)),
        (None, Some(_), None) => Err(Problem::BadRequest("Missing `state` from osu! callback."@)),
        (None, Some(code), Some(state)) => Ok((code, state)),
    }
}

/// Start to link the account that a callback is about.
pub fn callback(q: CallbackQuery) -> (r: Result<(LinkState, LinkAsk), AppError>)
    ensures
        match callback_verdict(q) {
            Ok((code, state)) => r == Ok::<(LinkState, LinkAsk), AppError>(
                (LinkState::State { code }, LinkAsk::ConsumeState { state }),
            ),
            Err(problem) => r matches Err(e) && e@ == problem,
        },
{
    if let Some(err) = q.error {
        let mut msg = text::join3(
            "osu! returned an error during authorization: ",
            err.as_str(),
            " (",
        );
        if let Some(desc) = q.error_description {
            msg.append(desc.as_str());
        }
        msg.append(")");
        return Err(AppError::BadRequest(msg));
    }
    let code = match q.code {
        Some(code) => code,
        None => return Err(
            AppError::BadRequest("Missing `code` from osu! callback.".to_owned()),
        ),
    };
    let state = match q.state {
        Some(state) => state,
        None => return Err(
            AppError::BadRequest("Missing `state` from osu! callback.".to_owned()),
        ),
    };
    Ok((LinkState::State { code }, LinkAsk::ConsumeState { state }))
}

/// Start to refresh a linked account.
pub fn start_refresh(osu: &OsuConfig, discord_id: &str, osu_user_id: i64) -> (r: Result<
    (LinkState, LinkAsk),
    AppError,
>)
    ensures
        match client_verdict(*osu) {
            Ok(_) => {
                &&& r matches Ok((
                    LinkState::RefreshToken { discord_id: d, osu_user_id: id },
                    LinkAsk::FetchAppToken,
                ))
                &&& d@ == discord_id@ && id == osu_user_id
            },
            Err(problem) => r matches Err(e) && e@ == problem,
        },
{
    match build_osu_client(osu) {
        Ok(_) => Ok(
            (
                LinkState::RefreshToken { discord_id: discord_id.to_owned(), osu_user_id },
                LinkAsk::FetchAppToken,
            ),
        ),
        Err(e) => Err(e),
    }
}

/// True when a step ends with the given refusal.
pub open spec fn ends(r: Option<(LinkState, LinkAsk)>, problem: Problem) -> bool {
    r matches Some((LinkState::Finished, LinkAsk::Fail(e))) && e@ == problem
}

/// True when a step stores the profile of a player, or ends where the profile does
/// not say when they joined. The stats of the account `osu_user_id` follow.
pub open spec fn stores_profile(
    r: Option<(LinkState, LinkAsk)>,
    discord_id: String,
    osu_user_id: i64,
    u: OsuUser,
    app_token: Option<String>,
) -> bool {
    match clock::rfc3339(u.join_date@) {
        Ok(joined) => {
            &&& r matches Some((next, LinkAsk::StoreProfile(row)))
            &&& next == LinkState::Profile {
                discord_id,
                osu_user_id,
                username: u.username,
                app_token,
            }
            &&& row.describes(discord_id@, u, None, joined, last_visit_of(u))
        },
        Err(e) => ends(r, Problem::OsuApi("invalid join_date: "@ + e)),
    }
}

/// True when a step asks for the player in the mode at `at`, or commits where all
/// modes are through.
pub open spec fn visits(
    r: Option<(LinkState, LinkAsk)>,
    discord_id: String,
    osu_user_id: i64,
    username: String,
    app_token: String,
    at: int,
) -> bool {
    if at < 4 {
        &&& r matches Some((next, ask))
        &&& next == LinkState::Fetching {
            discord_id,
            osu_user_id,
            username,
            app_token,
            at: at as usize,
        }
        &&& ask == LinkAsk::FetchUser { app_token, osu_user_id, mode: Mode::ALL@[at] }
    } else {
        r == Some((LinkState::Commit { discord_id, osu_user_id, username }, LinkAsk::Commit))
    }
}

/// True when a step of a link or a refresh is as it should be. An event that the
/// state does not wait for leads nowhere.
pub open spec fn link_stepped(
    osu: OsuConfig,
    base_url: Seq<char>,
    state: LinkState,
    event: LinkEvent,
    r: Option<(LinkState, LinkAsk)>,
) -> bool {
    match (state, event) {
        (LinkState::Finished, _) => r is None,
        // A mode whose stats cannot be fetched is left out.
        (
            LinkState::Fetching { discord_id, osu_user_id, username, app_token, at },
            LinkEvent::Failed(_),
        ) => if at < 4 {
            visits(r, discord_id, osu_user_id, username, app_token, at + 1)
        } else {
            r is None
        },
        (_, LinkEvent::Failed(e)) => r == Some((LinkState::Finished, LinkAsk::Fail(e))),
        (LinkState::State { .. }, LinkEvent::StateRow(None)) => ends(
            r,
            Problem::BadRequest(
                "OAuth state expired or unknown — start the link flow again from /verify."@,
            ),
        ),
        (LinkState::State { code }, LinkEvent::StateRow(Some(row))) => match client_verdict(osu) {
            Err(problem) => ends(r, problem),
            Ok(client) => {
                &&& r matches Some((next, LinkAsk::Exchange {
                    client: c,
                    code: k,
                    code_verifier,
                    redirect_uri,
                }))
                &&& next == LinkState::Exchange { discord_id: row.discord_id }
                &&& c == client && k == code && code_verifier == row.code_verifier
                &&& redirect_uri@ == callback_location(base_url)
            },
        },
        (LinkState::Exchange { discord_id }, LinkEvent::Token { access_token }) => r == Some(
            (LinkState::Me { discord_id }, LinkAsk::FetchMe { access_token }),
        ),
        (LinkState::Me { discord_id }, LinkEvent::User(u)) => if u.is_restricted {
            ends(
                r,
                Problem::BadRequest(
                    "This osu! account is restricted; restricted accounts cannot be linked."@,
                ),
            )
        } else {
            stores_profile(r, discord_id, u.id, u, None)
        },
        (
            LinkState::RefreshToken { discord_id, osu_user_id },
            LinkEvent::Token { access_token },
        ) => r == Some(
            (
                LinkState::Primary { discord_id, osu_user_id, app_token: access_token },
                LinkAsk::FetchUser { app_token: access_token, osu_user_id, mode: Mode::Osu },
            ),
        ),
        (LinkState::Primary { discord_id, osu_user_id, app_token }, LinkEvent::User(u)) => {
            stores_profile(r, discord_id, osu_user_id, u, Some(app_token))
        },
        (
            LinkState::Profile { discord_id, osu_user_id, username, app_token: None },
            LinkEvent::Done,
        ) => r == Some(
            (
                LinkState::AppToken { discord_id, osu_user_id, username },
                LinkAsk::FetchAppToken,
            ),
        ),
        (
            LinkState::Profile { discord_id, osu_user_id, username, app_token: Some(app_token) },
            LinkEvent::Done,
        ) => visits(r, discord_id, osu_user_id, username, app_token, 0),
        (
            LinkState::AppToken { discord_id, osu_user_id, username },
            LinkEvent::Token { access_token },
        ) => visits(r, discord_id, osu_user_id, username, access_token, 0),
        (
            LinkState::Fetching { discord_id, osu_user_id, username, app_token, at },
            LinkEvent::User(u),
        ) => if at < 4 {
            r == Some(
                (
                    LinkState::Storing { discord_id, osu_user_id, username, app_token, at },
                    LinkAsk::StoreStats(
                        stored_stats(osu_user_id, Mode::ALL@[at as int], u),
                    ),
                ),
            )
        } else {
            r is None
        },
        (
            LinkState::Storing { discord_id, osu_user_id, username, app_token, at },
            LinkEvent::Done,
        ) => if at < 4 {
            visits(r, discord_id, osu_user_id, username, app_token, at + 1)
        } else {
            r is None
        },
        (LinkState::Commit { discord_id, osu_user_id, username }, LinkEvent::Done) => {
            &&& r matches Some((next, LinkAsk::Enqueue(job)))
            &&& next == LinkState::Enqueue { osu_user_id, username }
            &&& job.kind == jobs::JobKind::PlayerSync
            &&& job.payload@ == crate::json::Json::object().with(
                "discord_id"@,
                crate::json::Json::Text(discord_id@),
            )
            &&& job.delay_secs == 0
        },
        (LinkState::Enqueue { osu_user_id, username }, LinkEvent::Done) => r == Some(
            (LinkState::Finished, LinkAsk::Finish { osu_user_id, username }),
        ),
        _ => r is None,
    }
}

fn visit(
    discord_id: String,
    osu_user_id: i64,
    username: String,
    app_token: String,
    at: usize,
) -> (r: Option<(LinkState, LinkAsk)>)
    ensures
        visits(r, discord_id, osu_user_id, username, app_token, at as int),
{
    if at < 4 {
        let ask = LinkAsk::FetchUser {
            app_token: app_token.clone(),
            osu_user_id,
            mode: Mode::ALL[at],
        };
        Some((LinkState::Fetching { discord_id, osu_user_id, username, app_token, at }, ask))
    } else {
        Some((LinkState::Commit { discord_id, osu_user_id, username }, LinkAsk::Commit))
    }
}

fn end(e: AppError) -> (r: Option<(LinkState, LinkAsk)>)
    ensures
        r == Some((LinkState::Finished, LinkAsk::Fail(e))),
{
    Some((LinkState::Finished, LinkAsk::Fail(e)))
}

/// One step of a link or a refresh.
pub fn link_step(osu: &OsuConfig, base_url: &str, state: LinkState, event: LinkEvent) -> (r: Option<
    (LinkState, LinkAsk),
>)
    ensures
        link_stepped(*osu, base_url@, state, event, r),
{
    match (state, event) {
        (LinkState::Finished, _) => None,
        (
            LinkState::Fetching { discord_id, osu_user_id, username, app_token, at },
            LinkEvent::Failed(_),
        ) => if at < 4 {
            visit(discord_id, osu_user_id, username, app_token, at + 1)
        } else {
            None
        },
        (_, LinkEvent::Failed(e)) => end(e),
        (LinkState::State { .. }, LinkEvent::StateRow(None)) => end(
            AppError::BadRequest(
                "OAuth state expired or unknown — start the link flow again from /verify.".to_owned(),
            ),
        ),
        (LinkState::State { code }, LinkEvent::StateRow(Some(row))) => match build_osu_client(osu) {
            Err(e) => end(e),
            Ok(client) => Some(
                (
                    LinkState::Exchange { discord_id: row.discord_id },
                    LinkAsk::Exchange {
                        client,
                        code,
                        code_verifier: row.code_verifier,
                        redirect_uri: redirect_uri(base_url),
                    },
                ),
            ),
        },
        (LinkState::Exchange { discord_id }, LinkEvent::Token { access_token }) => Some(
            (LinkState::Me { discord_id }, LinkAsk::FetchMe { access_token }),
        ),
        (LinkState::Me { discord_id }, LinkEvent::User(u)) => {
            if u.is_restricted {
                return end(
                    AppError::BadRequest(
                        "This osu! account is restricted; restricted accounts cannot be linked.".to_owned(),
                    ),
                );
            }
            match profile_row(discord_id.as_str(), &u, None) {
                Err(e) => end(e),
                Ok(row) => Some(
                    (
                        LinkState::Profile {
                            discord_id,
                            osu_user_id: u.id,
                            username: u.username,
                            app_token: None,
                        },
                        LinkAsk::StoreProfile(row),
                    ),
                ),
            }
        },
        (
            LinkState::RefreshToken { discord_id, osu_user_id },
            LinkEvent::Token { access_token },
        ) => {
            // The profile comes in the same shape whatever the mode; the stats of
            // every mode follow.
            let ask = LinkAsk::FetchUser {
                app_token: access_token.clone(),
                osu_user_id,
                mode: Mode::Osu,
            };
            Some(
                (LinkState::Primary { discord_id, osu_user_id, app_token: access_token }, ask),
            )
        },
        (LinkState::Primary { discord_id, osu_user_id, app_token }, LinkEvent::User(u)) => {
            match profile_row(discord_id.as_str(), &u, None) {
                Err(e) => end(e),
                Ok(row) => Some(
                    (
                        LinkState::Profile {
                            discord_id,
                            osu_user_id,
                            username: u.username,
                            app_token: Some(app_token),
                        },
                        LinkAsk::StoreProfile(row),
                    ),
                ),
            }
        },
        (
            LinkState::Profile { discord_id, osu_user_id, username, app_token: None },
            LinkEvent::Done,
        ) => Some(
            (LinkState::AppToken { discord_id, osu_user_id, username }, LinkAsk::FetchAppToken),
        ),
        (
            LinkState::Profile { discord_id, osu_user_id, username, app_token: Some(app_token) },
            LinkEvent::Done,
        ) => visit(discord_id, osu_user_id, username, app_token, 0),
        (
            LinkState::AppToken { discord_id, osu_user_id, username },
            LinkEvent::Token { access_token },
        ) => visit(discord_id, osu_user_id, username, access_token, 0),
        (
            LinkState::Fetching { discord_id, osu_user_id, username, app_token, at },
            LinkEvent::User(u),
        ) => {
            if at >= 4 {
                return None;
            }
            let row = stats_row(osu_user_id, Mode::ALL[at], &u);
            Some(
                (
                    LinkState::Storing { discord_id, osu_user_id, username, app_token, at },
                    LinkAsk::StoreStats(row),
                ),
            )
        },
        (
            LinkState::Storing { discord_id, osu_user_id, username, app_token, at },
            LinkEvent::Done,
        ) => if at < 4 {
            visit(discord_id, osu_user_id, username, app_token, at + 1)
        } else {
            None
        },
        (LinkState::Commit { discord_id, osu_user_id, username }, LinkEvent::Done) => Some(
            (
                LinkState::Enqueue { osu_user_id, username },
                LinkAsk::Enqueue(jobs::player_sync_job(discord_id.as_str())),
            ),
        ),
        (LinkState::Enqueue { osu_user_id, username }, LinkEvent::Done) => Some(
            (LinkState::Finished, LinkAsk::Finish { osu_user_id, username }),
        ),
        _ => None,
    }
}

/// A slash at the end of the base URL makes no difference to the redirect URI.
pub proof fn law_redirect_uri_ignores_trailing_slash(base_url: Seq<char>)
    ensures
        callback_location(base_url + seq!['/']) == callback_location(base_url),
{
    assert((base_url + seq!['/']).drop_last() =~= base_url);
}

/// Escaped text holds no bracket and no quotation mark: it cannot open or close a
/// tag or an attribute.
pub proof fn law_escaped_text_has_no_markup(s: Seq<char>)
    ensures
        forall|i: int|
            0 <= i < html_escaped(s).len() ==> #[trigger] html_escaped(s)[i] != '<'
                && html_escaped(s)[i] != '>' && html_escaped(s)[i] != '"',
    decreases s.len(),
{
    if s.len() > 0 {
        law_escaped_text_has_no_markup(s.drop_last());
        reveal_strlit("&amp;");
        reveal_strlit("&lt;");
        reveal_strlit("&gt;");
        reveal_strlit("&quot;");
        let before = html_escaped(s.drop_last());
        let last = html_char(s.last());
        assert(html_escaped(s) == before + last);
        assert forall|i: int| 0 <= i < html_escaped(s).len() implies #[trigger] html_escaped(
            s,
        )[i] != '<' && html_escaped(s)[i] != '>' && html_escaped(s)[i] != '"' by {
            if i < before.len() {
                assert(html_escaped(s)[i] == before[i]);
            } else {
                assert(html_escaped(s)[i] == last[i - before.len()]);
            }
        }
    }
}

/// Text without special characters stays as it is.
pub proof fn law_plain_text_is_not_escaped(s: Seq<char>)
    requires
        forall|i: int|
            0 <= i < s.len() ==> #[trigger] s[i] != '&' && s[i] != '<' && s[i] != '>' && s[i] != '"',
    ensures
        html_escaped(s) == s,
    decreases s.len(),
{
    if s.len() > 0 {
        let rest = s.drop_last();
        assert forall|i: int| 0 <= i < rest.len() implies #[trigger] rest[i] != '&' && rest[i] != '<'
            && rest[i] != '>' && rest[i] != '"' by {
            assert(rest[i] == s[i]);
        }
        law_plain_text_is_not_escaped(rest);
        assert(s.last() == s[s.len() - 1]);
        assert(rest + seq![s.last()] =~= s);
    } else {
        assert(html_escaped(s) =~= s);
    }
}

/// Escaping works character by character: it distributes over concatenation.
pub proof fn law_escaping_distributes(a: Seq<char>, b: Seq<char>)
    ensures
        html_escaped(a + b) == html_escaped(a) + html_escaped(b),
    decreases b.len(),
{
    if b.len() == 0 {
        assert(a + b =~= a);
        assert(html_escaped(a) + html_escaped(b) =~= html_escaped(a));
    } else {
        law_escaping_distributes(a, b.drop_last());
        assert((a + b).drop_last() =~= a + b.drop_last());
        assert(html_escaped(a + b) =~= html_escaped(a) + html_escaped(b));
    }
}

/// The entities that escaping writes, in the order in which they are undone: that of
/// the ampersand is last.
pub open spec fn entity(n: nat) -> Seq<char> {
    if n == 0 {
        "&quot;"@
    } else if n == 1 {
        "&gt;"@
    } else if n == 2 {
        "&lt;"@
    } else {
        "&amp;"@
    }
}

/// The characters that the entities stand for.
pub open spec fn entity_char(n: nat) -> char {
    if n == 0 {
        '"'
    } else if n == 1 {
        '>'
    } else if n == 2 {
        '<'
    } else {
        '&'
    }
}

/// A text with the first `n` entities undone, one after the other.
pub open spec fn undone(s: Seq<char>, n: nat) -> Seq<char>
    decreases n,
{
    if n == 0 {
        s
    } else {
        text::replaced(
            undone(s, (n - 1) as nat),
            entity((n - 1) as nat),
            seq![entity_char((n - 1) as nat)],
        )
    }
}

/// How a character is written once the first `n` entities are undone.
spec fn half_escaped(c: char, n: nat) -> Seq<char> {
    if c == '&' && n < 4 {
        "&amp;"@
    } else if c == '<' && n < 3 {
        "&lt;"@
    } else if c == '>' && n < 2 {
        "&gt;"@
    } else if c == '"' && n < 1 {
        "&quot;"@
    } else {
        seq![c]
    }
}

/// A text once the first `n` entities are undone.
spec fn half_escaped_text(s: Seq<char>, n: nat) -> Seq<char>
    decreases s.len(),
{
    if s.len() == 0 {
        Seq::empty()
    } else {
        half_escaped(s[0], n) + half_escaped_text(s.skip(1), n)
    }
}

proof fn lemma_half_escaped_back(s: Seq<char>, n: nat)
    requires
        s.len() > 0,
    ensures
        half_escaped_text(s, n) == half_escaped_text(s.drop_last(), n) + half_escaped(s.last(), n),
    decreases s.len(),
{
    if s.len() == 1 {
        let none = Seq::<char>::empty();
        assert(s.skip(1) =~= none && s.drop_last() =~= none);
        assert(half_escaped_text(none, n) == none);
        assert(half_escaped_text(s, n) == half_escaped(s[0], n) + half_escaped_text(none, n));
        assert(half_escaped_text(s, n) =~= half_escaped(s[0], n));
        assert(half_escaped_text(s.drop_last(), n) + half_escaped(s.last(), n) =~= half_escaped(
            s[0],
            n,
        ));
    } else {
        lemma_half_escaped_back(s.skip(1), n);
        assert(s.skip(1).drop_last() =~= s.drop_last().skip(1));
        assert(half_escaped_text(s, n) =~= half_escaped_text(s.drop_last(), n) + half_escaped(
            s.last(),
            n,
        ));
    }
}

proof fn lemma_half_escaped_ends(s: Seq<char>)
    ensures
        half_escaped_text(s, 0) == html_escaped(s),
        half_escaped_text(s, 4) == s,
    decreases s.len(),
{
    if s.len() == 0 {
        assert(half_escaped_text(s, 0) =~= html_escaped(s));
        assert(half_escaped_text(s, 4) =~= s);
    } else {
        lemma_half_escaped_ends(s.drop_last());
        lemma_half_escaped_back(s, 0);
        lemma_half_escaped_back(s, 4);
        assert(half_escaped_text(s, 0) =~= html_escaped(s));
        assert(half_escaped_text(s, 4) =~= s);
    }
}

/// Replacing goes past a character at which the part does not stand.
proof fn lemma_replaced_past(s: Seq<char>, part: Seq<char>, by: Seq<char>)
    requires
        s.len() > 0,
        part.len() > 0,
        !part.is_prefix_of(s),
    ensures
        text::replaced(s, part, by) == seq![s[0]] + text::replaced(s.skip(1), part, by),
{
    if s.len() < part.len() {
        assert(seq![s[0]] + s.skip(1) =~= s);
    } else {
        assert(part =~= s.take(part.len() as int) ==> part.is_prefix_of(s));
    }
}

/// Replacing goes past a run of characters with which the part does not start.
proof fn lemma_replaced_past_run(run: Seq<char>, rest: Seq<char>, part: Seq<char>, by: Seq<char>)
    requires
        part.len() > 0,
        forall|i: int| 0 <= i < run.len() ==> #[trigger] run[i] != part[0],
    ensures
        text::replaced(run + rest, part, by) == run + text::replaced(rest, part, by),
    decreases run.len(),
{
    if run.len() == 0 {
        assert(run + rest =~= rest);
        assert(run + text::replaced(rest, part, by) =~= text::replaced(rest, part, by));
    } else {
        let s = run + rest;
        assert(s[0] == run[0]);
        assert(!part.is_prefix_of(s));
        lemma_replaced_past(s, part, by);
        assert(s.skip(1) =~= run.skip(1) + rest);
        lemma_replaced_past_run(run.skip(1), rest, part, by);
        assert(seq![s[0]] + (run.skip(1) + text::replaced(rest, part, by)) =~= run
            + text::replaced(rest, part, by));
    }
}

proof fn lemma_entities()
    ensures
        "&quot;"@ == seq!['&', 'q', 'u', 'o', 't', ';'],
        "&gt;"@ == seq!['&', 'g', 't', ';'],
        "&lt;"@ == seq!['&', 'l', 't', ';'],
        "&amp;"@ == seq!['&', 'a', 'm', 'p', ';'],
{
    reveal_strlit("&quot;");
    reveal_strlit("&gt;");
    reveal_strlit("&lt;");
    reveal_strlit("&amp;");
    assert("&quot;"@ =~= seq!['&', 'q', 'u', 'o', 't', ';']);
    assert("&gt;"@ =~= seq!['&', 'g', 't', ';']);
    assert("&lt;"@ =~= seq!['&', 'l', 't', ';']);
    assert("&amp;"@ =~= seq!['&', 'a', 'm', 'p', ';']);
}

proof fn lemma_undo_one(s: Seq<char>, n: nat)
    requires
        n < 4,
    ensures
        text::replaced(half_escaped_text(s, n), entity(n), seq![entity_char(n)])
            == half_escaped_text(s, n + 1),
    decreases s.len(),
{
    lemma_entities();
    if s.len() > 0 {
        let rest = half_escaped_text(s.skip(1), n);
        let unit = half_escaped(s[0], n);
        let part = entity(n);
        let by = seq![entity_char(n)];
        lemma_undo_one(s.skip(1), n);
        if s[0] == entity_char(n) {
            assert(unit == part);
            assert((unit + rest).take(part.len() as int) =~= part);
            assert((unit + rest).skip(part.len() as int) =~= rest);
        } else if unit.len() > 1 {
            assert(unit[0] == '&' && unit[1] != part[1]);
            assert((unit + rest)[1] == unit[1]);
            assert(!part.is_prefix_of(unit + rest));
            lemma_replaced_past(unit + rest, part, by);
            assert((unit + rest).skip(1) =~= unit.skip(1) + rest);
            assert forall|i: int| 0 <= i < unit.skip(1).len() implies #[trigger] unit.skip(1)[i]
                != part[0] by {
                assert(unit.skip(1)[i] == unit[i + 1]);
            }
            lemma_replaced_past_run(unit.skip(1), rest, part, by);
            assert(seq![(unit + rest)[0]] + (unit.skip(1) + text::replaced(rest, part, by)) =~= unit
                + text::replaced(rest, part, by));
        } else {
            lemma_replaced_past_run(unit, rest, part, by);
        }
    }
}

/// Escaping can be undone: replacing the entities by their characters, that of the
/// ampersand last, gives the text back. So nothing is escaped twice.
pub proof fn law_escaping_can_be_undone(s: Seq<char>)
    ensures
        undone(html_escaped(s), 4) == s,
{
    lemma_half_escaped_ends(s);
    reveal_with_fuel(undone, 5);
    lemma_undo_one(s, 0);
    lemma_undo_one(s, 1);
    lemma_undo_one(s, 2);
    lemma_undo_one(s, 3);
}

/// A restricted account is never stored.
pub proof fn law_restricted_account_is_refused(
    osu: OsuConfig,
    base_url: Seq<char>,
    discord_id: String,
    u: OsuUser,
    next: LinkState,
    ask: LinkAsk,
)
    requires
        u.is_restricted,
        link_stepped(
            osu,
            base_url,
            LinkState::Me { discord_id },
            LinkEvent::User(u),
            Some((next, ask)),
        ),
    ensures
        next is Finished,
        ask matches LinkAsk::Fail(e) && e@ is BadRequest,
        !writes(ask),
{
}

/// True for the requests that write the account, its stats or a job.
pub open spec fn writes(ask: LinkAsk) -> bool {
    ask is StoreProfile || ask is StoreStats || ask is Commit || ask is Enqueue
}

/// A callback whose state is unknown, has expired or was consumed before ends as a
/// bad request: nothing was written up to there, and nothing follows.
pub proof fn law_unknown_state_writes_nothing(
    osu: OsuConfig,
    base_url: Seq<char>,
    code: String,
    state: String,
    r: Option<(LinkState, LinkAsk)>,
    event: LinkEvent,
    later: Option<(LinkState, LinkAsk)>,
)
    requires
        link_stepped(
            osu,
            base_url,
            LinkState::State { code },
            LinkEvent::StateRow(None),
            r,
        ),
        r is Some ==> link_stepped(osu, base_url, (r->0).0, event, later),
    ensures
        !writes(LinkAsk::ConsumeState { state }),
        r matches Some((next, LinkAsk::Fail(e))) && next is Finished && e@ is BadRequest,
        later is None,
{
}

/// Nothing is written for a callback before osu! has said whose account it is.
pub proof fn law_nothing_is_written_before_the_account_is_known(
    osu: OsuConfig,
    base_url: Seq<char>,
    state: LinkState,
    event: LinkEvent,
    next: LinkState,
    ask: LinkAsk,
)
    requires
        state is State || state is Exchange || state is Me,
        link_stepped(osu, base_url, state, event, Some((next, ask))),
    ensures
        writes(ask) ==> state is Me && (event matches LinkEvent::User(u) && !u.is_restricted),
{
}

/// A mode whose stats cannot be fetched is left out, and the flow goes on.
pub proof fn law_missing_mode_is_skipped(
    osu: OsuConfig,
    base_url: Seq<char>,
    state: LinkState,
    error: AppError,
    next: LinkState,
    ask: LinkAsk,
)
    requires
        state is Fetching,
        link_stepped(osu, base_url, state, LinkEvent::Failed(error), Some((next, ask))),
    ensures
        ask is FetchUser || ask is Commit,
{
}

/// Roles are evaluated once the account is committed, and only then.
pub proof fn law_roles_follow_the_commit(
    osu: OsuConfig,
    base_url: Seq<char>,
    state: LinkState,
    event: LinkEvent,
    next: LinkState,
    ask: LinkAsk,
)
    requires
        link_stepped(osu, base_url, state, event, Some((next, ask))),
    ensures
        ask is Enqueue ==> state is Commit && event is Done,
        ask is Finish ==> state is Enqueue && event is Done,
        state is Commit && event is Done ==> ask is Enqueue,
{
}

/// A state that is unknown or has expired ends the flow before any code is
/// exchanged, and a code is exchanged only with the verifier that was stored with
/// its state.
pub proof fn law_code_needs_its_verifier(
    osu: OsuConfig,
    base_url: Seq<char>,
    state: LinkState,
    event: LinkEvent,
    next: LinkState,
    ask: LinkAsk,
)
    requires
        link_stepped(osu, base_url, state, event, Some((next, ask))),
    ensures
        ask matches LinkAsk::Exchange { code_verifier, code, .. } ==> (event matches
            LinkEvent::StateRow(Some(row)) && code_verifier == row.code_verifier && state
            == (LinkState::State { code }) && next == (LinkState::Exchange {
            discord_id: row.discord_id,
        })),
        event matches LinkEvent::StateRow(None) ==> ask is Fail,
{
}

/// True for the numbers that a column of 32 bits holds.
pub open spec fn fits(n: int) -> bool {
    i32::MIN <= n <= i32::MAX
}

/// Every statistic that osu! reports and that fits its column is stored unchanged,
/// under the account and the mode that it was fetched for; one that is not reported
/// is no rank, or zero. Play time is stored in whole hours.
pub proof fn law_statistics_are_stored_unchanged(
    osu_user_id: i64,
    mode: Mode,
    u: OsuUser,
    s: UserStatistics,
)
    requires
        u.statistics == Some(s),
    ensures
        ({
            let row = stored_stats(osu_user_id, mode, u);
            &&& row.osu_user_id == osu_user_id
            &&& row.mode == mode
            &&& s.global_rank is None ==> row.global_rank is None
            &&& s.global_rank matches Some(n) ==> row.global_rank is Some && (fits(n as int) ==> row.global_rank->0 == n)
            &&& s.country_rank is None ==> row.country_rank is None
            &&& s.country_rank matches Some(n) ==> row.country_rank is Some && (fits(n as int) ==> row.country_rank->0 == n)
            &&& s.play_count is None ==> row.play_count == 0
            &&& s.play_count matches Some(n) ==> fits(n as int) ==> row.play_count == n
            &&& s.maximum_combo is None ==> row.max_combo == 0
            &&& s.maximum_combo matches Some(n) ==> fits(n as int) ==> row.max_combo == n
            &&& s.pp is None ==> row.performance_points == 0
            &&& s.pp matches Some(n) ==> row.performance_points == n
            &&& s.total_score is None ==> row.total_score == 0
            &&& s.total_score matches Some(n) ==> row.total_score == n
            &&& s.ranked_score is None ==> row.ranked_score == 0
            &&& s.ranked_score matches Some(n) ==> row.ranked_score == n
            &&& s.hit_accuracy is None ==> row.hit_accuracy == 0
            &&& s.hit_accuracy matches Some(n) ==> row.hit_accuracy == n
            &&& s.play_time is None ==> row.play_time_hours == 0
            &&& s.play_time matches Some(secs) ==> 0 <= secs <= i32::MAX * 3600
                ==> row.play_time_hours * 3600 <= secs < (row.play_time_hours + 1) * 3600
            &&& s.level is None ==> row.level_int == 0
            &&& s.level matches Some(level) ==> level.current is None ==> row.level_int == 0
            &&& s.level matches Some(level) ==> (level.current matches Some(n) ==> fits(n as int)
                ==> row.level_int == n)
            &&& s.grade_counts is None ==> row.count_ss == 0 && row.count_ss_silver == 0 && row.count_s == 0
                && row.count_s_silver == 0 && row.count_a == 0
            &&& s.grade_counts matches Some(g) ==> fits(g.ss as int) ==> row.count_ss == g.ss
            &&& s.grade_counts matches Some(g) ==> fits(g.ssh as int) ==> row.count_ss_silver == g.ssh
            &&& s.grade_counts matches Some(g) ==> fits(g.s as int) ==> row.count_s == g.s
            &&& s.grade_counts matches Some(g) ==> fits(g.sh as int) ==> row.count_s_silver == g.sh
            &&& s.grade_counts matches Some(g) ==> fits(g.a as int) ==> row.count_a == g.a
        }),
{
}

/// Rows tell players apart: two players whose stored rows are equal have the same
/// account, mode and ranks, and the same counts wherever these are reported and fit.
pub proof fn law_equal_rows_hold_equal_statistics(
    a: (i64, Mode, UserStatistics),
    b: (i64, Mode, UserStatistics),
    u: OsuUser,
    v: OsuUser,
)
    requires
        u.statistics == Some(a.2),
        v.statistics == Some(b.2),
        stored_stats(a.0, a.1, u) == stored_stats(b.0, b.1, v),
    ensures
        a.0 == b.0,
        a.1 == b.1,
        a.2.global_rank is Some <==> b.2.global_rank is Some,
        a.2.country_rank is Some <==> b.2.country_rank is Some,
        a.2.global_rank matches Some(n) ==> (b.2.global_rank matches Some(m) ==> fits(n as int)
            && fits(m as int) ==> n == m),
        a.2.country_rank matches Some(n) ==> (b.2.country_rank matches Some(m) ==> fits(n as int)
            && fits(m as int) ==> n == m),
        a.2.play_count matches Some(n) ==> (b.2.play_count matches Some(m) ==> fits(n as int)
            && fits(m as int) ==> n == m),
        a.2.maximum_combo matches Some(n) ==> (b.2.maximum_combo matches Some(m) ==> fits(n as int)
            && fits(m as int) ==> n == m),
        a.2.pp matches Some(n) ==> (b.2.pp matches Some(m) ==> n == m),
        a.2.total_score matches Some(n) ==> (b.2.total_score matches Some(m) ==> n == m),
        a.2.ranked_score matches Some(n) ==> (b.2.ranked_score matches Some(m) ==> n == m),
        a.2.hit_accuracy matches Some(n) ==> (b.2.hit_accuracy matches Some(m) ==> n == m),
{
    law_statistics_are_stored_unchanged(a.0, a.1, u, a.2);
    law_statistics_are_stored_unchanged(b.0, b.1, v, b.2);
}

/// A player without statistics is stored as one who never played: unranked, and zero
/// in everything.
pub proof fn law_no_statistics_are_stored_as_zeros(osu_user_id: i64, mode: Mode, u: OsuUser)
    requires
        u.statistics is None,
    ensures
        ({
            let row = stored_stats(osu_user_id, mode, u);
            &&& row.osu_user_id == osu_user_id && row.mode == mode
            &&& row.global_rank is None && row.country_rank is None
            &&& row.performance_points == 0 && row.play_count == 0 && row.play_time_hours == 0
            &&& row.total_score == 0 && row.ranked_score == 0 && row.hit_accuracy == 0
            &&& row.max_combo == 0 && row.level_int == 0
            &&& row.count_ss == 0 && row.count_ss_silver == 0 && row.count_s == 0
            &&& row.count_s_silver == 0 && row.count_a == 0
        }),
{
}

/// The profile that is stored holds what osu! reports: the account, the names, the
/// flags and the instants as they are, every count that fits its column unchanged,
/// the country code of the profile before that of its country, the identifiers of the
/// groups that have one, and the playstyles.
pub proof fn law_profiles_are_stored_unchanged(
    row: ProfileRow,
    discord_id: Seq<char>,
    u: OsuUser,
    discord_name: Option<Seq<char>>,
    joined: (i64, u32),
    last_visit: Option<(i64, u32)>,
)
    requires
        row.describes(discord_id, u, discord_name, joined, last_visit),
    ensures
        row.discord_id@ == discord_id,
        row.osu_user_id == u.id,
        row.osu_username@ == u.username@,
        text::opt_view(row.discord_name) == discord_name,
        row.is_supporter == u.is_supporter,
        row.is_restricted == u.is_restricted,
        row.is_active == u.is_active,
        fits(u.support_level as int) ==> row.support_level == u.support_level,
        row.osu_joined_at.secs == joined.0 && row.osu_joined_at.nanos == joined.1,
        last_visit is None <==> row.last_visit_at is None,
        last_visit matches Some(t) ==> row.last_visit_at->0.secs == t.0
            && row.last_visit_at->0.nanos == t.1,
        u.badges is None ==> row.badge_count == 0,
        u.badges matches Some(badges) ==> fits(badges@.len() as int) ==> row.badge_count
            == badges@.len(),
        u.kudosu is None ==> row.kudosu_total == 0,
        u.kudosu matches Some(k) ==> fits(k.total as int) ==> row.kudosu_total == k.total,
        u.follower_count is None ==> row.follower_count == 0,
        u.follower_count matches Some(n) ==> fits(n as int) ==> row.follower_count == n,
        u.mapping_follower_count is None ==> row.mapping_followers == 0,
        u.mapping_follower_count matches Some(n) ==> fits(n as int) ==> row.mapping_followers == n,
        u.ranked_beatmapset_count is None ==> row.ranked_beatmaps == 0,
        u.ranked_beatmapset_count matches Some(n) ==> fits(n as int) ==> row.ranked_beatmaps == n,
        u.loved_beatmapset_count is None ==> row.loved_beatmaps == 0,
        u.loved_beatmapset_count matches Some(n) ==> fits(n as int) ==> row.loved_beatmaps == n,
        u.pending_beatmapset_count is None ==> row.pending_beatmaps == 0,
        u.pending_beatmapset_count matches Some(n) ==> fits(n as int) ==> row.pending_beatmaps == n,
        u.graveyard_beatmapset_count is None ==> row.graveyard_beatmaps == 0,
        u.graveyard_beatmapset_count matches Some(n) ==> fits(n as int) ==> row.graveyard_beatmaps == n,
        u.beatmap_playcounts_count is None ==> row.mapping_playcount == 0,
        u.beatmap_playcounts_count matches Some(n) ==> fits(n as int) ==> row.mapping_playcount == n,
        u.replays_watched_by_others is None ==> row.replays_watched_others == 0,
        u.replays_watched_by_others matches Some(n) ==> fits(n as int) ==> row.replays_watched_others == n,
        u.favourite_beatmapset_count is None ==> row.favourite_beatmapsets == 0,
        u.favourite_beatmapset_count matches Some(n) ==> fits(n as int) ==> row.favourite_beatmapsets == n,
        u.country_code matches Some(code) ==> row.country_code is Some && row.country_code->0@
            == code@,
        u.country_code is None && u.country is None ==> row.country_code is None,
        u.country_code is None ==> (u.country matches Some(country) ==> text::opt_view(
            row.country_code,
        ) == text::opt_view(country.code)),
        u.country is None ==> row.country_name is None,
        u.country matches Some(country) ==> text::opt_view(row.country_name) == text::opt_view(
            country.name,
        ),
        text::opt_view(row.profile_colour) == text::opt_view(u.profile_colour),
        text::opt_view(row.avatar_url) == text::opt_view(u.avatar_url),
        u.groups is None ==> row.groups@.len() == 0,
        u.groups matches Some(groups) ==> text::views(row.groups@) == groups@.filter(
            |g: Group| g.identifier is Some && g.identifier->0@.len() > 0,
        ).map_values(|g: Group| g.identifier->0@),
        u.playstyle is None ==> row.playstyles@.len() == 0,
        u.playstyle matches Some(list) ==> text::views(row.playstyles@) == text::views(list@),
{
    assert(text::views(row.groups@).len() == row.groups@.len());
    assert(text::views(row.playstyles@).len() == row.playstyles@.len());
    if let Some(groups) = u.groups {
        lemma_identifiers_are_filtered(groups@);
    }
}

proof fn lemma_identifiers_are_filtered(groups: Seq<Group>)
    ensures
        identifiers(groups) == groups.filter(
            |g: Group| g.identifier is Some && g.identifier->0@.len() > 0,
        ).map_values(|g: Group| g.identifier->0@),
    decreases groups.len(),
{
    reveal(Seq::filter);
    let keep = |g: Group| g.identifier is Some && g.identifier->0@.len() > 0;
    let say = |g: Group| g.identifier->0@;
    if groups.len() > 0 {
        let rest = groups.drop_last();
        lemma_identifiers_are_filtered(rest);
        if keep(groups.last()) {
            assert(groups.filter(keep) =~= rest.filter(keep).push(groups.last()));
            assert(groups.filter(keep).map_values(say) =~= rest.filter(keep).map_values(say).push(
                say(groups.last()),
            ));
        } else {
            assert(groups.filter(keep) =~= rest.filter(keep));
        }
    } else {
        assert(groups.filter(keep).map_values(say) =~= Seq::empty());
    }
}

/// What a link finds around it: the row of the state that came back, what the code is
/// exchanged for, who the tokens belong to, and the players by account and mode, where
/// they can be fetched.
pub struct LinkSurroundings {
    pub row: OauthState,
    pub access_token: String,
    pub me: spec_fn(String) -> OsuUser,
    pub app_token: String,
    pub users: spec_fn(i64, Mode) -> Option<OsuUser>,
}

/// What a link leaves behind.
pub struct LinkLeft {
    pub profile: Option<ProfileRow>,
    pub stats: Seq<StatsRow>,
    pub committed: bool,
    pub jobs: Seq<NewJob>,
}

/// One step of a run: what was asked for in which state, and what came back.
pub struct LinkMove {
    pub state: LinkState,
    pub ask: LinkAsk,
    pub event: LinkEvent,
}

/// True when an event is what a request brings back. Only a player in a mode may be
/// impossible to fetch.
pub open spec fn link_answers(w: LinkSurroundings, ask: LinkAsk, event: LinkEvent) -> bool {
    match ask {
        LinkAsk::ConsumeState { .. } => event == LinkEvent::StateRow(Some(w.row)),
        LinkAsk::Exchange { .. } => event == (LinkEvent::Token { access_token: w.access_token }),
        LinkAsk::FetchMe { access_token } => event == LinkEvent::User((w.me)(access_token)),
        LinkAsk::FetchAppToken => event == (LinkEvent::Token { access_token: w.app_token }),
        LinkAsk::FetchUser { osu_user_id, mode, .. } => match (w.users)(osu_user_id, mode) {
            Some(u) => event == LinkEvent::User(u),
            None => event is Failed,
        },
        _ => event is Done,
    }
}

/// What is left behind once a request is met.
pub open spec fn met(left: LinkLeft, ask: LinkAsk) -> LinkLeft {
    match ask {
        LinkAsk::StoreProfile(row) => LinkLeft { profile: Some(row), ..left },
        LinkAsk::StoreStats(row) => LinkLeft { stats: left.stats.push(row), ..left },
        LinkAsk::Commit => LinkLeft { committed: true, ..left },
        LinkAsk::Enqueue(job) => LinkLeft { jobs: left.jobs.push(job), ..left },
        _ => left,
    }
}

/// True when the moves lead to the end of a link, which is asked for last, and leave
/// `end` behind.
pub open spec fn link_runs(
    osu: OsuConfig,
    base_url: Seq<char>,
    w: LinkSurroundings,
    left: LinkLeft,
    moves: Seq<LinkMove>,
    end: LinkLeft,
) -> bool
    decreases moves.len(),
{
    if moves.len() == 0 {
        false
    } else if moves[0].ask is Finish || moves[0].ask is Fail {
        moves.len() == 1 && end == left
    } else {
        &&& moves.len() > 1
        &&& link_answers(w, moves[0].ask, moves[0].event)
        &&& link_stepped(
            osu,
            base_url,
            moves[0].state,
            moves[0].event,
            Some((moves[1].state, moves[1].ask)),
        )
        &&& link_runs(osu, base_url, w, met(left, moves[0].ask), moves.skip(1), end)
    }
}

/// The first move of a run, and what follows it.
proof fn lemma_link_move(
    osu: OsuConfig,
    base_url: Seq<char>,
    w: LinkSurroundings,
    left: LinkLeft,
    moves: Seq<LinkMove>,
    end: LinkLeft,
)
    requires
        link_runs(osu, base_url, w, left, moves, end),
        !(moves[0].ask is Finish || moves[0].ask is Fail),
    ensures
        moves.len() > 1,
        link_answers(w, moves[0].ask, moves[0].event),
        link_stepped(
            osu,
            base_url,
            moves[0].state,
            moves[0].event,
            Some((moves.skip(1)[0].state, moves.skip(1)[0].ask)),
        ),
        link_runs(osu, base_url, w, met(left, moves[0].ask), moves.skip(1), end),
        moves.skip(1).last() == moves.last(),
{
}

/// The stats in the modes from `at` on that can be fetched, in the order of the modes.
pub open spec fn stats_from(w: LinkSurroundings, osu_user_id: i64, at: int) -> Seq<StatsRow>
    decreases 4 - at,
{
    if at < 0 || at >= 4 {
        Seq::empty()
    } else {
        let mode = Mode::ALL@[at];
        let rest = stats_from(w, osu_user_id, at + 1);
        match (w.users)(osu_user_id, mode) {
            Some(u) => seq![stored_stats(osu_user_id, mode, u)] + rest,
            None => rest,
        }
    }
}

/// From the mode at `at` on, a run stores what can be fetched, commits, enqueues the
/// sync of the player, and finishes.
#[verifier::rlimit(40)]
#[verifier::spinoff_prover]
proof fn lemma_link_modes(
    osu: OsuConfig,
    base_url: Seq<char>,
    w: LinkSurroundings,
    left: LinkLeft,
    moves: Seq<LinkMove>,
    end: LinkLeft,
    discord_id: String,
    osu_user_id: i64,
    username: String,
    app_token: String,
    at: int,
)
    requires
        0 <= at <= 4,
        link_runs(osu, base_url, w, left, moves, end),
        visits(
            Some((moves[0].state, moves[0].ask)),
            discord_id,
            osu_user_id,
            username,
            app_token,
            at,
        ),
    ensures
        moves.last().ask == (LinkAsk::Finish { osu_user_id, username }),
        end.profile == left.profile,
        end.stats == left.stats + stats_from(w, osu_user_id, at),
        end.committed,
        end.jobs.len() == left.jobs.len() + 1,
        end.jobs.drop_last() == left.jobs,
        end.jobs.last().kind == jobs::JobKind::PlayerSync,
        end.jobs.last().payload@ == crate::json::Json::object().with(
            "discord_id"@,
            crate::json::Json::Text(discord_id@),
        ),
    decreases 4 - at,
{
    lemma_link_move(osu, base_url, w, left, moves, end);
    let second = moves.skip(1);
    let after = met(left, moves[0].ask);
    if at < 4 {
        let mode = Mode::ALL@[at];
        let rest = stats_from(w, osu_user_id, at + 1);
        match (w.users)(osu_user_id, mode) {
            Some(u) => {
                let row = stored_stats(osu_user_id, mode, u);
                lemma_link_move(osu, base_url, w, after, second, end);
                let later = met(after, second[0].ask);
                lemma_link_modes(
                    osu,
                    base_url,
                    w,
                    later,
                    second.skip(1),
                    end,
                    discord_id,
                    osu_user_id,
                    username,
                    app_token,
                    at + 1,
                );
                assert(left.stats.push(row) + rest =~= left.stats + (seq![row] + rest));
            },
            None => {
                lemma_link_modes(
                    osu,
                    base_url,
                    w,
                    after,
                    second,
                    end,
                    discord_id,
                    osu_user_id,
                    username,
                    app_token,
                    at + 1,
                );
            },
        }
    } else {
        lemma_link_move(osu, base_url, w, after, second, end);
        let third = second.skip(1);
        let later = met(after, second[0].ask);
        assert(left.stats + stats_from(w, osu_user_id, at) =~= left.stats);
        assert(third[0].ask is Finish);
        assert(end == later);
        assert(later.jobs.drop_last() =~= left.jobs);
        assert(third.len() == 1);
        assert(third.last() == moves.last());
    }
}

/// A link that goes through stores the profile of the account that the tokens belong to
/// under the Discord user who started it, and the stats of that account in every mode
/// that can be fetched, each under its own mode; it commits, and then enqueues the sync
/// of that Discord user.
pub proof fn law_links_store_the_account_and_sync_its_roles(
    osu: OsuConfig,
    base_url: Seq<char>,
    w: LinkSurroundings,
    left: LinkLeft,
    moves: Seq<LinkMove>,
    end: LinkLeft,
)
    requires
        link_runs(osu, base_url, w, left, moves, end),
        moves[0].state is State,
        moves[0].ask is ConsumeState,
        osu.client_id is Some,
        osu.client_secret is Some,
        !(w.me)(w.access_token).is_restricted,
        clock::rfc3339((w.me)(w.access_token).join_date@) is Ok,
    ensures
        ({
            let me = (w.me)(w.access_token);
            &&& moves.last().ask == (LinkAsk::Finish {
                osu_user_id: me.id,
                username: me.username,
            })
            &&& end.profile matches Some(row)
            &&& row.osu_user_id == me.id && row.discord_id@ == w.row.discord_id@
            &&& row.is_supporter == me.is_supporter && row.osu_username@ == me.username@
            &&& end.stats == left.stats + stats_from(w, me.id, 0)
            &&& end.committed
            &&& end.jobs.len() == left.jobs.len() + 1
            &&& end.jobs.last().kind == jobs::JobKind::PlayerSync
            &&& end.jobs.last().payload@.field("discord_id"@) == Some(
                crate::json::Json::Text(w.row.discord_id@),
            )
        }),
{
    let me = (w.me)(w.access_token);
    lemma_link_move(osu, base_url, w, left, moves, end);
    let m1 = moves.skip(1);
    lemma_link_move(osu, base_url, w, left, m1, end);
    let m2 = m1.skip(1);
    lemma_link_move(osu, base_url, w, left, m2, end);
    let m3 = m2.skip(1);
    lemma_link_move(osu, base_url, w, left, m3, end);
    let m4 = m3.skip(1);
    let stored = met(left, m3[0].ask);
    lemma_link_move(osu, base_url, w, stored, m4, end);
    let m5 = m4.skip(1);
    lemma_link_modes(
        osu,
        base_url,
        w,
        stored,
        m5,
        end,
        w.row.discord_id,
        me.id,
        me.username,
        w.app_token,
        0,
    );
    let fields = end.jobs.last().payload@->Fields_0;
    assert(fields[0] == ("discord_id"@, crate::json::Json::Text(w.row.discord_id@)));
    crate::json::lemma_field_at(fields, 0);
}

/// The stats of every mode that can be fetched are among those that are stored, and
/// each of those is of the account.
pub proof fn law_every_mode_is_stored(w: LinkSurroundings, osu_user_id: i64, mode: Mode)
    ensures
        (w.users)(osu_user_id, mode) matches Some(u) ==> stats_from(w, osu_user_id, 0).contains(
            stored_stats(osu_user_id, mode, u),
        ),
        forall|i: int|
            0 <= i < stats_from(w, osu_user_id, 0).len() ==> (#[trigger] stats_from(
                w,
                osu_user_id,
                0,
            )[i]).osu_user_id == osu_user_id,
        stats_from(w, osu_user_id, 0).len() <= 4,
{
    let at: int = match mode {
        Mode::Osu => 0,
        Mode::Taiko => 1,
        Mode::Fruits => 2,
        Mode::Mania => 3,
    };
    assert(Mode::ALL@[at] == mode);
    lemma_stats_from(w, osu_user_id, 0, at);
}

proof fn lemma_stats_from(w: LinkSurroundings, osu_user_id: i64, from: int, at: int)
    requires
        0 <= from <= 4,
        0 <= at < 4,
    ensures
        from <= at ==> ((w.users)(osu_user_id, Mode::ALL@[at]) matches Some(u) ==> stats_from(
            w,
            osu_user_id,
            from,
        ).contains(stored_stats(osu_user_id, Mode::ALL@[at], u))),
        forall|i: int|
            0 <= i < stats_from(w, osu_user_id, from).len() ==> (#[trigger] stats_from(
                w,
                osu_user_id,
                from,
            )[i]).osu_user_id == osu_user_id,
        stats_from(w, osu_user_id, from).len() <= 4 - from,
    decreases 4 - from,
{
    if from < 4 {
        lemma_stats_from(w, osu_user_id, from + 1, at);
        let rest = stats_from(w, osu_user_id, from + 1);
        let all = stats_from(w, osu_user_id, from);
        let mode = Mode::ALL@[from];
        if let Some(u) = (w.users)(osu_user_id, mode) {
            let row = stored_stats(osu_user_id, mode, u);
            assert(all == seq![row] + rest);
            assert(all[0] == row);
            assert forall|i: int| 0 <= i < all.len() implies (#[trigger] all[i]).osu_user_id
                == osu_user_id by {
                if i > 0 {
                    assert(all[i] == rest[i - 1]);
                }
            }
            if from < at {
                if let Some(v) = (w.users)(osu_user_id, Mode::ALL@[at]) {
                    let other = stored_stats(osu_user_id, Mode::ALL@[at], v);
                    let k = choose|k: int| 0 <= k < rest.len() && rest[k] == other;
                    assert(all[k + 1] == other);
                }
            }
        }
    }
}

/// A callback goes on exactly when osu! reports no error and sends both a code and a
/// state: the state is looked up, and the code is kept for the exchange.
pub proof fn law_callbacks_need_code_and_state(
    q: CallbackQuery,
    r: Result<(LinkState, LinkAsk), AppError>,
)
    requires
        call_ensures(callback, (q,), r),
    ensures
        r is Ok <==> q.error is None && q.code is Some && q.state is Some,
        r matches Ok((LinkState::State { code }, LinkAsk::ConsumeState { state })) ==> q.code
            == Some(code) && q.state == Some(state),
        r matches Ok((next, ask)) ==> next is State && ask is ConsumeState,
        r matches Err(e) ==> e is BadRequest,
        q.error matches Some(words) ==> (r matches Err(AppError::BadRequest(msg)) && text::has_part(
            msg@,
            words@,
        )),
{
    if let Some(words) = q.error {
        if let Err(AppError::BadRequest(msg)) = r {
            let desc = match q.error_description {
                Some(desc) => desc@,
                None => Seq::empty(),
            };
            text::law_a_part_cuts_the_text(msg@, words@);
            assert("osu! returned an error during authorization: "@ + words@ + (" ("@ + desc
                + ")"@) =~= msg@);
        }
    }
}

/// A refresh stores the profile under the Discord user and the account that it was
/// started for, whatever the mode that the profile was fetched in, and goes on with the
/// token that it has.
pub proof fn law_refreshes_keep_their_account(
    osu: OsuConfig,
    base_url: Seq<char>,
    discord_id: String,
    osu_user_id: i64,
    access_token: String,
    u: OsuUser,
    first: Option<(LinkState, LinkAsk)>,
    second: Option<(LinkState, LinkAsk)>,
    third: Option<(LinkState, LinkAsk)>,
)
    requires
        link_stepped(
            osu,
            base_url,
            LinkState::RefreshToken { discord_id, osu_user_id },
            LinkEvent::Token { access_token },
            first,
        ),
        clock::rfc3339(u.join_date@) is Ok,
        first matches Some((next, _)) ==> link_stepped(
            osu,
            base_url,
            next,
            LinkEvent::User(u),
            second,
        ),
        second matches Some((next, _)) ==> link_stepped(
            osu,
            base_url,
            next,
            LinkEvent::Done,
            third,
        ),
    ensures
        first matches Some((_, LinkAsk::FetchUser { app_token, osu_user_id: id, .. })) && app_token
            == access_token && id == osu_user_id,
        second matches Some((_, LinkAsk::StoreProfile(row))) && row.discord_id@ == discord_id@
            && row.osu_username@ == u.username@,
        third matches Some((_, LinkAsk::FetchUser { app_token, osu_user_id: id, mode }))
            && app_token == access_token && id == osu_user_id && mode is Osu,
{
}

/// Each place of the success page is filled with what it is named after: the base URL
/// as it is, the name of the account with its markup escaped, and the id in decimal.
/// What stands around a place is kept.
pub proof fn law_success_pages_are_filled_in(
    x: Seq<char>,
    y: Seq<char>,
    template: &str,
    base_url: &str,
    username: &str,
    user_id: i64,
    page: String,
)
    requires
        call_ensures(success_page, (template, base_url, username, user_id), page),
        !x.contains('{'),
        !y.contains('{'),
        !base_url@.contains('{'),
        !username@.contains('{'),
    ensures
        template@ == x + "{{BASE_URL}}"@ + y ==> page@ == x + base_url@ + y,
        template@ == x + "{{OSU_USERNAME}}"@ + y ==> page@ == x + html_escaped(username@) + y,
        template@ == x + "{{OSU_USER_ID}}"@ + y ==> page@ == x + text::int_dec(user_id as int) + y,
        template@ == x + y ==> page@ == x + y,
{
    let a = "{{BASE_URL}}"@;
    let b = "{{OSU_USERNAME}}"@;
    let c = "{{OSU_USER_ID}}"@;
    let name = html_escaped(username@);
    let id = text::int_dec(user_id as int);
    let none = Seq::<char>::empty();
    reveal_strlit("{{BASE_URL}}");
    reveal_strlit("{{OSU_USERNAME}}");
    reveal_strlit("{{OSU_USER_ID}}");
    assert(a[0] == '{' && b[0] == '{' && c[0] == '{');
    assert(a[1] == '{' && b[1] == '{');
    lemma_escaping_adds_no_brace(username@);
    if template@ == x + a + y {
        text::law_replacing_fills_the_place(x, a, y, base_url@);
        lemma_no_brace(x, base_url@, y);
        let s = x + base_url@ + y;
        text::law_replacing_fills_the_place(s, b, none, name);
        text::law_replacing_fills_the_place(s, c, none, id);
        assert(s + none =~= s);
    }
    if template@ == x + b + y {
        text::lemma_other_place(x, b, y, a, base_url@, 2);
        text::law_replacing_fills_the_place(x, b, y, name);
        lemma_no_brace(x, name, y);
        let s = x + name + y;
        text::law_replacing_fills_the_place(s, c, none, id);
        assert(s + none =~= s);
    }
    if template@ == x + c + y {
        text::lemma_other_place(x, c, y, a, base_url@, 2);
        text::lemma_other_place(x, c, y, b, name, 10);
        text::law_replacing_fills_the_place(x, c, y, id);
    }
    if template@ == x + y {
        text::law_replacing_fills_the_place(x, a, y, base_url@);
        text::law_replacing_fills_the_place(x, b, y, name);
        text::law_replacing_fills_the_place(x, c, y, id);
    }
}

proof fn lemma_no_brace(x: Seq<char>, by: Seq<char>, y: Seq<char>)
    requires
        !x.contains('{'),
        !by.contains('{'),
        !y.contains('{'),
    ensures
        !(x + by + y).contains('{'),
{
    let s = x + by + y;
    if s.contains('{') {
        let k = choose|k: int| 0 <= k < s.len() && s[k] == '{';
        if k < x.len() {
            assert(x[k] == '{');
        } else if k < x.len() + by.len() {
            assert(by[k - x.len()] == '{');
        } else {
            assert(y[k - x.len() - by.len()] == '{');
        }
    }
}

proof fn lemma_escaping_adds_no_brace(s: Seq<char>)
    requires
        !s.contains('{'),
    ensures
        !html_escaped(s).contains('{'),
    decreases s.len(),
{
    reveal_strlit("&amp;");
    reveal_strlit("&lt;");
    reveal_strlit("&gt;");
    reveal_strlit("&quot;");
    if s.len() > 0 {
        let rest = s.drop_last();
        assert(s.contains(s.last()));
        assert(!rest.contains('{')) by {
            if rest.contains('{') {
                let k = choose|k: int| 0 <= k < rest.len() && rest[k] == '{';
                assert(s[k] == '{');
            }
        }
        lemma_escaping_adds_no_brace(rest);
        let last = html_char(s.last());
        let all = html_escaped(s);
        assert(all == html_escaped(rest) + last);
        if all.contains('{') {
            let k = choose|k: int| 0 <= k < all.len() && all[k] == '{';
            if k < html_escaped(rest).len() {
                assert(html_escaped(rest)[k] == '{');
            } else {
                assert(last[k - html_escaped(rest).len()] == '{');
            }
        }
    }
}

/// A member has ten minutes to come back from osu!.
pub proof fn law_states_live_for_ten_minutes(r: Timestamp)
    requires
        call_ensures(state_expiry, (), r),
    ensures
        exists|now: Timestamp|
            #![trigger clock::is_reading(now)]
            clock::is_reading(now) && r.instant() - now.instant() == 10 * 60 * 1_000_000_000int,
{
    let now = choose|now: Timestamp|
        clock::is_reading(now) && r == #[trigger] clock::later(now, STATE_LIFETIME_SECS as nat);
    assert(clock::is_reading(now));
    assert(r.secs == now.secs + 600);
}

/// The application that speaks to osu! is the one that is configured, and there is one
/// exactly when both credentials are there.
pub proof fn law_clients_are_the_configured_application(
    osu: &OsuConfig,
    r: Result<OsuClient, AppError>,
)
    requires
        call_ensures(build_osu_client, (osu,), r),
    ensures
        r is Ok <==> osu.client_id is Some && osu.client_secret is Some,
        r matches Ok(client) ==> osu.client_id == Some(client.client_id) && osu.client_secret
            == Some(client.client_secret),
        r matches Err(e) ==> e is Internal,
{
}

/// A request that fails ends a link or a refresh with the failure as it is, but for a
/// player in a mode, who is left out.
pub proof fn law_link_failures_are_reported_as_they_are(
    osu: OsuConfig,
    base_url: Seq<char>,
    state: LinkState,
    error: AppError,
    r: Option<(LinkState, LinkAsk)>,
)
    requires
        !(state is Finished),
        link_stepped(osu, base_url, state, LinkEvent::Failed(error), r),
    ensures
        !(state is Fetching) ==> (r matches Some((LinkState::Finished, LinkAsk::Fail(e))) && e
            == error),
        state is Fetching ==> !(r matches Some((_, LinkAsk::Fail(_)))),
{
}

/// A profile is stored exactly when it says when the player joined. A last visit that is
/// missing or cannot be read is none.
pub proof fn law_profiles_need_a_join_date(
    discord_id: &str,
    u: &OsuUser,
    discord_name: Option<&str>,
    r: Result<ProfileRow, AppError>,
)
    requires
        call_ensures(profile_row, (discord_id, u, discord_name), r),
    ensures
        r is Ok <==> clock::rfc3339(u.join_date@) is Ok,
        r matches Err(e) ==> e is OsuApi,
        r matches Ok(row) ==> clock::rfc3339(u.join_date@) == Ok::<(i64, u32), Seq<char>>(
            (row.osu_joined_at.secs, row.osu_joined_at.nanos),
        ),
        r matches Ok(row) ==> (row.last_visit_at is Some <==> u.last_visit is Some && clock::rfc3339(
            u.last_visit->0@,
        ) is Ok),
        r matches Ok(row) ==> (row.last_visit_at matches Some(t) ==> clock::rfc3339(
            u.last_visit->0@,
        ) == Ok::<(i64, u32), Seq<char>>((t.secs, t.nanos))),
{
}

} // verus!
