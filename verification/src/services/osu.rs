//! osu! API v2: requests, replies and PKCE.
//!
//!   * **Authorization code flow + PKCE** for the user verification path
//!     (`/verify` → "Link with osu!"). Scope: `identify` (read public
//!     profile + statistics).
//!   * **Client-credentials flow** for the background refresh worker: the
//!     `/users/{id}/{mode}` endpoint is happy to return any user's public
//!     profile authenticated as an app, no per-user token storage needed.
//!
//! Endpoints (from <https://osu.ppy.sh/docs/index.html>):
//!   * authorize:    https://osu.ppy.sh/oauth/authorize
//!   * token:        https://osu.ppy.sh/oauth/token
//!   * /me/{mode?}:  https://osu.ppy.sh/api/v2/me/{mode}
//!   * /users/{id}/{mode?}: https://osu.ppy.sh/api/v2/users/{id}/{mode}

use crate::encoding;
use crate::entropy;
use crate::error::{AppError, Problem};
use crate::models::mode::Mode;
use crate::services::gateway;
use crate::services::gateway::Failure;
use crate::text;
use vstd::prelude::*;
use vstd::string::*;
use vstd::utf8;

verus! {

pub const AUTHORIZE_URL: &'static str = "https://osu.ppy.sh/oauth/authorize";

pub const TOKEN_URL: &'static str = "https://osu.ppy.sh/oauth/token";

pub const API_BASE: &'static str = "https://osu.ppy.sh/api/v2";

/// Scope requested at user-OAuth authorize. `identify` returns basic
/// profile info; `public` lets us read user statistics endpoints.
pub const USER_OAUTH_SCOPES: &'static str = "identify public";

#[derive(Debug, PartialEq)]
pub struct TokenResponse {
    pub access_token: String,
    pub expires_in: i64,
    pub refresh_token: Option<String>,
    pub token_type: Option<String>,
}

/// Decoded subset of the osu! `/me` and `/users/{id}` shapes we actually
/// read. Many fields are optional because the API omits them for fresh /
/// restricted accounts.
#[derive(Debug, PartialEq)]
pub struct OsuUser {
    pub id: i64,
    pub username: String,
    pub country_code: Option<String>,
    pub country: Option<Country>,
    pub profile_colour: Option<String>,
    pub avatar_url: Option<String>,
    pub join_date: String,
    pub last_visit: Option<String>,
    pub is_supporter: bool,
    pub support_level: i64,
    pub is_restricted: bool,
    pub is_active: bool,
    pub playstyle: Option<Vec<String>>,
    pub badges: Option<Vec<Badge>>,
    pub groups: Option<Vec<Group>>,
    pub follower_count: Option<i64>,
    pub mapping_follower_count: Option<i64>,
    pub kudosu: Option<Kudosu>,
    pub ranked_beatmapset_count: Option<i64>,
    pub loved_beatmapset_count: Option<i64>,
    pub pending_beatmapset_count: Option<i64>,
    pub graveyard_beatmapset_count: Option<i64>,
    pub favourite_beatmapset_count: Option<i64>,
    pub mapping_follower_count_total: Option<i64>,
    /// `replays_watched_counts` is per-mode in the API; the totals come
    /// from the profile-level `replays_watched_by_others` field.
    pub replays_watched_by_others: Option<i64>,
    /// The user's stats for the *requested* mode (or their default mode if
    /// none was specified). The refresh worker calls `/users/{id}/{mode}` for
    /// each of the four modes and stores them individually.
    pub statistics: Option<UserStatistics>,
    /// Total plays across all of this user's *own* beatmaps; 0 if absent.
    pub beatmap_playcounts_count: Option<i64>,
}

#[derive(Debug, PartialEq)]
pub struct Country {
    pub code: Option<String>,
    pub name: Option<String>,
}

#[derive(Debug, PartialEq)]
pub struct Badge {
    pub awarded_at: Option<String>,
    pub description: Option<String>,
    pub image_url: Option<String>,
}

#[derive(Debug, PartialEq)]
pub struct Group {
    pub id: Option<i64>,
    /// Short identifier like "BN", "GMT", "NAT", "DEV", "ALM".
    pub identifier: Option<String>,
    pub name: Option<String>,
}

#[derive(Debug, PartialEq)]
pub struct Kudosu {
    pub total: i64,
    pub available: i64,
}

#[derive(Debug, PartialEq)]
pub struct UserStatistics {
    /// Whole pp: the API's number, rounded.
    pub pp: Option<i32>,
    pub global_rank: Option<i64>,
    pub country_rank: Option<i64>,
    pub ranked_score: Option<i64>,
    pub total_score: Option<i64>,
    pub play_count: Option<i64>,
    /// In seconds. Converted to hours at sync time.
    pub play_time: Option<i64>,
    /// Whole percent: the API's number, rounded down.
    pub hit_accuracy: Option<i32>,
    pub maximum_combo: Option<i64>,
    pub level: Option<Level>,
    pub grade_counts: Option<GradeCounts>,
}

#[derive(Debug, PartialEq)]
pub struct Level {
    pub current: Option<i64>,
    pub progress: Option<i64>,
}

#[derive(Debug, PartialEq)]
pub struct GradeCounts {
    pub ss: i64,
    pub ssh: i64,
    pub s: i64,
    pub sh: i64,
    pub a: i64,
}

impl Default for GradeCounts {
    fn default() -> (r: Self)
        ensures
            r == (GradeCounts { ss: 0, ssh: 0, s: 0, sh: 0, a: 0 }),
    {
        GradeCounts { ss: 0, ssh: 0, s: 0, sh: 0, a: 0 }
    }
}

impl Default for Level {
    fn default() -> (r: Self)
        ensures
            r == (Level { current: None, progress: None }),
    {
        Level { current: None, progress: None }
    }
}

impl Default for UserStatistics {
    fn default() -> (r: Self)
        ensures
            r == (UserStatistics {
                pp: None,
                global_rank: None,
                country_rank: None,
                ranked_score: None,
                total_score: None,
                play_count: None,
                play_time: None,
                hit_accuracy: None,
                maximum_combo: None,
                level: None,
                grade_counts: None,
            }),
    {
        UserStatistics {
            pp: None,
            global_rank: None,
            country_rank: None,
            ranked_score: None,
            total_score: None,
            play_count: None,
            play_time: None,
            hit_accuracy: None,
            maximum_combo: None,
            level: None,
            grade_counts: None,
        }
    }
}

/// The application that the plugin is to osu!.
#[derive(Debug, PartialEq)]
pub struct OsuClient {
    pub client_id: String,
    pub client_secret: String,
}

/// The query of the authorize URL.
pub open spec fn authorize_fields(
    client_id: Seq<char>,
    redirect_uri: Seq<char>,
    state: Seq<char>,
    challenge: Seq<char>,
) -> Seq<Seq<char>> {
    seq![
        encoding::form_field("client_id"@, client_id),
        encoding::form_field("redirect_uri"@, redirect_uri),
        encoding::form_field("response_type"@, "code"@),
        encoding::form_field("scope"@, "identify public"@),
        encoding::form_field("state"@, state),
        encoding::form_field("code_challenge"@, challenge),
        encoding::form_field("code_challenge_method"@, "S256"@),
    ]
}

/// The URL at which a user authorizes the plugin.
pub open spec fn authorize_location(
    client_id: Seq<char>,
    redirect_uri: Seq<char>,
    state: Seq<char>,
    challenge: Seq<char>,
) -> Seq<char> {
    "https://osu.ppy.sh/oauth/authorize"@ + "?"@ + text::joined(
        authorize_fields(client_id, redirect_uri, state, challenge),
        "&"@,
    )
}

/// The PKCE challenge of a verifier: its SHA-256 in base 64.
pub open spec fn challenge(verifier: Seq<char>) -> Seq<char> {
    encoding::base64url(encoding::sha256(utf8::encode_utf8(verifier)))
}

/// Build the user-OAuth authorize URL with PKCE.
pub fn build_authorize_url(
    client_id: &str,
    redirect_uri: &str,
    state: &str,
    verifier: &str,
) -> (r: String)
    ensures
        r@ == authorize_location(client_id@, redirect_uri@, state@, challenge(verifier@)),
{
    let challenge = pkce_s256(verifier);
    authorize_url_with(client_id, redirect_uri, state, challenge.as_str())
}

/// The authorize URL, given the PKCE challenge.
pub fn authorize_url_with(
    client_id: &str,
    redirect_uri: &str,
    state: &str,
    challenge: &str,
) -> (r: String)
    ensures
        r@ == authorize_location(client_id@, redirect_uri@, state@, challenge@),
{
    let mut pairs: Vec<(&str, &str)> = Vec::new();
    pairs.push(("client_id", client_id));
    pairs.push(("redirect_uri", redirect_uri));
    pairs.push(("response_type", "code"));
    pairs.push(("scope", USER_OAUTH_SCOPES));
    pairs.push(("state", state));
    pairs.push(("code_challenge", challenge));
    pairs.push(("code_challenge_method", "S256"));
    proof {
        assert(encoding::form_fields(pairs@) =~= authorize_fields(
            client_id@,
            redirect_uri@,
            state@,
            challenge@,
        ));
    }
    let qs = encoding::encode_form(pairs.as_slice());
    text::join3(AUTHORIZE_URL, "?", qs.as_str())
}

/// A field of a token request.
#[derive(Debug, PartialEq)]
pub struct FormField {
    pub name: &'static str,
    pub value: String,
}

/// What the fields of a token request say.
pub open spec fn said(fields: Seq<FormField>) -> Seq<(Seq<char>, Seq<char>)> {
    fields.map_values(|f: FormField| (f.name@, f.value@))
}

fn field(name: &'static str, value: &str) -> (r: FormField)
    ensures
        r.name@ == name@,
        r.value@ == value@,
{
    FormField { name, value: value.to_owned() }
}

impl OsuClient {
    pub fn new(client_id: String, client_secret: String) -> (r: Self)
        ensures
            r.client_id == client_id,
            r.client_secret == client_secret,
    {
        OsuClient { client_id, client_secret }
    }

    pub fn client_id(&self) -> (r: &str)
        ensures
            r@ == self.client_id@,
    {
        self.client_id.as_str()
    }

    /// Build the user-OAuth authorize URL with PKCE.
    pub fn authorize_url(&self, redirect_uri: &str, state: &str, code_verifier: &str) -> (r: String)
        ensures
            r@ == authorize_location(
                self.client_id@,
                redirect_uri@,
                state@,
                challenge(code_verifier@),
            ),
    {
        build_authorize_url(self.client_id.as_str(), redirect_uri, state, code_verifier)
    }

    /// The form that exchanges an authorization code + PKCE verifier for an
    /// access token.
    pub fn exchange_form(&self, code: &str, redirect_uri: &str, code_verifier: &str) -> (r: Vec<
        FormField,
    >)
        ensures
            said(r@) == seq![
                ("grant_type"@, "authorization_code"@),
                ("client_id"@, self.client_id@),
                ("client_secret"@, self.client_secret@),
                ("redirect_uri"@, redirect_uri@),
                ("code"@, code@),
                ("code_verifier"@, code_verifier@),
            ],
    {
        let mut form: Vec<FormField> = Vec::new();
        form.push(field("grant_type", "authorization_code"));
        form.push(field("client_id", self.client_id.as_str()));
        form.push(field("client_secret", self.client_secret.as_str()));
        form.push(field("redirect_uri", redirect_uri));
        form.push(field("code", code));
        form.push(field("code_verifier", code_verifier));
        form
    }

    /// The form that obtains a client-credentials token for app-authenticated
    /// reads of arbitrary users' public profiles. Scope `public` is the only one
    /// allowed on this grant type.
    pub fn client_credentials_form(&self) -> (r: Vec<FormField>)
        ensures
            said(r@) == seq![
                ("grant_type"@, "client_credentials"@),
                ("client_id"@, self.client_id@),
                ("client_secret"@, self.client_secret@),
                ("scope"@, "public"@),
            ],
    {
        let mut form: Vec<FormField> = Vec::new();
        form.push(field("grant_type", "client_credentials"));
        form.push(field("client_id", self.client_id.as_str()));
        form.push(field("client_secret", self.client_secret.as_str()));
        form.push(field("scope", "public"));
        form
    }
}

/// The URL of the authenticated user, in a mode or in the one that they prefer.
pub fn me_url(mode: Option<Mode>) -> (r: String)
    ensures
        r@ == match mode {
            Some(m) => "https://osu.ppy.sh/api/v2"@ + "/me/"@ + m.key(),
            None => "https://osu.ppy.sh/api/v2"@ + "/me"@,
        },
{
    match mode {
        Some(m) => text::join3(API_BASE, "/me/", m.as_str()),
        None => text::join2(API_BASE, "/me"),
    }
}

/// The URL of a user in a mode.
pub fn user_url(user_id: i64, mode: Mode) -> (r: String)
    ensures
        r@ == "https://osu.ppy.sh/api/v2"@ + "/users/"@ + text::int_dec(user_id as int) + "/"@
            + mode.key(),
{
    let id = text::signed_decimal(user_id);
    let mut url = text::join3(API_BASE, "/users/", id.as_str());
    url.append("/");
    url.append(mode.as_str());
    url
}

/// The `Authorization` header of a request with an access token.
pub fn authorization(access_token: &str) -> (r: String)
    ensures
        r@ == "Bearer "@ + access_token@,
{
    text::join2("Bearer ", access_token)
}

/// A request to osu!.
#[derive(Debug, Clone, Copy, PartialEq, Eq, Structural)]
pub enum OsuCall {
    Exchange,
    ClientCredentials,
    Me,
    User(i64),
}

/// What a call is named in a report.
pub open spec fn call_name(call: OsuCall) -> Seq<char> {
    match call {
        OsuCall::Exchange => "token exchange"@,
        OsuCall::ClientCredentials => "client_credentials"@,
        OsuCall::Me => "/me"@,
        OsuCall::User(id) => "/users/"@ + text::int_dec(id as int),
    }
}

/// What the reply to a call is named in a report.
pub open spec fn reply_name(call: OsuCall) -> Seq<char> {
    match call {
        OsuCall::Exchange => "token"@,
        OsuCall::ClientCredentials => "token"@,
        OsuCall::Me => "/me"@,
        OsuCall::User(_) => "/users"@,
    }
}

/// What a refused call is reported as, given how its status is shown.
pub open spec fn refused_words(
    call: OsuCall,
    status: u16,
    status_line: Seq<char>,
    body: Seq<char>,
) -> Seq<char> {
    match call {
        OsuCall::User(id) if status == 404 => "user "@ + text::int_dec(id as int) + " not found"@,
        _ => call_name(call) + " returned "@ + status_line + ": "@ + body,
    }
}

/// What a failed call is reported as.
pub open spec fn call_failure(call: OsuCall, failure: Failure) -> Problem {
    Problem::OsuApi(
        match failure {
            Failure::Unreachable { cause } => call_name(call) + " failed: "@ + cause@,
            Failure::Refused { status, body } => refused_words(
                call,
                status,
                gateway::status_line(status),
                body@,
            ),
            Failure::Unreadable { cause } => reply_name(call) + " response not JSON: "@ + cause@,
        },
    )
}

fn name_of(call: OsuCall) -> (r: String)
    ensures
        r@ == call_name(call),
{
    match call {
        OsuCall::Exchange => "token exchange".to_owned(),
        OsuCall::ClientCredentials => "client_credentials".to_owned(),
        OsuCall::Me => "/me".to_owned(),
        OsuCall::User(id) => text::join2("/users/", text::signed_decimal(id).as_str()),
    }
}

/// Report a failed call.
pub fn api_error(call: OsuCall, failure: &Failure) -> (r: AppError)
    requires
        failure.valid(),
    ensures
        r@ == call_failure(call, *failure),
{
    let name = name_of(call);
    match failure {
        Failure::Unreachable { cause } => AppError::OsuApi(
            text::join3(name.as_str(), " failed: ", cause.as_str()),
        ),
        Failure::Refused { status, body } => {
            let line = gateway::show_status(*status);
            refused(call, *status, line.as_str(), body.as_str())
        },
        Failure::Unreadable { cause } => {
            let reply: &str = match call {
                OsuCall::Exchange => "token",
                OsuCall::ClientCredentials => "token",
                OsuCall::Me => "/me",
                OsuCall::User(_) => "/users",
            };
            AppError::OsuApi(text::join3(reply, " response not JSON: ", cause.as_str()))
        },
    }
}

/// Report a refused call, given how its status is shown.
pub fn refused(call: OsuCall, status: u16, status_line: &str, body: &str) -> (r: AppError)
    ensures
        r@ == Problem::OsuApi(refused_words(call, status, status_line@, body@)),
{
    if let OsuCall::User(id) = call {
        if status == 404 {
            let id = text::signed_decimal(id);
            return AppError::OsuApi(text::join3("user ", id.as_str(), " not found"));
        }
    }
    let name = name_of(call);
    let mut msg = text::join3(name.as_str(), " returned ", status_line);
    msg.append(": ");
    msg.append(body);
    AppError::OsuApi(msg)
}

// -------------------------------------------------------------------------
// PKCE helpers
// -------------------------------------------------------------------------

/// What RFC 7636 asks of a code verifier: 43 to 128 characters of the unreserved
/// set.
pub open spec fn is_verifier(s: Seq<char>) -> bool {
    &&& 43 <= s.len() <= 128
    &&& forall|i: int| 0 <= i < s.len() ==> encoding::is_base64url(#[trigger] s[i])
}

/// Generate a fresh PKCE code_verifier. 43–128 chars from the unreserved
/// set; we use 64 random bytes encoded as URL-safe-no-pad base64.
pub fn new_code_verifier() -> (r: String)
    ensures
        r@.len() == 86,
        is_verifier(r@),
        exists|bytes: Seq<u8>| bytes.len() == 64 && r@ == #[trigger] encoding::base64url(bytes),
{
    let bytes = entropy::random_bytes();
    let r = verifier_from(&bytes);
    proof {
        encoding::law_base64url_shape(bytes@);
    }
    r
}

/// The code verifier that 64 bytes make.
pub fn verifier_from(bytes: &[u8; 64]) -> (r: String)
    ensures
        r@ == encoding::base64url(bytes@),
{
    encoding::base64_encode(vstd::array::array_as_slice(bytes))
}

/// SHA-256(verifier) → URL-safe-no-pad base64. Per RFC 7636 §4.2.
pub fn pkce_s256(verifier: &str) -> (r: String)
    ensures
        r@ == challenge(verifier@),
        r@.len() == 43,
        is_verifier(r@),
{
    let digest = encoding::sha256_digest(verifier.as_bytes());
    proof {
        encoding::law_base64url_shape(digest@);
    }
    encoding::base64_encode(digest.as_slice())
}

/// A missing user is reported by their id, whatever the body of the reply.
pub proof fn law_missing_user_is_named(id: i64, line: Seq<char>, body: Seq<char>)
    ensures
        refused_words(OsuCall::User(id), 404, line, body) == "user "@ + text::int_dec(id as int)
            + " not found"@,
{
}

/// True when a form holds a value under a name, and no other under it.
pub open spec fn holds(form: Seq<FormField>, name: Seq<char>, value: Seq<char>) -> bool {
    &&& exists|i: int| 0 <= i < form.len() && (#[trigger] form[i]).name@ == name
    &&& forall|i: int|
        0 <= i < form.len() && (#[trigger] form[i]).name@ == name ==> form[i].value@ == value
}

/// A code is exchanged with the verifier and the redirect URI that it was asked for
/// with, as the application that is configured.
pub proof fn law_codes_are_exchanged_with_their_verifier(
    client: &OsuClient,
    code: &str,
    redirect_uri: &str,
    code_verifier: &str,
    form: Vec<FormField>,
)
    requires
        call_ensures(OsuClient::exchange_form, (client, code, redirect_uri, code_verifier), form),
    ensures
        holds(form@, "grant_type"@, "authorization_code"@),
        holds(form@, "client_id"@, client.client_id@),
        holds(form@, "client_secret"@, client.client_secret@),
        holds(form@, "redirect_uri"@, redirect_uri@),
        holds(form@, "code"@, code@),
        holds(form@, "code_verifier"@, code_verifier@),
{
    reveal_strlit("grant_type");
    reveal_strlit("client_id");
    reveal_strlit("client_secret");
    reveal_strlit("redirect_uri");
    reveal_strlit("code");
    reveal_strlit("code_verifier");
    assert("grant_type"@.len() == 10 && "client_id"@.len() == 9 && "client_secret"@.len() == 13);
    assert("redirect_uri"@.len() == 12 && "code"@.len() == 4 && "code_verifier"@.len() == 13);
    assert("client_secret"@[1] == 'l' && "code_verifier"@[1] == 'o');
    let all = said(form@);
    assert(all.len() == form@.len());
    assert forall|i: int| 0 <= i < form@.len() implies all[i] == ((#[trigger] form@[i]).name@,
        form@[i].value@) by {}
    assert(form@[0].name@ == "grant_type"@ && form@[1].name@ == "client_id"@);
    assert(form@[2].name@ == "client_secret"@ && form@[3].name@ == "redirect_uri"@);
    assert(form@[4].name@ == "code"@ && form@[5].name@ == "code_verifier"@);
}

/// The app token is asked for as the application that is configured, for public data.
pub proof fn law_app_tokens_are_asked_for_by_the_application(
    client: &OsuClient,
    form: Vec<FormField>,
)
    requires
        call_ensures(OsuClient::client_credentials_form, (client,), form),
    ensures
        holds(form@, "grant_type"@, "client_credentials"@),
        holds(form@, "client_id"@, client.client_id@),
        holds(form@, "client_secret"@, client.client_secret@),
        holds(form@, "scope"@, "public"@),
{
    reveal_strlit("grant_type");
    reveal_strlit("client_id");
    reveal_strlit("client_secret");
    reveal_strlit("scope");
    assert("grant_type"@.len() == 10 && "client_id"@.len() == 9 && "client_secret"@.len() == 13);
    assert("scope"@.len() == 5);
    let all = said(form@);
    assert(all.len() == form@.len());
    assert forall|i: int| 0 <= i < form@.len() implies all[i] == ((#[trigger] form@[i]).name@,
        form@[i].value@) by {}
    assert(form@[0].name@ == "grant_type"@ && form@[1].name@ == "client_id"@);
    assert(form@[2].name@ == "client_secret"@ && form@[3].name@ == "scope"@);
}

/// A user is fetched by their id in the mode that is asked for: the URL ends with the
/// key of the mode behind the id, and the mode of `/me` stands there alike.
pub proof fn law_users_are_fetched_in_their_mode(
    user_id: i64,
    mode: Mode,
    user: String,
    me: String,
)
    requires
        call_ensures(user_url, (user_id, mode), user),
        call_ensures(me_url, (Some(mode),), me),
    ensures
        user@ == "https://osu.ppy.sh/api/v2/users/"@ + text::int_dec(user_id as int) + "/"@
            + mode.key(),
        me@ == "https://osu.ppy.sh/api/v2/me/"@ + mode.key(),
{
    reveal_strlit("https://osu.ppy.sh/api/v2/users/");
    reveal_strlit("https://osu.ppy.sh/api/v2/me/");
    reveal_strlit("https://osu.ppy.sh/api/v2");
    reveal_strlit("/users/");
    reveal_strlit("/me/");
    assert("https://osu.ppy.sh/api/v2"@ + "/users/"@ =~= "https://osu.ppy.sh/api/v2/users/"@);
    assert("https://osu.ppy.sh/api/v2"@ + "/me/"@ =~= "https://osu.ppy.sh/api/v2/me/"@);
}

/// What osu! said of a call that it refused, and why a call failed, is in the report.
pub proof fn law_reports_hold_the_cause(call: OsuCall, failure: Failure)
    ensures
        call_failure(call, failure) matches Problem::OsuApi(words) && match failure {
            Failure::Unreachable { cause } => text::has_part(words, cause@) && text::has_part(
                words,
                call_name(call),
            ),
            Failure::Refused { status, body } => (status == 404 && call is User) || (
            text::has_part(words, body@) && text::has_part(words, gateway::status_line(status))),
            Failure::Unreadable { cause } => text::has_part(words, cause@),
        },
{
    let words = call_failure(call, failure)->OsuApi_0;
    let none = Seq::<char>::empty();
    match failure {
        Failure::Unreachable { cause } => {
            text::law_a_part_cuts_the_text(words, cause@);
            text::law_a_part_cuts_the_text(words, call_name(call));
            assert(call_name(call) + " failed: "@ + cause@ + none =~= words);
            assert(none + call_name(call) + (" failed: "@ + cause@) =~= words);
        },
        Failure::Refused { status, body } => {
            let line = gateway::status_line(status);
            if !(status == 404 && call is User) {
                text::law_a_part_cuts_the_text(words, body@);
                text::law_a_part_cuts_the_text(words, line);
                assert(call_name(call) + " returned "@ + line + ": "@ + body@ + none =~= words);
                assert(call_name(call) + " returned "@ + line + (": "@ + body@) =~= words);
            }
        },
        Failure::Unreadable { cause } => {
            text::law_a_part_cuts_the_text(words, cause@);
            assert(reply_name(call) + " response not JSON: "@ + cause@ + none =~= words);
        },
    }
}

} // verus!
