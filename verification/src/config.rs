//! Configuration from environment variables.

use crate::text;
use vstd::prelude::*;
use vstd::string::*;

verus! {

/// The environment: names and values of its variables.
#[derive(Debug)]
pub struct Environment {
    pub vars: Vec<(String, String)>,
}

/// The value of the first variable of that name.
pub open spec fn value_of(vars: Seq<(String, String)>, name: Seq<char>) -> Option<Seq<char>>
    decreases vars.len(),
{
    if vars.len() == 0 {
        None
    } else if vars[0].0@ == name {
        Some(vars[0].1@)
    } else {
        value_of(vars.skip(1), name)
    }
}

impl Environment {
    /// The value of a variable, if it is set.
    pub open spec fn value(self, name: Seq<char>) -> Option<Seq<char>> {
        value_of(self.vars@, name)
    }

    /// The value of a variable, if it is set.
    pub fn get(&self, name: &str) -> (r: Option<&str>)
        ensures
            text::opt_str_view(r) == self.value(name@),
    {
        let mut i: usize = 0;
        proof {
            assert(self.vars@.skip(0) =~= self.vars@);
        }
        while i < self.vars.len()
            invariant
                i <= self.vars@.len(),
                self.value(name@) == value_of(self.vars@.skip(i as int), name@),
            decreases self.vars@.len() - i,
        {
            proof {
                assert(self.vars@.skip(i as int).skip(1) =~= self.vars@.skip(i + 1));
            }
            if text::same(self.vars[i].0.as_str(), name) {
                return Some(self.vars[i].1.as_str());
            }
            i += 1;
        }
        None
    }
}

/// The number that a variable holds, or a default where it holds none of the
/// range.
pub open spec fn number_or(value: Option<Seq<char>>, max: nat, default: nat) -> nat {
    match value {
        Some(s) => match text::bounded_value(s, max) {
            Some(n) => n,
            None => default,
        },
        None => default,
    }
}

fn u32_or(env: &Environment, name: &str, default: u32) -> (r: u32)
    ensures
        r == number_or(env.value(name@), u32::MAX as nat, default as nat),
{
    match env.get(name) {
        Some(s) => match text::parse_u32(s) {
            Some(n) => n,
            None => default,
        },
        None => default,
    }
}

fn u64_or(env: &Environment, name: &str, default: u64) -> (r: u64)
    ensures
        r == number_or(env.value(name@), u64::MAX as nat, default as nat),
{
    match env.get(name) {
        Some(s) => match text::parse_u64(s) {
            Some(n) => n,
            None => default,
        },
        None => default,
    }
}

#[derive(Debug)]
pub struct DbPoolConfig {
    pub max_connections: u32,
    pub min_connections: u32,
    pub acquire_timeout_secs: u64,
    pub idle_timeout_secs: u64,
}

impl DbPoolConfig {
    /// True when the pool is sized as the environment says.
    pub open spec fn follows(self, env: Environment) -> bool {
        &&& self.max_connections == number_or(
            env.value("DB_MAX_CONNECTIONS"@),
            u32::MAX as nat,
            16,
        )
        &&& self.min_connections == number_or(env.value("DB_MIN_CONNECTIONS"@), u32::MAX as nat, 2)
        &&& self.acquire_timeout_secs == number_or(
            env.value("DB_ACQUIRE_TIMEOUT_SECS"@),
            u64::MAX as nat,
            5,
        )
        &&& self.idle_timeout_secs == number_or(
            env.value("DB_IDLE_TIMEOUT_SECS"@),
            u64::MAX as nat,
            600,
        )
    }

    fn from_env(env: &Environment) -> (r: Self)
        ensures
            r.follows(*env),
    {
        DbPoolConfig {
            max_connections: u32_or(env, "DB_MAX_CONNECTIONS", 16),
            min_connections: u32_or(env, "DB_MIN_CONNECTIONS", 2),
            acquire_timeout_secs: u64_or(env, "DB_ACQUIRE_TIMEOUT_SECS", 5),
            idle_timeout_secs: u64_or(env, "DB_IDLE_TIMEOUT_SECS", 600),
        }
    }
}

/// A value without the space around it, if anything is left.
pub open spec fn filled(value: Option<Seq<char>>) -> Option<Seq<char>> {
    match value {
        Some(s) => if text::trimmed(s).len() == 0 {
            None
        } else {
            Some(text::trimmed(s))
        },
        None => None,
    }
}

#[derive(Debug)]
pub struct OsuConfig {
    /// osu! OAuth application client_id (numeric, public). `None` until the
    /// operator registers an app at <https://osu.ppy.sh/home/account/edit>.
    pub client_id: Option<String>,
    /// osu! OAuth application client_secret.
    pub client_secret: Option<String>,
}

impl OsuConfig {
    /// True when the credentials are those of the environment.
    pub open spec fn follows(self, env: Environment) -> bool {
        &&& text::opt_view(self.client_id) == filled(env.value("OSU_CLIENT_ID"@))
        &&& text::opt_view(self.client_secret) == filled(env.value("OSU_CLIENT_SECRET"@))
    }

    fn from_env(env: &Environment) -> (r: Self)
        ensures
            r.follows(*env),
    {
        OsuConfig {
            client_id: filled_var(env, "OSU_CLIENT_ID"),
            client_secret: filled_var(env, "OSU_CLIENT_SECRET"),
        }
    }
}

fn filled_var(env: &Environment, name: &str) -> (r: Option<String>)
    ensures
        text::opt_view(r) == filled(env.value(name@)),
{
    match env.get(name) {
        Some(s) => {
            let trimmed = text::trim(s);
            if trimmed.unicode_len() == 0 {
                None
            } else {
                Some(trimmed.to_owned())
            }
        },
        None => None,
    }
}

pub struct AppConfig {
    pub database_url: String,
    pub session_secret: String,
    pub base_url: String,
    pub listen_addr: String,
    /// Base URL of the Auth Gateway (no trailing slash, no `/auth` suffix).
    /// Defaults to deriving the origin from `BASE_URL` when unset.
    pub auth_gateway_url: String,
    /// Shared secret for plugin → gateway /auth/internal/* calls
    /// (sent in the `X-Internal-Key` header).
    pub internal_api_key: String,
    /// Origin allowed to embed this plugin in an iframe. Used to build the
    /// `Content-Security-Policy: frame-ancestors …` header on the
    /// role-config page. Unset → falls back to the production dashboard.
    pub rl_dashboard_origin: Option<String>,
    /// Base URL of the RoleLogic API. No trailing slash. Override per
    /// environment via `ROLELOGIC_API_URL`.
    pub rolelogic_api_url: String,
    /// How many job-polling worker tasks to spawn.
    pub worker_concurrency: u32,
    /// How many concurrent osu! profile refreshes can be in flight. Keep
    /// low: osu! advises ~60 req/min total.
    pub refresh_concurrency: u32,
    /// DB connection pool sizing + timeouts.
    pub db_pool: DbPoolConfig,
    /// osu! OAuth credentials. Optional at boot; the verify page surfaces
    /// a clear error if a member tries to link before they're set.
    pub osu: OsuConfig,
}

/// Where the path of a URL starts: at the first slash behind `://`. Nothing where
/// there is no such slash.
pub open spec fn path_start(url: Seq<char>) -> Option<int> {
    match text::index_from(url, "://"@, 0) {
        Some(scheme_end) => text::index_from(url, "/"@, scheme_end + 3),
        None => None,
    }
}

/// Finds where the path of a URL starts.
pub(crate) fn find_path(url: &Vec<char>) -> (r: Option<usize>)
    ensures
        path_start(url@) == match r {
            Some(i) => Some(i as int),
            None => None,
        },
        r is Some ==> r->0 < url@.len(),
{
    proof {
        reveal_strlit("://");
        reveal_strlit("/");
        text::lemma_index_from(url@, "://"@, 0);
    }
    let mark = text::chars_of("://");
    let slash = text::chars_of("/");
    match text::find_from(url, &mark, 0) {
        Some(scheme_end) => {
            proof {
                assert(scheme_end + 3 <= url.len());
                text::lemma_index_from(url@, "/"@, scheme_end + 3);
            }
            text::find_from(url, &slash, scheme_end + 3)
        },
        None => None,
    }
}

/// The origin of a URL: what stands before its path.
pub open spec fn origin(url: Seq<char>) -> Seq<char> {
    match path_start(url) {
        Some(i) => url.take(i),
        None => url,
    }
}

/// Extract the origin (scheme://host[:port]) from BASE_URL, dropping any path
/// prefix. Used for the CORS allowlist and the gateway URL derivation.
pub fn derive_origin(base_url: &str) -> (r: String)
    ensures
        r@ == origin(base_url@),
{
    let chars = text::chars_of(base_url);
    match find_path(&chars) {
        Some(i) => {
            proof {
                assert(base_url@.subrange(0, i as int) =~= base_url@.take(i as int));
            }
            base_url.substring_char(0, i).to_owned()
        },
        None => base_url.to_owned(),
    }
}

/// A URL without the space around it and without slashes at its end, if anything
/// is left.
pub open spec fn bare_url(value: Option<Seq<char>>) -> Option<Seq<char>> {
    match value {
        Some(s) => {
            let bare = text::trimmed_end_of(text::trimmed(s), '/');
            if bare.len() == 0 {
                None
            } else {
                Some(bare)
            }
        },
        None => None,
    }
}

/// A value, or a default.
pub open spec fn or(value: Option<Seq<char>>, default: Seq<char>) -> Seq<char> {
    match value {
        Some(s) => s,
        None => default,
    }
}

fn bare_var(env: &Environment, name: &str, default: &str) -> (r: String)
    ensures
        r@ == or(bare_url(env.value(name@)), default@),
{
    match env.get(name) {
        Some(s) => {
            let bare = text::trim_end_of(text::trim(s), '/');
            if bare.unicode_len() == 0 {
                default.to_owned()
            } else {
                bare.to_owned()
            }
        },
        None => default.to_owned(),
    }
}

/// The variables without which the plugin does not start, in the order in which
/// they are missed.
pub open spec fn missing(env: Environment) -> Option<Seq<char>> {
    if env.value("BASE_URL"@) is None {
        Some("BASE_URL must be set"@)
    } else if env.value("DATABASE_URL"@) is None {
        Some("DATABASE_URL must be set"@)
    } else if env.value("SESSION_SECRET"@) is None {
        Some("SESSION_SECRET must be set"@)
    } else if env.value("INTERNAL_API_KEY"@) is None {
        Some("INTERNAL_API_KEY must be set (must match the Auth Gateway's value)"@)
    } else {
        None
    }
}

impl AppConfig {
    /// True when the configuration is that of the environment.
    pub open spec fn follows(self, env: Environment) -> bool {
        &&& env.value("DATABASE_URL"@) == Some(self.database_url@)
        &&& env.value("SESSION_SECRET"@) == Some(self.session_secret@)
        &&& env.value("BASE_URL"@) == Some(self.base_url@)
        &&& self.listen_addr@ == or(env.value("LISTEN_ADDR"@), "0.0.0.0:8095"@)
        &&& self.auth_gateway_url@ == match env.value("AUTH_GATEWAY_URL"@) {
            Some(url) => text::trimmed_end_of(url, '/'),
            None => origin(self.base_url@),
        }
        &&& env.value("INTERNAL_API_KEY"@) == Some(self.internal_api_key@)
        &&& text::opt_view(self.rl_dashboard_origin) == Some(
            or(bare_url(env.value("RL_DASHBOARD_ORIGIN"@)), "https://rolelogic.faizo.net"@),
        )
        &&& self.rolelogic_api_url@ == or(
            bare_url(env.value("ROLELOGIC_API_URL"@)),
            "https://api-rolelogic.faizo.net"@,
        )
        &&& self.worker_concurrency == number_or(
            env.value("WORKER_CONCURRENCY"@),
            u32::MAX as nat,
            4,
        )
        &&& self.refresh_concurrency == number_or(
            env.value("REFRESH_CONCURRENCY"@),
            u32::MAX as nat,
            2,
        )
        &&& self.db_pool.follows(env)
        &&& self.osu.follows(env)
    }

    /// Read the configuration. Where a required variable is missing, says which.
    pub fn from_env(env: &Environment) -> (r: Result<Self, &'static str>)
        ensures
            match r {
                Ok(config) => missing(*env) is None && config.follows(*env),
                Err(msg) => missing(*env) == Some(msg@),
            },
    {
        let base_url = match env.get("BASE_URL") {
            Some(s) => s.to_owned(),
            None => return Err("BASE_URL must be set"),
        };
        let auth_gateway_url = match env.get("AUTH_GATEWAY_URL") {
            Some(s) => text::trim_end_of(s, '/').to_owned(),
            None => derive_origin(base_url.as_str()),
        };
        let database_url = match env.get("DATABASE_URL") {
            Some(s) => s.to_owned(),
            None => return Err("DATABASE_URL must be set"),
        };
        let session_secret = match env.get("SESSION_SECRET") {
            Some(s) => s.to_owned(),
            None => return Err("SESSION_SECRET must be set"),
        };
        let listen_addr = match env.get("LISTEN_ADDR") {
            Some(s) => s.to_owned(),
            None => "0.0.0.0:8095".to_owned(),
        };
        let internal_api_key = match env.get("INTERNAL_API_KEY") {
            Some(s) => s.to_owned(),
            None => return Err(
                "INTERNAL_API_KEY must be set (must match the Auth Gateway's value)",
            ),
        };
        Ok(
            AppConfig {
                database_url,
                session_secret,
                base_url,
                listen_addr,
                auth_gateway_url,
                internal_api_key,
                rl_dashboard_origin: Some(
                    bare_var(env, "RL_DASHBOARD_ORIGIN", "https://rolelogic.faizo.net"),
                ),
                rolelogic_api_url: bare_var(
                    env,
                    "ROLELOGIC_API_URL",
                    "https://api-rolelogic.faizo.net",
                ),
                worker_concurrency: u32_or(env, "WORKER_CONCURRENCY", 4),
                refresh_concurrency: u32_or(env, "REFRESH_CONCURRENCY", 2),
                db_pool: DbPoolConfig::from_env(env),
                osu: OsuConfig::from_env(env),
            },
        )
    }

    /// The origins that may issue cookie-authenticated state-changing requests:
    /// the plugin's own and the dashboard's. Source of truth for both the CORS
    /// allowlist and the origin check of the handlers.
    pub fn allowed_origins(&self) -> (r: Vec<String>)
        ensures
            text::views(r@) == match self.rl_dashboard_origin {
                Some(dashboard) => seq![origin(self.base_url@), dashboard@],
                None => seq![origin(self.base_url@)],
            },
    {
        let mut origins: Vec<String> = Vec::new();
        origins.push(derive_origin(self.base_url.as_str()));
        if let Some(dashboard) = &self.rl_dashboard_origin {
            origins.push(dashboard.clone());
        }
        proof {
            assert(text::views(origins@) =~= match self.rl_dashboard_origin {
                Some(dashboard) => seq![origin(self.base_url@), dashboard@],
                None => seq![origin(self.base_url@)],
            });
        }
        origins
    }

    /// The number of job workers to run: at least one.
    pub fn worker_count(&self) -> (r: u32)
        ensures
            r == if self.worker_concurrency < 1 {
                1
            } else {
                self.worker_concurrency
            },
    {
        if self.worker_concurrency < 1 {
            1
        } else {
            self.worker_concurrency
        }
    }
}

/// A URL is its origin and what follows: nothing, or a path that starts with a
/// slash.
pub proof fn law_origin_is_what_precedes_the_path(url: Seq<char>)
    ensures
        origin(url).is_prefix_of(url),
        origin(url) != url ==> url[origin(url).len() as int] == '/',
{
    reveal_strlit("://");
    reveal_strlit("/");
    text::lemma_index_from(url, "://"@, 0);
    if let Some(scheme_end) = text::index_from(url, "://"@, 0) {
        text::lemma_index_from(url, "/"@, scheme_end + 3);
        if let Some(i) = path_start(url) {
            assert(url.subrange(i, i + 1)[0] == "/"@[0]);
        }
    }
}

/// An origin is its own origin.
pub proof fn law_origin_of_an_origin(url: Seq<char>)
    ensures
        origin(origin(url)) == origin(url),
{
    reveal_strlit("://");
    reveal_strlit("/");
    if let Some(i) = path_start(url) {
        let scheme_end = text::index_from(url, "://"@, 0)->0;
        text::lemma_index_from(url, "://"@, 0);
        text::lemma_index_from(url, "/"@, scheme_end + 3);
        let o = url.take(i);
        assert forall|j: int| text::occurs_at(o, "/"@, j) implies text::occurs_at(
            url,
            "/"@,
            j,
        ) by {
            assert(o.subrange(j, j + 1) =~= url.subrange(j, j + 1));
        }
        assert forall|j: int| text::occurs_at(o, "://"@, j) implies text::occurs_at(
            url,
            "://"@,
            j,
        ) by {
            assert(o.subrange(j, j + 3) =~= url.subrange(j, j + 3));
        }
        text::lemma_index_from(o, "://"@, 0);
        if let Some(k) = text::index_from(o, "://"@, 0) {
            assert(k >= scheme_end);
            text::lemma_index_from(o, "/"@, k + 3);
            if path_start(o) is Some {
                let j = path_start(o)->0;
                assert(text::occurs_at(url, "/"@, j));
                assert(j < i);
            }
        }
    }
}

/// A number in decimal that is set is the number that is configured; where nothing is
/// set, the plugin has a default.
pub proof fn law_numbers_are_configured_as_set(env: &Environment, config: AppConfig, n: nat)
    requires
        call_ensures(AppConfig::from_env, (env,), Ok::<AppConfig, &'static str>(config)),
    ensures
        env.value("WORKER_CONCURRENCY"@) == Some(text::dec(n)) && n <= u32::MAX ==> config.worker_concurrency == n,
        env.value("WORKER_CONCURRENCY"@) is None ==> config.worker_concurrency == 4,
        env.value("REFRESH_CONCURRENCY"@) == Some(text::dec(n)) && n <= u32::MAX ==> config.refresh_concurrency == n,
        env.value("REFRESH_CONCURRENCY"@) is None ==> config.refresh_concurrency == 2,
        env.value("DB_MAX_CONNECTIONS"@) == Some(text::dec(n)) && n <= u32::MAX ==> config.db_pool.max_connections == n,
        env.value("DB_MAX_CONNECTIONS"@) is None ==> config.db_pool.max_connections == 16,
        env.value("DB_MIN_CONNECTIONS"@) == Some(text::dec(n)) && n <= u32::MAX ==> config.db_pool.min_connections == n,
        env.value("DB_MIN_CONNECTIONS"@) is None ==> config.db_pool.min_connections == 2,
        env.value("DB_ACQUIRE_TIMEOUT_SECS"@) == Some(text::dec(n)) && n <= u64::MAX ==> config.db_pool.acquire_timeout_secs == n,
        env.value("DB_ACQUIRE_TIMEOUT_SECS"@) is None ==> config.db_pool.acquire_timeout_secs == 5,
        env.value("DB_IDLE_TIMEOUT_SECS"@) == Some(text::dec(n)) && n <= u64::MAX ==> config.db_pool.idle_timeout_secs == n,
        env.value("DB_IDLE_TIMEOUT_SECS"@) is None ==> config.db_pool.idle_timeout_secs == 600,
{
    text::law_decimals_read_back(n);
    assert(text::is_digit(text::dec(n)[0]));
    assert(text::unsigned_value(text::dec(n)) == Some(n));
}

/// What has to be set is configured exactly as it is set. The addresses of other
/// services lose slashes at their end, and have defaults; the gateway is on the site of
/// the plugin where nothing else is set.
pub proof fn law_texts_are_configured_as_set(env: &Environment, config: AppConfig)
    requires
        call_ensures(AppConfig::from_env, (env,), Ok::<AppConfig, &'static str>(config)),
    ensures
        env.value("DATABASE_URL"@) == Some(config.database_url@),
        env.value("SESSION_SECRET"@) == Some(config.session_secret@),
        env.value("BASE_URL"@) == Some(config.base_url@),
        env.value("INTERNAL_API_KEY"@) == Some(config.internal_api_key@),
        env.value("LISTEN_ADDR"@) matches Some(s) ==> config.listen_addr@ == s,
        env.value("AUTH_GATEWAY_URL"@) matches Some(s) ==> config.auth_gateway_url@.is_prefix_of(s)
            && (config.auth_gateway_url@.len() > 0 ==> config.auth_gateway_url@.last() != '/'),
        env.value("AUTH_GATEWAY_URL"@) is None ==> config.auth_gateway_url@.is_prefix_of(
            config.base_url@,
        ),
        config.rl_dashboard_origin is Some,
        env.value("OSU_CLIENT_ID"@) is None ==> config.osu.client_id is None,
        env.value("OSU_CLIENT_SECRET"@) is None ==> config.osu.client_secret is None,
        env.value("OSU_CLIENT_ID"@) matches Some(s) ==> (config.osu.client_id is None
            <==> text::is_blank(s)) && (config.osu.client_id matches Some(id) ==> text::has_part(
            s,
            id@,
        ) && id@ == text::trimmed(s)),
        env.value("OSU_CLIENT_SECRET"@) matches Some(s) ==> (config.osu.client_secret is None
            <==> text::is_blank(s)) && (config.osu.client_secret matches Some(secret)
            ==> secret@ == text::trimmed(s)),
{
    if let Some(s) = env.value("AUTH_GATEWAY_URL"@) {
        let run = text::law_runs_at_the_end_are_taken_off(s, '/');
        assert(config.auth_gateway_url@ =~= s.take(config.auth_gateway_url@.len() as int));
    }
    if let Some(s) = env.value("OSU_CLIENT_ID"@) {
        lemma_blank(s);
        let (a, b) = text::law_trimming_takes_the_margins(s);
        text::law_a_part_cuts_the_text(s, text::trimmed(s));
        assert(a + text::trimmed(s) + b == s);
    }
    if let Some(s) = env.value("OSU_CLIENT_SECRET"@) {
        lemma_blank(s);
    }
    law_origin_is_what_precedes_the_path(config.base_url@);
}

proof fn lemma_blank(s: Seq<char>)
    ensures
        text::trimmed(s).len() == 0 <==> text::is_blank(s),
{
    let (a, b) = text::law_trimming_takes_the_margins(s);
    let t = text::trimmed(s);
    if t.len() == 0 {
        assert forall|i: int| 0 <= i < s.len() implies text::is_white_space(#[trigger] s[i]) by {
            if i < a.len() {
                assert(s[i] == a[i]);
            } else {
                assert(s[i] == b[i - a.len()]);
            }
        }
    } else {
        assert(s[a.len() as int] == t[0]);
    }
}

/// The plugin starts exactly when the four variables are set that it cannot do without.
pub proof fn law_required_variables(env: &Environment, r: Result<AppConfig, &'static str>)
    requires
        call_ensures(AppConfig::from_env, (env,), r),
    ensures
        r is Ok <==> env.value("BASE_URL"@) is Some && env.value("DATABASE_URL"@) is Some
            && env.value("SESSION_SECRET"@) is Some && env.value("INTERNAL_API_KEY"@) is Some,
{
}

/// The plugin's own pages and the dashboard may change things, and no other site.
pub proof fn law_own_and_dashboard_origins_are_allowed(config: &AppConfig, r: Vec<String>)
    requires
        call_ensures(AppConfig::allowed_origins, (config,), r),
    ensures
        text::views(r@).contains(origin(config.base_url@)),
        config.rl_dashboard_origin matches Some(d) ==> text::views(r@).contains(d@) && r@.len()
            == 2,
        config.rl_dashboard_origin is None ==> r@.len() == 1,
{
    let all = text::views(r@);
    assert(all.len() == r@.len());
    assert(all[0] == origin(config.base_url@));
    if let Some(d) = config.rl_dashboard_origin {
        assert(all[1] == d@);
    }
}

/// A variable is found under its own name: the first of that name, whatever the others
/// hold.
pub proof fn law_variables_are_found_by_name(
    vars: Seq<(String, String)>,
    i: int,
)
    requires
        0 <= i < vars.len(),
        forall|k: int| 0 <= k < i ==> (#[trigger] vars[k]).0@ != vars[i].0@,
    ensures
        value_of(vars, vars[i].0@) == Some(vars[i].1@),
    decreases i,
{
    if i > 0 {
        let rest = vars.skip(1);
        assert(vars[0].0@ != vars[i].0@);
        assert(rest[i - 1] == vars[i]);
        assert forall|k: int| 0 <= k < i - 1 implies (#[trigger] rest[k]).0@ != rest[i - 1].0@ by {
            assert(rest[k] == vars[k + 1]);
        }
        law_variables_are_found_by_name(rest, i - 1);
    }
}

/// As many workers run as are configured, and never none.
pub proof fn law_some_worker_runs(config: &AppConfig, n: u32)
    requires
        call_ensures(AppConfig::worker_count, (config,), n),
    ensures
        n >= 1,
        config.worker_concurrency >= 1 ==> n == config.worker_concurrency,
        config.worker_concurrency == 0 ==> n == 1,
{
}

/// The addresses of the dashboard and of RoleLogic are those that are set, without the
/// space around them and the slashes at their end; a blank one counts as not set.
pub proof fn law_addresses_are_taken_bare(env: &Environment, config: AppConfig, s: Seq<char>)
    requires
        call_ensures(AppConfig::from_env, (env,), Ok::<AppConfig, &'static str>(config)),
        s.len() > 0,
        !text::is_white_space(s[0]),
        !text::is_white_space(s.last()),
        s.last() != '/',
    ensures
        env.value("RL_DASHBOARD_ORIGIN"@) == Some(s) ==> config.rl_dashboard_origin->0@ == s,
        env.value("RL_DASHBOARD_ORIGIN"@) == Some(s + seq!['/']) ==> config.rl_dashboard_origin->0@
            == s,
        env.value("ROLELOGIC_API_URL"@) == Some(s) ==> config.rolelogic_api_url@ == s,
        env.value("ROLELOGIC_API_URL"@) == Some(s + seq!['/']) ==> config.rolelogic_api_url@ == s,
        env.value("AUTH_GATEWAY_URL"@) == Some(s + seq!['/']) ==> config.auth_gateway_url@ == s,
{
    let t = s + seq!['/'];
    text::lemma_nothing_to_trim(s);
    text::lemma_nothing_to_trim(t);
    assert(t.drop_last() =~= s);
    assert(text::trimmed_end_of(s, '/') == s);
    assert(text::trimmed_end_of(t, '/') == s);
}

} // verus!
