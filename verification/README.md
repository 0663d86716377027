# osu-player-role

A RoleLogic plugin that grants Discord roles by a member's osu! profile and
stats. A rule is an OR of AND-groups of conditions, evaluated in a game mode.
Roles follow the stats as they drift.

The decisions of the plugin are a library verified with Verus. Each public
function states in its `ensures` what it returns for every input, and the laws
that span functions are public proof functions named `law_...`.

## Layout

- `src/`: the verified library.
  - `models/`: conditions, rules, game modes and the facts of a player.
  - `services/condition_eval.rs`: what a rule says of a player.
  - `services/rule_sql.rs`: the same rule as a WHERE clause.
  - `services/rule_meaning.rs`: what such a clause means to the database, and the
    proof that it selects the players whom the evaluation accepts. The proof takes
    it that the database finds a regular expression where the evaluation does.
  - `services/rule_validator.rs`: what a rule must look like to be saved.
  - `services/sync.rs`: the syncs of a player and of a role link, as machines that
    ask for one request at a time and decide on its reply.
  - `services/auth.rs`, `csrf.rs`, `security_headers.rs`: who may do what.
  - `services/osu.rs`, `auth_gateway.rs`, `gateway.rs`: requests to the osu! API
    and to the Auth Gateway, and what their replies mean.
  - `services/jobs.rs`, `tasks/`: the job queue, its listener and workers, and the refresh.
  - `routes/`: linking an account, the member pages and the list of players.
  - `text.rs`, `json.rs`, `clock.rs`, `encoding.rs`, `pattern.rs`, `headers.rs`,
    `entropy.rs`: what the rest is built from. Calls into other crates stand here,
    in `services/gateway.rs` and in `services/auth.rs`, each with the contract
    that the proofs rest on.
- `tests/`: tests on concrete values.
- `app/`: the server around the library: routing, HTTP, the database, and the
  loops that run the machines.
