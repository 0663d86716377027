//! The errors of the plugin and the HTTP responses they become.

use crate::json::{Json, Value};
use crate::text;
use vstd::prelude::*;
use vstd::string::*;

verus! {

#[derive(Debug, PartialEq)]
pub struct FieldError {
    pub field: String,
    pub message: String,
}

impl Clone for FieldError {
    fn clone(&self) -> (r: Self)
        ensures
            r == *self,
    {
        FieldError { field: self.field.clone(), message: self.message.clone() }
    }
}

/// A failure of the database layer.
#[derive(Debug, PartialEq)]
pub enum DbError {
    /// The server refused the statement. `code` is its SQLSTATE, `constraint` the
    /// constraint that was violated, where the server names one.
    Reported { code: Option<String>, constraint: Option<String>, message: String },
    /// Anything else: the connection, the pool, decoding a row.
    Other { message: String },
}

#[derive(Debug, PartialEq)]
pub enum AppError {
    Database(DbError),
    RoleLogic(String),
    RoleLinkNotFound,
    RoleLinkDisabled,
    UserLimitReached { limit: usize },
    OsuApi(String),
    BadRequest(String),
    Unauthorized,
    UnauthorizedWith(String),
    Forbidden(String),
    NotFound(String),
    ValidationFailed(Vec<FieldError>),
    StaleVersion,
    Internal(String),
}

/// What an error says.
pub enum Problem {
    Database(DbError),
    RoleLogic(Seq<char>),
    RoleLinkNotFound,
    RoleLinkDisabled,
    UserLimitReached(usize),
    OsuApi(Seq<char>),
    BadRequest(Seq<char>),
    Unauthorized,
    UnauthorizedWith(Seq<char>),
    Forbidden(Seq<char>),
    NotFound(Seq<char>),
    ValidationFailed(Seq<FieldError>),
    StaleVersion,
    Internal(Seq<char>),
}

impl View for AppError {
    type V = Problem;

    open spec fn view(&self) -> Problem {
        match self {
            AppError::Database(e) => Problem::Database(*e),
            AppError::RoleLogic(e) => Problem::RoleLogic(e@),
            AppError::RoleLinkNotFound => Problem::RoleLinkNotFound,
            AppError::RoleLinkDisabled => Problem::RoleLinkDisabled,
            AppError::UserLimitReached { limit } => Problem::UserLimitReached(*limit),
            AppError::OsuApi(e) => Problem::OsuApi(e@),
            AppError::BadRequest(e) => Problem::BadRequest(e@),
            AppError::Unauthorized => Problem::Unauthorized,
            AppError::UnauthorizedWith(e) => Problem::UnauthorizedWith(e@),
            AppError::Forbidden(e) => Problem::Forbidden(e@),
            AppError::NotFound(e) => Problem::NotFound(e@),
            AppError::ValidationFailed(errors) => Problem::ValidationFailed(errors@),
            AppError::StaleVersion => Problem::StaleVersion,
            AppError::Internal(e) => Problem::Internal(e@),
        }
    }
}

/// An outcome, with what its error says in place of the error.
pub open spec fn outcome<T>(r: Result<T, AppError>) -> Result<T, Problem> {
    match r {
        Ok(t) => Ok(t),
        Err(e) => Err(e@),
    }
}

/// An HTTP status and a JSON body.
#[derive(Debug, PartialEq)]
pub struct Response {
    pub status: u16,
    pub body: Value,
}

impl DbError {
    /// What the database layer said.
    pub open spec fn cause(self) -> Seq<char> {
        match self {
            DbError::Reported { message, .. } => message@,
            DbError::Other { message } => message@,
        }
    }

    /// The SQLSTATE, empty where there is none.
    pub open spec fn sqlstate(self) -> Seq<char> {
        match self {
            DbError::Reported { code: Some(code), .. } => code@,
            _ => Seq::empty(),
        }
    }

    /// The constraint that was violated, empty where none is named.
    pub open spec fn violated(self) -> Seq<char> {
        match self {
            DbError::Reported { constraint: Some(constraint), .. } => constraint@,
            _ => Seq::empty(),
        }
    }

    /// The constraint violations, which a client can cause.
    pub open spec fn is_violation(self) -> bool {
        self.sqlstate() == "23505"@ || self.sqlstate() == "23503"@ || self.sqlstate() == "23514"@
            || self.sqlstate() == "23502"@
    }

    /// The HTTP status of a failure.
    pub open spec fn http_status(self) -> u16 {
        if self.sqlstate() == "23505"@ || self.sqlstate() == "23503"@ {
            409
        } else if self.sqlstate() == "23514"@ || self.sqlstate() == "23502"@ {
            400
        } else {
            500
        }
    }

    /// The body of the response to a failure.
    pub open spec fn http_body(self) -> Json {
        if self.sqlstate() == "23505"@ {
            violation(
                "A record with that value already exists."@,
                "UNIQUE_VIOLATION"@,
                self.violated(),
            )
        } else if self.sqlstate() == "23503"@ {
            violation(
                "Operation would violate a referential constraint."@,
                "FOREIGN_KEY_VIOLATION"@,
                self.violated(),
            )
        } else if self.sqlstate() == "23514"@ {
            violation(
                "One or more fields failed a database check."@,
                "CHECK_VIOLATION"@,
                self.violated(),
            )
        } else if self.sqlstate() == "23502"@ {
            coded("A required field was missing."@, "NOT_NULL_VIOLATION"@)
        } else {
            plain("Internal server error"@)
        }
    }
}

/// A body that holds a message.
pub open spec fn plain(message: Seq<char>) -> Json {
    Json::object().with("error"@, Json::Text(message))
}

/// A body that holds a message and a code.
pub open spec fn coded(message: Seq<char>, code: Seq<char>) -> Json {
    plain(message).with("code"@, Json::Text(code))
}

/// A body that holds a message, a code and the constraint that was violated.
pub open spec fn violation(message: Seq<char>, code: Seq<char>, constraint: Seq<char>) -> Json {
    coded(message, code).with("constraint"@, Json::Text(constraint))
}

/// A field error as JSON.
pub open spec fn field_json(e: FieldError) -> Json {
    Json::object().with("field"@, Json::Text(e.field@)).with("message"@, Json::Text(e.message@))
}

impl AppError {
    /// The error in words, for the log.
    pub open spec fn shown(self) -> Seq<char> {
        match self {
            AppError::Database(e) => "Database error: "@ + e.cause(),
            AppError::RoleLogic(e) => "RoleLogic API error: "@ + e@,
            AppError::RoleLinkNotFound => "Role link not found on RoleLogic"@,
            AppError::RoleLinkDisabled => "Role link is disabled on RoleLogic"@,
            AppError::UserLimitReached { limit } => "Role link user limit reached ("@ + text::dec(
                limit as nat,
            ) + ")"@,
            AppError::OsuApi(e) => "osu! API error: "@ + e@,
            AppError::BadRequest(e) => "Invalid request: "@ + e@,
            AppError::Unauthorized => "Unauthorized"@,
            AppError::UnauthorizedWith(e) => "Unauthorized: "@ + e@,
            AppError::Forbidden(e) => "Forbidden: "@ + e@,
            AppError::NotFound(e) => "Not found: "@ + e@,
            AppError::ValidationFailed(_) => "Validation failed"@,
            AppError::StaleVersion => "Configuration was edited; reload and try again"@,
            AppError::Internal(e) => "Internal error: "@ + e@,
        }
    }

    /// The HTTP status of an error.
    pub open spec fn http_status(self) -> u16 {
        match self {
            AppError::Database(e) => e.http_status(),
            AppError::RoleLogic(_) => 502,
            AppError::RoleLinkNotFound => 404,
            AppError::RoleLinkDisabled => 403,
            AppError::UserLimitReached { .. } => 403,
            AppError::OsuApi(_) => 502,
            AppError::BadRequest(_) => 400,
            AppError::Unauthorized => 401,
            AppError::UnauthorizedWith(_) => 401,
            AppError::Forbidden(_) => 403,
            AppError::NotFound(_) => 404,
            AppError::ValidationFailed(_) => 422,
            AppError::StaleVersion => 409,
            AppError::Internal(_) => 500,
        }
    }

    /// The body of the response to an error.
    pub open spec fn http_body(self) -> Json {
        match self {
            AppError::Database(e) => e.http_body(),
            AppError::RoleLogic(_) => plain("Failed to sync roles"@),
            AppError::RoleLinkNotFound => plain("Role link not found"@),
            AppError::RoleLinkDisabled => plain("Role link is disabled"@),
            AppError::UserLimitReached { .. } => plain("Role link user limit reached"@),
            AppError::OsuApi(_) => plain("Failed to reach osu!"@),
            AppError::BadRequest(msg) => plain(msg@),
            AppError::Unauthorized => plain("Invalid or missing authorization"@),
            AppError::UnauthorizedWith(msg) => plain(msg@),
            AppError::Forbidden(msg) => plain(msg@),
            AppError::NotFound(msg) => plain(msg@),
            AppError::ValidationFailed(errors) => plain("Validation failed"@).with(
                "field_errors"@,
                Json::List(errors@.map_values(|e: FieldError| field_json(e))),
            ),
            AppError::StaleVersion => coded(
                "The configuration was edited from another tab. Reload and try again."@,
                "STALE_VERSION"@,
            ),
            AppError::Internal(_) => plain("Internal server error"@),
        }
    }

    /// The error in words.
    pub fn message(&self) -> (r: String)
        ensures
            r@ == self.shown(),
    {
        match self {
            AppError::Database(DbError::Reported { message, .. }) => text::join2(
                "Database error: ",
                message.as_str(),
            ),
            AppError::Database(DbError::Other { message }) => text::join2(
                "Database error: ",
                message.as_str(),
            ),
            AppError::RoleLogic(e) => text::join2("RoleLogic API error: ", e.as_str()),
            AppError::RoleLinkNotFound => "Role link not found on RoleLogic".to_owned(),
            AppError::RoleLinkDisabled => "Role link is disabled on RoleLogic".to_owned(),
            AppError::UserLimitReached { limit } => {
                let n = text::decimal(*limit as u128);
                text::join3("Role link user limit reached (", n.as_str(), ")")
            },
            AppError::OsuApi(e) => text::join2("osu! API error: ", e.as_str()),
            AppError::BadRequest(e) => text::join2("Invalid request: ", e.as_str()),
            AppError::Unauthorized => "Unauthorized".to_owned(),
            AppError::UnauthorizedWith(e) => text::join2("Unauthorized: ", e.as_str()),
            AppError::Forbidden(e) => text::join2("Forbidden: ", e.as_str()),
            AppError::NotFound(e) => text::join2("Not found: ", e.as_str()),
            AppError::ValidationFailed(_) => "Validation failed".to_owned(),
            AppError::StaleVersion => "Configuration was edited; reload and try again".to_owned(),
            AppError::Internal(e) => text::join2("Internal error: ", e.as_str()),
        }
    }

    /// The response to an error. The cause of an internal failure goes to the
    /// log, never into the body.
    pub fn into_response(self) -> (r: Response)
        ensures
            r.status == self.http_status(),
            r.body@ == self.http_body(),
    {
        match self {
            AppError::Database(e) => classify_db_error(e),
            AppError::RoleLogic(_) => error_response(502, "Failed to sync roles"),
            AppError::RoleLinkNotFound => error_response(404, "Role link not found"),
            AppError::RoleLinkDisabled => error_response(403, "Role link is disabled"),
            AppError::UserLimitReached { .. } => error_response(
                403,
                "Role link user limit reached",
            ),
            AppError::OsuApi(_) => error_response(502, "Failed to reach osu!"),
            AppError::BadRequest(msg) => error_response(400, msg.as_str()),
            AppError::Unauthorized => error_response(401, "Invalid or missing authorization"),
            AppError::UnauthorizedWith(msg) => error_response(401, msg.as_str()),
            AppError::Forbidden(msg) => error_response(403, msg.as_str()),
            AppError::NotFound(msg) => error_response(404, msg.as_str()),
            AppError::ValidationFailed(field_errors) => {
                let list = field_list(&field_errors);
                let body = Value::object().with("error", Value::text("Validation failed")).with(
                    "field_errors",
                    list,
                );
                Response { status: 422, body }
            },
            AppError::StaleVersion => coded_response(
                409,
                "The configuration was edited from another tab. Reload and try again.",
                "STALE_VERSION",
            ),
            AppError::Internal(_) => error_response(500, "Internal server error"),
        }
    }
}

fn error_response(status: u16, message: &str) -> (r: Response)
    ensures
        r.status == status,
        r.body@ == plain(message@),
{
    Response { status, body: Value::object().with("error", Value::text(message)) }
}

fn coded_response(status: u16, message: &str, code: &str) -> (r: Response)
    ensures
        r.status == status,
        r.body@ == coded(message@, code@),
{
    Response {
        status,
        body: Value::object().with("error", Value::text(message)).with("code", Value::text(code)),
    }
}

fn violation_response(status: u16, message: &str, code: &str, constraint: &str) -> (r: Response)
    ensures
        r.status == status,
        r.body@ == violation(message@, code@, constraint@),
{
    Response {
        status,
        body: Value::object().with("error", Value::text(message)).with(
            "code",
            Value::text(code),
        ).with("constraint", Value::text(constraint)),
    }
}

fn field_list(errors: &Vec<FieldError>) -> (r: Value)
    ensures
        r@ == Json::List(errors@.map_values(|e: FieldError| field_json(e))),
{
    let mut items: Vec<Value> = Vec::new();
    let mut i: usize = 0;
    while i < errors.len()
        invariant
            i <= errors@.len(),
            items@.len() == i,
            forall|k: int| 0 <= k < i ==> (#[trigger] items@[k])@ == field_json(errors@[k]),
        decreases errors@.len() - i,
    {
        let e = &errors[i];
        let item = Value::object().with("field", Value::text(e.field.as_str())).with(
            "message",
            Value::text(e.message.as_str()),
        );
        items.push(item);
        i += 1;
    }
    proof {
        Value::array_view(items);
        assert(crate::json::json_list(items@) =~= errors@.map_values(
            |e: FieldError| field_json(e),
        ));
    }
    Value::Array(items)
}

/// Map a database failure to a response. Constraint violations are
/// client-causable so they get 4xx codes; everything else falls through to
/// 500 with a generic body that never leaks the cause.
fn classify_db_error(e: DbError) -> (r: Response)
    ensures
        r.status == e.http_status(),
        r.body@ == e.http_body(),
{
    proof {
        reveal_strlit("");
        reveal_strlit("23505");
        reveal_strlit("23503");
        reveal_strlit("23514");
        reveal_strlit("23502");
        assert(""@ =~= Seq::empty());
        assert("23505"@.len() == 5 && "23503"@.len() == 5 && "23514"@.len() == 5 && "23502"@.len()
            == 5);
    }
    match &e {
        DbError::Reported { code, constraint, .. } => {
            let code_str: &str = match code {
                Some(code) => code.as_str(),
                None => "",
            };
            let constraint: &str = match constraint {
                Some(constraint) => constraint.as_str(),
                None => "",
            };
            if text::same(code_str, "23505") {
                return violation_response(
                    409,
                    "A record with that value already exists.",
                    "UNIQUE_VIOLATION",
                    constraint,
                );
            }
            if text::same(code_str, "23503") {
                return violation_response(
                    409,
                    "Operation would violate a referential constraint.",
                    "FOREIGN_KEY_VIOLATION",
                    constraint,
                );
            }
            if text::same(code_str, "23514") {
                return violation_response(
                    400,
                    "One or more fields failed a database check.",
                    "CHECK_VIOLATION",
                    constraint,
                );
            }
            if text::same(code_str, "23502") {
                return coded_response(400, "A required field was missing.", "NOT_NULL_VIOLATION");
            }
        },
        DbError::Other { .. } => {},
    }
    error_response(500, "Internal server error")
}

/// Every error becomes a client or server error.
pub proof fn law_error_statuses(e: AppError)
    ensures
        400 <= e.http_status() < 600,
{
}

/// A failure of the database is the client's exactly when it is a constraint
/// violation.
pub proof fn law_violations_are_client_errors(e: DbError)
    ensures
        400 <= e.http_status() < 500 <==> e.is_violation(),
        !e.is_violation() ==> e.http_status() == 500 && e.http_body() == plain(
            "Internal server error"@,
        ),
{
}

/// The response to a database failure does not depend on what the database said:
/// the code and the constraint decide it.
pub proof fn law_database_cause_never_leaks(a: DbError, b: DbError)
    requires
        a.sqlstate() == b.sqlstate(),
        a.violated() == b.violated(),
    ensures
        AppError::Database(a).http_status() == AppError::Database(b).http_status(),
        AppError::Database(a).http_body() == AppError::Database(b).http_body(),
{
}

/// The responses to an upstream failure, an internal failure and a reached limit
/// do not depend on the details.
pub proof fn law_internal_details_never_leak(a: String, b: String, m: usize, n: usize)
    ensures
        AppError::RoleLogic(a).http_body() == AppError::RoleLogic(b).http_body(),
        AppError::OsuApi(a).http_body() == AppError::OsuApi(b).http_body(),
        AppError::Internal(a).http_body() == AppError::Internal(b).http_body(),
        (AppError::UserLimitReached { limit: m }).http_body() == (AppError::UserLimitReached {
            limit: n,
        }).http_body(),
{
}

/// What a client is told by the status: whether to sign in, that it may not, that there
/// is no such thing, that its request is wrong or came too late, or that the fault is
/// not its own.
pub proof fn law_statuses_tell_whose_fault_it_is(e: AppError)
    ensures
        e.http_status() == 401 <==> e is Unauthorized || e is UnauthorizedWith,
        e.http_status() == 403 <==> e is Forbidden || e is RoleLinkDisabled || e
            is UserLimitReached,
        e.http_status() == 404 <==> e is NotFound || e is RoleLinkNotFound,
        e.http_status() == 422 <==> e is ValidationFailed,
        e.http_status() == 502 <==> e is OsuApi || e is RoleLogic,
        e.http_status() == 409 <==> e is StaleVersion || (e matches AppError::Database(d) && (
        d.sqlstate() == "23505"@ || d.sqlstate() == "23503"@)),
        e.http_status() == 400 <==> e is BadRequest || (e matches AppError::Database(d) && (
        d.sqlstate() == "23514"@ || d.sqlstate() == "23502"@)),
        e.http_status() == 500 <==> e is Internal || (e matches AppError::Database(d)
            && !d.is_violation()),
{
    reveal_strlit("23505");
    reveal_strlit("23503");
    reveal_strlit("23514");
    reveal_strlit("23502");
    assert("23505"@[3] == '0' && "23505"@[4] == '5');
    assert("23503"@[3] == '0' && "23503"@[4] == '3');
    assert("23514"@[3] == '1' && "23514"@[4] == '4');
    assert("23502"@[3] == '0' && "23502"@[4] == '2');
}

/// What a refusal says in words is what the client reads, under one name; a failed
/// validation lists every field with its message, in order.
pub proof fn law_refusals_are_said_in_the_body(e: AppError)
    ensures
        e.http_body().field("error"@) is Some,
        e matches AppError::BadRequest(msg) ==> e.http_body().field("error"@) == Some(
            Json::Text(msg@),
        ),
        e matches AppError::UnauthorizedWith(msg) ==> e.http_body().field("error"@) == Some(
            Json::Text(msg@),
        ),
        e matches AppError::Forbidden(msg) ==> e.http_body().field("error"@) == Some(
            Json::Text(msg@),
        ),
        e matches AppError::NotFound(msg) ==> e.http_body().field("error"@) == Some(
            Json::Text(msg@),
        ),
        e matches AppError::StaleVersion ==> e.http_body().field("code"@) == Some(
            Json::Text("STALE_VERSION"@),
        ),
        e matches AppError::Database(d) ==> (d.is_violation() <==> e.http_body().field("code"@)
            is Some),
        e matches AppError::Database(d) ==> (d.is_violation() && d.sqlstate() != "23502"@
            ==> e.http_body().field("constraint"@) == Some(Json::Text(d.violated()))),
        e matches AppError::ValidationFailed(errors) ==> (e.http_body().field("field_errors"@)
            matches Some(Json::List(list)) && list.len() == errors@.len() && (forall|i: int|
            0 <= i < list.len() ==> (#[trigger] list[i]).field("field"@) == Some(
                Json::Text(errors@[i].field@),
            ) && list[i].field("message"@) == Some(Json::Text(errors@[i].message@)))),
{
    reveal_strlit("error");
    reveal_strlit("code");
    reveal_strlit("constraint");
    reveal_strlit("field_errors");
    reveal_strlit("field");
    reveal_strlit("message");
    assert("error"@.len() == 5 && "code"@.len() == 4 && "constraint"@.len() == 10);
    assert("field_errors"@.len() == 12 && "field"@.len() == 5 && "message"@.len() == 7);
    let fields = e.http_body()->Fields_0;
    assert(fields[0].0 == "error"@);
    crate::json::lemma_field_at(fields, 0);
    if fields.len() > 1 {
        assert(fields[1].0 == "code"@ || fields[1].0 == "field_errors"@);
        crate::json::lemma_field_at(fields, 1);
    } else {
        assert(fields.skip(1) =~= Seq::empty());
        assert(crate::json::field_of(fields.skip(1), "code"@) is None);
    }
    if fields.len() > 2 {
        assert(fields[2].0 == "constraint"@);
        crate::json::lemma_field_at(fields, 2);
    }
    if let AppError::ValidationFailed(errors) = e {
        let list = fields[1].1->List_0;
        assert forall|i: int| 0 <= i < list.len() implies (#[trigger] list[i]).field("field"@)
            == Some(Json::Text(errors@[i].field@)) && list[i].field("message"@) == Some(
            Json::Text(errors@[i].message@),
        ) by {
            let parts = list[i]->Fields_0;
            assert(list[i] == field_json(errors@[i]));
            assert(parts[0].0 == "field"@ && parts[1].0 == "message"@);
            crate::json::lemma_field_at(parts, 0);
            crate::json::lemma_field_at(parts, 1);
        }
    }
}

/// An error in words ends with its cause, where it has one.
pub proof fn law_words_end_with_the_cause(e: AppError, cause: Seq<char>)
    requires
        match e {
            AppError::Database(d) => cause == d.cause(),
            AppError::RoleLogic(s) => cause == s@,
            AppError::OsuApi(s) => cause == s@,
            AppError::BadRequest(s) => cause == s@,
            AppError::UnauthorizedWith(s) => cause == s@,
            AppError::Forbidden(s) => cause == s@,
            AppError::NotFound(s) => cause == s@,
            AppError::Internal(s) => cause == s@,
            _ => false,
        },
    ensures
        e.shown().len() >= cause.len(),
        e.shown().skip(e.shown().len() - cause.len()) == cause,
{
    assert(e.shown().skip(e.shown().len() - cause.len()) =~= cause);
}

} // verus!
