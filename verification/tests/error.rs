//! Errors and the responses they become.

use osu_player_role::error::{AppError, DbError, FieldError};
use osu_player_role::json::{render, Value};

fn reported(code: Option<&str>, constraint: Option<&str>) -> AppError {
    AppError::Database(DbError::Reported {
        code: code.map(String::from),
        constraint: constraint.map(String::from),
        message: "duplicate key value (secret)".to_string(),
    })
}

fn answer(e: AppError) -> (u16, String) {
    let r = e.into_response();
    (r.status, render(&r.body))
}

#[test]
fn constraint_violations_are_client_errors() {
    assert_eq!(
        answer(reported(Some("23505"), Some("osu_users_pkey"))),
        (
            409,
            "{\"error\":\"A record with that value already exists.\",\
             \"code\":\"UNIQUE_VIOLATION\",\"constraint\":\"osu_users_pkey\"}"
                .to_string()
        )
    );
    assert_eq!(
        answer(reported(Some("23503"), None)),
        (
            409,
            "{\"error\":\"Operation would violate a referential constraint.\",\
             \"code\":\"FOREIGN_KEY_VIOLATION\",\"constraint\":\"\"}"
                .to_string()
        )
    );
    assert_eq!(
        answer(reported(Some("23514"), Some("c"))),
        (
            400,
            "{\"error\":\"One or more fields failed a database check.\",\
             \"code\":\"CHECK_VIOLATION\",\"constraint\":\"c\"}"
                .to_string()
        )
    );
    assert_eq!(
        answer(reported(Some("23502"), Some("c"))),
        (
            400,
            "{\"error\":\"A required field was missing.\",\"code\":\"NOT_NULL_VIOLATION\"}"
                .to_string()
        )
    );
}

#[test]
fn other_database_failures_leak_nothing() {
    let generic = (500, "{\"error\":\"Internal server error\"}".to_string());
    assert_eq!(answer(reported(Some("42601"), Some("c"))), generic);
    assert_eq!(answer(reported(None, None)), generic);
    let lost = AppError::Database(DbError::Other { message: "pool timed out".to_string() });
    assert_eq!(answer(lost), generic);
}

#[test]
fn every_variant_has_its_response() {
    let word = || "detail".to_string();
    let error = |msg: &str| format!("{{\"error\":\"{msg}\"}}");
    assert_eq!(answer(AppError::RoleLogic(word())), (502, error("Failed to sync roles")));
    assert_eq!(answer(AppError::RoleLinkNotFound), (404, error("Role link not found")));
    assert_eq!(answer(AppError::RoleLinkDisabled), (403, error("Role link is disabled")));
    assert_eq!(
        answer(AppError::UserLimitReached { limit: 5 }),
        (403, error("Role link user limit reached"))
    );
    assert_eq!(answer(AppError::OsuApi(word())), (502, error("Failed to reach osu!")));
    assert_eq!(answer(AppError::BadRequest(word())), (400, error("detail")));
    assert_eq!(answer(AppError::Unauthorized), (401, error("Invalid or missing authorization")));
    assert_eq!(answer(AppError::UnauthorizedWith(word())), (401, error("detail")));
    assert_eq!(answer(AppError::Forbidden(word())), (403, error("detail")));
    assert_eq!(answer(AppError::NotFound(word())), (404, error("detail")));
    assert_eq!(answer(AppError::Internal(word())), (500, error("Internal server error")));
    assert_eq!(
        answer(AppError::StaleVersion),
        (
            409,
            "{\"error\":\"The configuration was edited from another tab. Reload and try again.\",\
             \"code\":\"STALE_VERSION\"}"
                .to_string()
        )
    );
}

#[test]
fn field_errors_are_listed() {
    let fields = vec![
        FieldError { field: "a".to_string(), message: "bad \"a\"".to_string() },
        FieldError { field: "b".to_string(), message: "worse".to_string() },
    ];
    assert_eq!(fields.clone(), fields);
    let r = AppError::ValidationFailed(fields).into_response();
    assert_eq!(r.status, 422);
    assert_eq!(
        render(&r.body),
        "{\"error\":\"Validation failed\",\"field_errors\":[\
         {\"field\":\"a\",\"message\":\"bad \\\"a\\\"\"},{\"field\":\"b\",\"message\":\"worse\"}]}"
    );
}

#[test]
fn messages_for_the_log() {
    let word = || "x".to_string();
    let cases = vec![
        (reported(None, None), "Database error: duplicate key value (secret)"),
        (AppError::Database(DbError::Other { message: word() }), "Database error: x"),
        (AppError::RoleLogic(word()), "RoleLogic API error: x"),
        (AppError::RoleLinkNotFound, "Role link not found on RoleLogic"),
        (AppError::RoleLinkDisabled, "Role link is disabled on RoleLogic"),
        (AppError::UserLimitReached { limit: 105 }, "Role link user limit reached (105)"),
        (AppError::OsuApi(word()), "osu! API error: x"),
        (AppError::BadRequest(word()), "Invalid request: x"),
        (AppError::Unauthorized, "Unauthorized"),
        (AppError::UnauthorizedWith(word()), "Unauthorized: x"),
        (AppError::Forbidden(word()), "Forbidden: x"),
        (AppError::NotFound(word()), "Not found: x"),
        (AppError::ValidationFailed(vec![]), "Validation failed"),
        (AppError::StaleVersion, "Configuration was edited; reload and try again"),
        (AppError::Internal(word()), "Internal error: x"),
    ];
    for (error, message) in cases {
        assert_eq!(error.message(), message);
    }
}

#[test]
fn json_is_rendered_compactly() {
    let v = Value::object()
        .with("n", Value::number(-12))
        .with("t", Value::text("tab\tquote\"\u{1}ü"))
        .with("l", Value::Array(vec![Value::Null, Value::Bool(false), Value::Null]))
        .with("o", Value::object());
    assert_eq!(
        render(&v),
        "{\"n\":-12,\"t\":\"tab\\tquote\\\"\\u0001ü\",\"l\":[null,false,null],\"o\":{}}"
    );
    assert_eq!(v.clone(), v);
    assert_eq!(v.get("n"), Some(&Value::number(-12)));
    assert_eq!(v.get("x"), None);
}
