//! What the plugin decides and computes.

pub mod agreement;
pub mod auth;
pub mod auth_gateway;
pub mod condition_eval;
pub mod csrf;
pub mod gateway;
pub mod jobs;
pub mod osu;
pub mod rule_meaning;
pub mod rule_sql;
pub mod rule_validator;
pub mod security_headers;
pub mod sql;
pub mod sync;
