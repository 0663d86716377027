//! Rule engine, request policy and sync planning of the osu! player-role plugin.

pub mod clock;
pub mod config;
pub mod encoding;
pub mod entropy;
pub mod error;
pub mod headers;
pub mod json;
pub mod models;
pub mod pattern;
pub mod routes;
pub mod schema;
pub mod services;
pub mod tasks;
pub mod text;
