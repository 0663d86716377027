//! What the routes decide and answer.

pub mod oauth;
pub mod users;
pub mod verify;
