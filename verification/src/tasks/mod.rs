//! The background tasks: what they do next.

pub mod job_listener;
pub mod job_worker;
pub mod refresh;
