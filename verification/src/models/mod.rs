//! The data that rules are made of and evaluated against.

pub mod condition;
pub mod facts;
pub mod mode;
pub mod rule;
