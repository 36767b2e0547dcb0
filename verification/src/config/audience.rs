//! The audiences that a token must be meant for.

pub mod discovery;
pub mod schema;
