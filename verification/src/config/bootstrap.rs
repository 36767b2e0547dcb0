//! The configuration of the whole service.

pub mod discovery;
pub mod schema;
