//! An external-authorization service for a reverse proxy, as a library.
//!
//! The proxy asks for each request whether it may pass. The request carries a
//! token; a validator checks the token's signature and its constraints, the
//! claims of a token that passes are parsed into a principal, and the
//! principal is handed to the upstream service as a fixed list of headers. A
//! request that does not pass is turned down with the reason.
//!
//! - [`config`]: the settings, the time-constraint modes and the audiences.
//! - [`server`]: claims, principals, response headers and the check.
//! - [`scheduler`]: the refresh of the validator's keys.
//! - [`lifecycle`]: the order of startup and shutdown.
//! - [`text`]: helpers on strings.

pub mod config;
pub mod lifecycle;
pub mod scheduler;
pub mod server;
pub mod text;
