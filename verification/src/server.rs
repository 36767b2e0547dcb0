//! The check service: claims, principals, response headers and the check
//! itself.

pub mod claims;
pub mod extauthz;
pub mod json;
pub mod request;
pub mod response;
pub mod status;
pub mod validator;
