//! How a check that does not pass is answered.

use vstd::prelude::*;
use vstd::string::*;
use crate::server::request::ClaimsError;

verus! {

/// The status under which a check is turned down.
#[derive(Clone, Copy, Debug, PartialEq, Eq, Structural)]
pub enum StatusCode {
    /// The request is at fault: the proxy sent no headers or no token, or the
    /// token's claims cannot be used.
    InvalidArgument,
    /// The token is at fault: the validator did not accept it.
    Unauthenticated,
}

/// Why a check is turned down.
pub enum Rejection {
    /// The request holds no headers of the client's request.
    HeadersNotProvided,
    /// The client's request has no token header.
    MissingTokenHeader,
    /// The validator turned the token down. `detail` is what it said, kept
    /// for the log; the caller is not told.
    TokenValidationFailed { detail: String },
    /// The validator accepted the token, but its claims describe no
    /// principal.
    ClaimsProcessingFailed { error: ClaimsError },
}

/// The view of a `Rejection`.
pub enum RejectionView {
    HeadersNotProvided,
    MissingTokenHeader,
    TokenValidationFailed { detail: Seq<char> },
    ClaimsProcessingFailed { error: ClaimsError },
}

impl View for Rejection {
    type V = RejectionView;

    open spec fn view(&self) -> RejectionView {
        match *self {
            Rejection::HeadersNotProvided => RejectionView::HeadersNotProvided,
            Rejection::MissingTokenHeader => RejectionView::MissingTokenHeader,
            Rejection::TokenValidationFailed { detail } => RejectionView::TokenValidationFailed {
                detail: detail@,
            },
            Rejection::ClaimsProcessingFailed { error } => RejectionView::ClaimsProcessingFailed {
                error,
            },
        }
    }
}

impl RejectionView {
    /// The status of the rejection: only a token that the validator turned
    /// down is answered as unauthenticated.
    pub open spec fn code(self) -> StatusCode {
        match self {
            RejectionView::TokenValidationFailed { .. } => StatusCode::Unauthenticated,
            _ => StatusCode::InvalidArgument,
        }
    }

    /// The message that the caller is given. It is one of four fixed texts:
    /// nothing of what the validator or the parser said is in it.
    pub open spec fn message(self) -> Seq<char> {
        match self {
            RejectionView::HeadersNotProvided => "headers not provided by envoy"@,
            RejectionView::MissingTokenHeader => "missing token header"@,
            RejectionView::TokenValidationFailed { .. } => "token validation failed"@,
            RejectionView::ClaimsProcessingFailed { .. } => "claims processing failed"@,
        }
    }

    /// What the log is given beyond the message: the validator's words, or
    /// the parser's error; nothing for the other two.
    pub open spec fn detail(self) -> Seq<char> {
        match self {
            RejectionView::TokenValidationFailed { detail } => detail,
            RejectionView::ClaimsProcessingFailed { error } => error.message_text(),
            _ => Seq::empty(),
        }
    }
}

impl Rejection {
    /// The status of the rejection.
    pub fn code(&self) -> (code: StatusCode)
        ensures
            code == self@.code(),
    {
        match self {
            Rejection::TokenValidationFailed { .. } => StatusCode::Unauthenticated,
            _ => StatusCode::InvalidArgument,
        }
    }

    /// The message that the caller is given.
    pub fn message(&self) -> (message: String)
        ensures
            message@ == self@.message(),
    {
        match self {
            Rejection::HeadersNotProvided => "headers not provided by envoy".to_string(),
            Rejection::MissingTokenHeader => "missing token header".to_string(),
            Rejection::TokenValidationFailed { .. } => "token validation failed".to_string(),
            Rejection::ClaimsProcessingFailed { .. } => "claims processing failed".to_string(),
        }
    }

    /// What the log is given beyond the message.
    pub fn detail(&self) -> (detail: String)
        ensures
            detail@ == self@.detail(),
    {
        match self {
            Rejection::TokenValidationFailed { detail } => detail.clone(),
            Rejection::ClaimsProcessingFailed { error } => error.message(),
            _ => String::new(),
        }
    }
}

/// The message with which a check that passes is answered.
pub fn accepted_message() -> (message: String)
    ensures
        message@ == "token validated"@,
{
    "token validated".to_string()
}

} // verus!
