//! The check: from a request to the headers of the principal, or to the
//! reason why there is none.

use vstd::prelude::*;
use std::sync::Arc;
use crate::config::audience::schema::AudienceProvider;
use crate::config::bootstrap::schema::TimeConstraintMode;
use crate::server::claims::{lookup, ClaimView, ClaimsPayload, PayloadView};
use crate::server::json::read_claims;
use crate::server::request::{
    get_headers,
    header_value,
    lemma_missing_claim_fails,
    parse_claims,
    request_headers,
    subject_is,
    user_claims,
    ClaimName,
    PrincipalAssertion,
    PrincipalView,
};
use crate::server::response::{
    builder_headers,
    new_builder,
    principal_headers,
    ResponseMutator,
};
use crate::server::status::{Rejection, RejectionView, StatusCode};
use crate::server::validator::{
    build_constraints,
    constraints_for,
    ConstraintSet,
    ValidatorCapability,
};

verus! {

/// The name of the request header that carries the token. It is matched
/// letter for letter.
pub open spec fn token_header() -> Seq<char> {
    "cf-access-jwt-assertion"@
}

/// The token of a check request, or the reason why it has none: no headers
/// at all, or no token header among them.
pub open spec fn token_of(headers: Option<Map<Seq<char>, Seq<char>>>) -> Result<
    Seq<char>,
    RejectionView,
> {
    match headers {
        None => Err(RejectionView::HeadersNotProvided),
        Some(found) => if found.contains_key(token_header()) {
            Ok(found[token_header()])
        } else {
            Err(RejectionView::MissingTokenHeader)
        },
    }
}

/// The principal for what the validator made of a token: none for a token
/// that it turned down, none for claims that describe no principal, else the
/// principal that the claims describe.
pub open spec fn principal_for(outcome: Result<PayloadView, Seq<char>>) -> Result<
    PrincipalView,
    RejectionView,
> {
    match outcome {
        Err(detail) => Err(RejectionView::TokenValidationFailed { detail }),
        Ok(payload) => match parse_claims(payload) {
            Ok(principal) => Ok(principal),
            Err(error) => Err(RejectionView::ClaimsProcessingFailed { error }),
        },
    }
}

/// The answer to a check for what the validator made of the token: the
/// headers of the principal, or the rejection.
pub open spec fn answer_for(outcome: Result<PayloadView, Seq<char>>) -> Result<
    Seq<(Seq<char>, Seq<char>)>,
    RejectionView,
> {
    match principal_for(outcome) {
        Ok(principal) => Ok(principal_headers(principal)),
        Err(rejection) => Err(rejection),
    }
}

/// The view of what the validator made of a token.
pub open spec fn outcome_view(outcome: Result<ClaimsPayload, String>) -> Result<
    PayloadView,
    Seq<char>,
> {
    match outcome {
        Ok(payload) => Ok(payload@),
        Err(detail) => Err(detail@),
    }
}

/// The view of the answer to a check.
pub open spec fn answer_view(
    answer: Result<envoy_types::ext_authz::v3::OkHttpResponseBuilder, Rejection>,
) -> Result<Seq<(Seq<char>, Seq<char>)>, RejectionView> {
    match answer {
        Ok(builder) => Ok(builder_headers(builder)),
        Err(rejection) => Err(rejection@),
    }
}

/// The view of a principal or a rejection.
pub open spec fn principal_view(found: Result<PrincipalAssertion, Rejection>) -> Result<
    PrincipalView,
    RejectionView,
> {
    match found {
        Ok(principal) => Ok(principal@),
        Err(rejection) => Err(rejection@),
    }
}

/// Finds the token among the headers of a check request.
pub fn extract_token<'a>(request: &'a envoy_types::ext_authz::v3::pb::CheckRequest) -> (token:
    Result<&'a String, Rejection>)
    ensures
        match token {
            Ok(found) => token_of(request_headers(*request)) == Ok::<Seq<char>, RejectionView>(
                found@,
            ),
            Err(rejection) => token_of(request_headers(*request)) == Err::<
                Seq<char>,
                RejectionView,
            >(rejection@),
        },
{
    let client_headers = match get_headers(request) {
        Ok(headers) => headers,
        Err(rejection) => {
            return Err(rejection);
        },
    };
    match header_value(client_headers, "cf-access-jwt-assertion") {
        Some(value) => Ok(value),
        None => Err(Rejection::MissingTokenHeader),
    }
}

/// Decides on what the validator made of a token: a token that it turned
/// down is answered as unauthenticated, claims that describe no principal as
/// an invalid argument.
pub fn conclude(outcome: Result<ClaimsPayload, String>) -> (found: Result<
    PrincipalAssertion,
    Rejection,
>)
    ensures
        principal_view(found) == principal_for(outcome_view(outcome)),
{
    match outcome {
        Err(detail) => Err(Rejection::TokenValidationFailed { detail }),
        Ok(payload) => match PrincipalAssertion::from_claims(&payload) {
            Ok(assertion) => Ok(assertion),
            Err(error) => Err(Rejection::ClaimsProcessingFailed { error }),
        },
    }
}

/// The service that answers checks.
pub struct CloudflareZeroTrustAuthorizationServer {
    validator: Arc<Box<dyn ValidatorCapability>>,
    aud_provider: Arc<Box<dyn AudienceProvider>>,
    default_team_name: String,
    nbf_validation: TimeConstraintMode,
    exp_validation: TimeConstraintMode,
}

impl CloudflareZeroTrustAuthorizationServer {
    /// The name of the team whose tokens are accepted.
    pub closed spec fn team_name(&self) -> Seq<char> {
        self.default_team_name@
    }

    /// Whether a token is turned down before its `nbf`.
    pub closed spec fn nbf_mode(&self) -> TimeConstraintMode {
        self.nbf_validation
    }

    /// Whether a token is turned down after its `exp`.
    pub closed spec fn exp_mode(&self) -> TimeConstraintMode {
        self.exp_validation
    }

    /// A service that validates with `validator`, for the team and under the
    /// two modes given, against the audiences that `aud_provider` names at
    /// each check.
    pub fn new(
        validator: Arc<Box<dyn ValidatorCapability>>,
        aud_provider: Arc<Box<dyn AudienceProvider>>,
        default_team_name: &str,
        nbf_validation: TimeConstraintMode,
        exp_validation: TimeConstraintMode,
    ) -> (server: Self)
        ensures
            server.team_name() == default_team_name@,
            server.nbf_mode() == nbf_validation,
            server.exp_mode() == exp_validation,
    {
        CloudflareZeroTrustAuthorizationServer {
            validator,
            aud_provider,
            default_team_name: default_team_name.to_string(),
            nbf_validation,
            exp_validation,
        }
    }

    /// The constraints for the next token: those of the two modes, with the
    /// audiences that the provider names now, of which there is at least one.
    pub fn constraints(&self) -> (constraints: ConstraintSet)
        ensures
            constraints@.audiences.len() > 0,
            constraints@ == constraints_for(
                self.nbf_mode(),
                self.exp_mode(),
                constraints@.audiences,
            ),
    {
        build_constraints(
            self.nbf_validation,
            self.exp_validation,
            self.aud_provider.get_audiences(),
        )
    }

    /// Validates a token and builds its principal. Whatever the validator
    /// makes of the token, the result is the one that `principal_for` gives
    /// for it.
    pub fn validate(&self, token: &str) -> (found: Result<PrincipalAssertion, Rejection>)
        ensures
            exists|outcome: Result<PayloadView, Seq<char>>|
                principal_view(found) == #[trigger] principal_for(outcome),
    {
        let constraints = self.constraints();
        let outcome: Result<ClaimsPayload, String> = match self.validator.validate_token(
            token,
            self.default_team_name.as_str(),
            &constraints,
        ) {
            Ok(claims) => Ok(read_claims(&claims)),
            Err(detail) => Err(detail),
        };
        let found = conclude(outcome);
        assert(principal_view(found) == principal_for(outcome_view(outcome)));
        found
    }

    /// Answers a check request. A request without headers, or without the
    /// token header, is turned down without a word to the validator. For any
    /// other, the token goes to the validator, and whatever it makes of the
    /// token, the answer is the one that `answer_for` gives for it: the
    /// headers of the principal, in a builder that holds nothing else, or the
    /// rejection.
    pub fn check(&self, request: &envoy_types::ext_authz::v3::pb::CheckRequest) -> (answer: Result<
        envoy_types::ext_authz::v3::OkHttpResponseBuilder,
        Rejection,
    >)
        ensures
            match token_of(request_headers(*request)) {
                Err(rejection) => answer_view(answer) == Err::<
                    Seq<(Seq<char>, Seq<char>)>,
                    RejectionView,
                >(rejection),
                Ok(_) => exists|outcome: Result<PayloadView, Seq<char>>|
                    answer_view(answer) == #[trigger] answer_for(outcome),
            },
    {
        let token = match extract_token(request) {
            Ok(token) => token,
            Err(rejection) => {
                return Err(rejection);
            },
        };
        match self.validate(token.as_str()) {
            Ok(assertion) => {
                let mut builder = new_builder();
                assertion.mutate_response(&mut builder);
                proof {
                    let outcome = choose|outcome: Result<PayloadView, Seq<char>>|
                        principal_view(Ok::<PrincipalAssertion, Rejection>(assertion))
                            == #[trigger] principal_for(outcome);
                    assert(builder_headers(builder) =~= principal_headers(assertion@));
                    assert(answer_view(
                        Ok::<envoy_types::ext_authz::v3::OkHttpResponseBuilder, Rejection>(
                            builder,
                        ),
                    ) == answer_for(outcome));
                }
                Ok(builder)
            },
            Err(rejection) => {
                proof {
                    let outcome = choose|outcome: Result<PayloadView, Seq<char>>|
                        principal_view(Err::<PrincipalAssertion, Rejection>(rejection))
                            == #[trigger] principal_for(outcome);
                    assert(answer_view(
                        Err::<envoy_types::ext_authz::v3::OkHttpResponseBuilder, Rejection>(
                            rejection,
                        ),
                    ) == answer_for(outcome));
                }
                Err(rejection)
            },
        }
    }
}

/// A check request without the token header is turned down as an invalid
/// argument. The answer is fixed by the headers alone: no outcome of a
/// validation has a part in it.
pub proof fn lemma_missing_token_is_invalid_argument(headers: Map<Seq<char>, Seq<char>>)
    requires
        !headers.contains_key(token_header()),
    ensures
        token_of(Some(headers)) == Err::<Seq<char>, RejectionView>(
            RejectionView::MissingTokenHeader,
        ),
        RejectionView::MissingTokenHeader.code() == StatusCode::InvalidArgument,
{
}

/// A token that the validator turns down is answered as unauthenticated, with
/// the fixed message and with no header of any principal.
pub proof fn lemma_rejected_token_is_unauthenticated(detail: Seq<char>)
    ensures
        answer_for(Err(detail)) == Err::<Seq<(Seq<char>, Seq<char>)>, RejectionView>(
            RejectionView::TokenValidationFailed { detail },
        ),
        (RejectionView::TokenValidationFailed { detail }).code() == StatusCode::Unauthenticated,
        (RejectionView::TokenValidationFailed { detail }).message() == "token validation failed"@,
{
}

/// A token that the validator accepts, but whose claims describe no
/// principal, is answered as an invalid argument: not as the validator's
/// rejection of a token is.
pub proof fn lemma_unusable_claims_are_invalid_argument(payload: PayloadView)
    requires
        parse_claims(payload) is Err,
    ensures
        answer_for(Ok(payload)) == Err::<Seq<(Seq<char>, Seq<char>)>, RejectionView>(
            RejectionView::ClaimsProcessingFailed { error: parse_claims(payload)->Err_0 },
        ),
        answer_for(Ok(payload))->Err_0.code() == StatusCode::InvalidArgument,
        forall|detail: Seq<char>|
            answer_for(Ok(payload)) != #[trigger] answer_for(Err(detail)),
{
}

/// Claims with a non-empty `sub` and no `email` are such claims: the check is
/// answered as an invalid argument.
pub proof fn lemma_user_without_email_is_invalid_argument(claims: Seq<ClaimView>)
    requires
        subject_is(claims, false),
        lookup(claims, ClaimName::Email.text()) is None,
    ensures
        answer_for(Ok(PayloadView::Object(claims))) is Err,
        answer_for(Ok(PayloadView::Object(claims)))->Err_0 is ClaimsProcessingFailed,
        answer_for(Ok(PayloadView::Object(claims)))->Err_0.code() == StatusCode::InvalidArgument,
{
    assert(user_claims()[1] == ClaimName::Email);
    lemma_missing_claim_fails(claims, ClaimName::Email);
    lemma_unusable_claims_are_invalid_argument(PayloadView::Object(claims));
}

} // verus!
