//! What a token must satisfy, what validates one, and the plan by which a
//! validator is built.

use vstd::prelude::*;
use crate::config::bootstrap::schema::{TimeConstraintMode, ValidatorConfiguration};
use crate::text::views;

verus! {

/// The algorithm that a token's signature must be made with.
#[derive(Clone, Copy, Debug, PartialEq, Eq, Structural)]
pub enum SignatureAlgorithm {
    Rs256,
}

/// What a token must satisfy besides being signed by a key of the team.
pub struct ConstraintSet {
    pub algorithm: SignatureAlgorithm,
    /// The audiences of which the token must name one.
    pub audiences: Vec<String>,
    /// Whether a token is turned down before its `nbf`.
    pub validate_nbf: bool,
    /// Whether a token is turned down after its `exp`.
    pub validate_exp: bool,
}

/// The view of a `ConstraintSet`.
pub struct ConstraintView {
    pub algorithm: SignatureAlgorithm,
    pub audiences: Seq<Seq<char>>,
    pub validate_nbf: bool,
    pub validate_exp: bool,
}

impl View for ConstraintSet {
    type V = ConstraintView;

    open spec fn view(&self) -> ConstraintView {
        ConstraintView {
            algorithm: self.algorithm,
            audiences: views(self.audiences@),
            validate_nbf: self.validate_nbf,
            validate_exp: self.validate_exp,
        }
    }
}

/// The constraints for the two modes and the audiences. A lax mode switches
/// off the check of its own claim and nothing else: the algorithm and the
/// audiences are the same under every pair of modes.
pub open spec fn constraints_for(
    nbf_validation: TimeConstraintMode,
    exp_validation: TimeConstraintMode,
    audiences: Seq<Seq<char>>,
) -> ConstraintView {
    ConstraintView {
        algorithm: SignatureAlgorithm::Rs256,
        audiences,
        validate_nbf: nbf_validation == TimeConstraintMode::Strict,
        validate_exp: exp_validation == TimeConstraintMode::Strict,
    }
}

/// A lax mode switches off the check of its own claim, and a strict one
/// switches it on; neither touches the other claim's check, the algorithm or
/// the audiences.
pub proof fn lemma_modes_touch_their_own_claim_only(
    nbf_validation: TimeConstraintMode,
    exp_validation: TimeConstraintMode,
    other: TimeConstraintMode,
    audiences: Seq<Seq<char>>,
)
    ensures
        constraints_for(nbf_validation, exp_validation, audiences).validate_nbf == (nbf_validation
            == TimeConstraintMode::Strict),
        constraints_for(nbf_validation, exp_validation, audiences).validate_exp == (exp_validation
            == TimeConstraintMode::Strict),
        constraints_for(other, exp_validation, audiences).validate_exp == constraints_for(
            nbf_validation,
            exp_validation,
            audiences,
        ).validate_exp,
        constraints_for(nbf_validation, other, audiences).validate_nbf == constraints_for(
            nbf_validation,
            exp_validation,
            audiences,
        ).validate_nbf,
        constraints_for(nbf_validation, exp_validation, audiences).audiences == audiences,
        constraints_for(nbf_validation, exp_validation, audiences).algorithm
            == SignatureAlgorithm::Rs256,
{
}

/// Builds the constraints for the two modes and the audiences.
pub fn build_constraints(
    nbf_validation: TimeConstraintMode,
    exp_validation: TimeConstraintMode,
    audiences: Vec<String>,
) -> (constraints: ConstraintSet)
    ensures
        constraints@ == constraints_for(nbf_validation, exp_validation, views(audiences@)),
{
    ConstraintSet {
        algorithm: SignatureAlgorithm::Rs256,
        audiences,
        validate_nbf: match nbf_validation {
            TimeConstraintMode::Strict => true,
            TimeConstraintMode::Lax => false,
        },
        validate_exp: match exp_validation {
            TimeConstraintMode::Strict => true,
            TimeConstraintMode::Lax => false,
        },
    }
}

/// What validates tokens: it checks a token's signature against the keys of
/// a team, and the token's claims against the constraints. It is shared by
/// the checks and the refresh job, and sees to it itself that `sync` may run
/// while tokens are validated.
pub trait ValidatorCapability: Sync + Send {
    /// Validates a token for a team under the constraints: the claims of a
    /// token that passes, else what was wrong with it. It is never asked to
    /// validate against no audience at all.
    fn validate_token(&self, token: &str, team_name: &str, constraints: &ConstraintSet) -> Result<
        serde_json::Value,
        String,
    >
        requires
            constraints@.audiences.len() > 0,
    ;

    /// Fetches the keys again.
    fn sync(&self) -> Result<(), String>;
}

/// Where a validator gets its keys from.
pub enum KeySource {
    /// The keys are given, as the JSON text of the team's key set.
    Pinned(String),
    /// The keys are fetched by the team's name.
    Fetched,
}

/// How to build the validator of a configuration.
pub struct ValidatorPlan {
    pub team_name: String,
    pub key_source: KeySource,
    /// Whether the transport that fetches keys takes a proxy from its
    /// environment.
    pub proxy_discovery: bool,
}

/// The view of a `ValidatorPlan`. The keys are the pinned ones, if any.
pub struct ValidatorPlanView {
    pub team_name: Seq<char>,
    pub pinned_keys: Option<Seq<char>>,
    pub proxy_discovery: bool,
}

impl View for ValidatorPlan {
    type V = ValidatorPlanView;

    open spec fn view(&self) -> ValidatorPlanView {
        ValidatorPlanView {
            team_name: self.team_name@,
            pinned_keys: match self.key_source {
                KeySource::Pinned(keys) => Some(keys@),
                KeySource::Fetched => None,
            },
            proxy_discovery: self.proxy_discovery,
        }
    }
}

impl ValidatorPlan {
    /// Whether a validator built by this plan must fetch its keys again from
    /// time to time.
    pub fn requires_refresh(&self) -> (refresh: bool)
        ensures
            refresh == self@.pinned_keys is None,
    {
        match self.key_source {
            KeySource::Pinned(_) => false,
            KeySource::Fetched => true,
        }
    }
}

/// Plans the validator of a configuration: from the pinned keys where there
/// are some, else from keys fetched by the team's name. The plan needs a
/// refresh exactly when the configuration does.
pub fn new_validator(configuration: &ValidatorConfiguration) -> (plan: ValidatorPlan)
    ensures
        plan@ == (ValidatorPlanView {
            team_name: configuration.team_name(),
            pinned_keys: configuration.pinned_keys(),
            proxy_discovery: configuration.proxy_discovery(),
        }),
{
    match configuration {
        ValidatorConfiguration::Team(static_config, common_config) => ValidatorPlan {
            team_name: static_config.team_name.clone(),
            key_source: match &static_config.static_keys {
                Some(team_keys) => KeySource::Pinned(team_keys.clone()),
                None => KeySource::Fetched,
            },
            proxy_discovery: common_config.proxy_discovery,
        },
    }
}

} // verus!
