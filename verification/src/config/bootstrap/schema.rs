//! The service's configuration, immutable once built.

use vstd::prelude::*;
use vstd::string::*;
use crate::config::ConfigurationError;
use crate::server::validator::{new_validator, ValidatorPlan, ValidatorPlanView};
use crate::text::{ascii_lowercase, eq_ignore_ascii_case};

verus! {

/// Whether a temporal claim of a token is enforced.
#[derive(Clone, Copy, Debug, PartialEq, Eq, Structural)]
pub enum TimeConstraintMode {
    Strict,
    Lax,
}

/// The mode that a setting names: `strict` or `lax`, in any mix of upper and
/// lower case. Anything else names none.
pub open spec fn parse_mode(s: Seq<char>) -> Result<TimeConstraintMode, ConfigurationError> {
    if ascii_lowercase(s) == "strict"@ {
        Ok(TimeConstraintMode::Strict)
    } else if ascii_lowercase(s) == "lax"@ {
        Ok(TimeConstraintMode::Lax)
    } else {
        Err(ConfigurationError::InvalidTimeConstraint)
    }
}

impl TimeConstraintMode {
    /// Reads a mode from a setting.
    pub fn from_str(s: &str) -> (mode: Result<Self, ConfigurationError>)
        ensures
            mode == parse_mode(s@),
    {
        proof {
            reveal_strlit("strict");
            reveal_strlit("lax");
            assert(ascii_lowercase("strict"@) =~= "strict"@);
            assert(ascii_lowercase("lax"@) =~= "lax"@);
        }
        if eq_ignore_ascii_case(s, "strict") {
            Ok(TimeConstraintMode::Strict)
        } else if eq_ignore_ascii_case(s, "lax") {
            Ok(TimeConstraintMode::Lax)
        } else {
            Err(ConfigurationError::InvalidTimeConstraint)
        }
    }
}

impl std::str::FromStr for TimeConstraintMode {
    type Err = ConfigurationError;

    /// Reads a mode from a setting, as the function of the same name on the
    /// type itself does.
    fn from_str(s: &str) -> (mode: Result<Self, Self::Err>)
        ensures
            mode == parse_mode(s@),
    {
        TimeConstraintMode::from_str(s)
    }
}

/// What holds for every kind of validator.
pub struct CommonValidatorConfiguration {
    /// Whether the validator looks in its environment for a proxy through
    /// which to fetch keys.
    pub proxy_discovery: bool,
}

/// A validator for the tokens of one team.
pub struct StaticTeamValidatorConfiguration {
    pub team_name: String,
    /// The team's signing keys, where they are pinned.
    pub static_keys: Option<String>,
}

impl StaticTeamValidatorConfiguration {
    /// Whether the team's keys are pinned.
    pub fn is_static_keys(&self) -> (pinned: bool)
        ensures
            pinned == self.static_keys is Some,
    {
        self.static_keys.is_some()
    }
}

/// How tokens are validated.
pub enum ValidatorConfiguration {
    Team(StaticTeamValidatorConfiguration, CommonValidatorConfiguration),
}

impl ValidatorConfiguration {
    /// The name of the team whose tokens are accepted.
    pub open spec fn team_name(self) -> Seq<char> {
        match self {
            ValidatorConfiguration::Team(config, _) => config.team_name@,
        }
    }

    /// The pinned keys, if keys are pinned.
    pub open spec fn pinned_keys(self) -> Option<Seq<char>> {
        match self {
            ValidatorConfiguration::Team(config, _) => match config.static_keys {
                Some(keys) => Some(keys@),
                None => None,
            },
        }
    }

    /// Whether the validator looks for a proxy in its environment.
    pub open spec fn proxy_discovery(self) -> bool {
        match self {
            ValidatorConfiguration::Team(_, common) => common.proxy_discovery,
        }
    }

    /// The name of the team whose tokens are accepted.
    pub fn get_default_team_name(&self) -> (name: String)
        ensures
            name@ == self.team_name(),
    {
        match self {
            ValidatorConfiguration::Team(config, _) => config.team_name.clone(),
        }
    }

    /// Whether the validator's keys must be fetched again from time to time:
    /// pinned keys never are, keys found by the team's name are.
    pub fn requires_refresh(&self) -> (refresh: bool)
        ensures
            refresh == self.pinned_keys() is None,
    {
        match self {
            ValidatorConfiguration::Team(config, _) => !config.is_static_keys(),
        }
    }
}

/// The configuration of the service.
pub struct Configuration {
    /// The address to listen on, as a URL.
    pub listener: String,
    pub validator: ValidatorConfiguration,
    /// When the validator's keys are fetched again, as a cron expression.
    pub sync_schedule: String,
    pub nbf_validation: TimeConstraintMode,
    pub exp_validation: TimeConstraintMode,
}

/// The view of a `Configuration`.
pub struct ConfigurationView {
    pub listener: Seq<char>,
    pub team_name: Seq<char>,
    pub static_keys: Option<Seq<char>>,
    pub proxy_discovery: bool,
    pub sync_schedule: Seq<char>,
    pub nbf_validation: TimeConstraintMode,
    pub exp_validation: TimeConstraintMode,
}

impl View for Configuration {
    type V = ConfigurationView;

    open spec fn view(&self) -> ConfigurationView {
        ConfigurationView {
            listener: self.listener@,
            team_name: self.validator.team_name(),
            static_keys: self.validator.pinned_keys(),
            proxy_discovery: self.validator.proxy_discovery(),
            sync_schedule: self.sync_schedule@,
            nbf_validation: self.nbf_validation,
            exp_validation: self.exp_validation,
        }
    }
}

/// The text of an optional string.
pub open spec fn optional_text(value: Option<String>) -> Option<Seq<char>> {
    match value {
        Some(text) => Some(text@),
        None => None,
    }
}

impl Configuration {
    /// A configuration of the given parts.
    pub fn new(
        listener: &str,
        validator_config: ValidatorConfiguration,
        sync_schedule: &str,
        nbf_validation: TimeConstraintMode,
        exp_validation: TimeConstraintMode,
    ) -> (configuration: Self)
        ensures
            configuration.listener@ == listener@,
            configuration.validator == validator_config,
            configuration.sync_schedule@ == sync_schedule@,
            configuration.nbf_validation == nbf_validation,
            configuration.exp_validation == exp_validation,
    {
        Configuration {
            listener: listener.to_string(),
            validator: validator_config,
            sync_schedule: sync_schedule.to_string(),
            nbf_validation,
            exp_validation,
        }
    }

    /// A configuration for the tokens of one team.
    pub fn new_single_team_configuration(
        listener: &str,
        team_name: &str,
        static_keys: Option<String>,
        sync_schedule: &str,
        nbf_validation: TimeConstraintMode,
        exp_validation: TimeConstraintMode,
        proxy_discovery: bool,
    ) -> (configuration: Self)
        ensures
            configuration@ == (ConfigurationView {
                listener: listener@,
                team_name: team_name@,
                static_keys: optional_text(static_keys),
                proxy_discovery,
                sync_schedule: sync_schedule@,
                nbf_validation,
                exp_validation,
            }),
    {
        Configuration::new(
            listener,
            ValidatorConfiguration::Team(
                StaticTeamValidatorConfiguration { team_name: team_name.to_string(), static_keys },
                CommonValidatorConfiguration { proxy_discovery },
            ),
            sync_schedule,
            nbf_validation,
            exp_validation,
        )
    }

    /// Plans the validator of this configuration.
    pub fn new_validator(&self) -> (plan: ValidatorPlan)
        ensures
            plan@ == (ValidatorPlanView {
                team_name: self@.team_name,
                pinned_keys: self@.static_keys,
                proxy_discovery: self@.proxy_discovery,
            }),
    {
        new_validator(&self.validator)
    }

    /// The schedule of the job that fetches the validator's keys again: none
    /// where the keys are pinned, the configured schedule where they are not.
    pub open spec fn refresh_job(self) -> Option<Seq<char>> {
        if self.validator.pinned_keys() is Some {
            None
        } else {
            Some(self.sync_schedule@)
        }
    }

    /// The schedule on which to register the one refresh job, or `None` where
    /// no job is to be registered.
    pub fn refresh_schedule(&self) -> (schedule: Option<String>)
        ensures
            optional_text(schedule) == self.refresh_job(),
    {
        if self.validator.requires_refresh() {
            Some(self.sync_schedule.clone())
        } else {
            None
        }
    }
}

} // verus!
