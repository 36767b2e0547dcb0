//! Building the configuration from raw settings.

use vstd::prelude::*;
use vstd::string::*;
use crate::config::bootstrap::schema::{
    parse_mode,
    Configuration,
    ConfigurationView,
    TimeConstraintMode,
};
use crate::config::{setting, setting_or, ConfigurationError};

verus! {

/// The settings that the configuration is built from, each as it was given,
/// or `None` where it was not.
pub struct BootstrapSettings {
    pub listener: Option<String>,
    pub static_keys: Option<String>,
    pub team_name: Option<String>,
    pub nbf_validation: Option<String>,
    pub exp_validation: Option<String>,
    pub sync_schedule: Option<String>,
    pub enable_proxy_discovery: Option<String>,
}

/// Whether a setting says yes: it is `yes`, `on` or `enabled`, written so.
pub open spec fn is_truthy(value: Seq<char>) -> bool {
    value == "yes"@ || value == "on"@ || value == "enabled"@
}

/// Reads a yes-or-no setting.
pub fn bool_parser(value: &str) -> (truthy: bool)
    ensures
        truthy == is_truthy(value@),
{
    let value: String = value.to_string();
    value == "yes".to_string() || value == "on".to_string() || value == "enabled".to_string()
}

/// The configuration that the settings describe.
pub open spec fn bootstrap_configuration(settings: BootstrapSettings) -> Result<
    ConfigurationView,
    ConfigurationError,
> {
    let nbf = parse_mode(setting(settings.nbf_validation, "strict"@));
    let exp = parse_mode(setting(settings.exp_validation, "strict"@));
    if settings.team_name is None {
        Err(ConfigurationError::MissingTeamName)
    } else if nbf is Err {
        Err(nbf->Err_0)
    } else if exp is Err {
        Err(exp->Err_0)
    } else {
        Ok(
            ConfigurationView {
                listener: setting(settings.listener, "tcp://[::1]:10000"@),
                team_name: settings.team_name->0@,
                static_keys: if setting(settings.static_keys, ""@).len() == 0 {
                    None
                } else {
                    Some(setting(settings.static_keys, ""@))
                },
                proxy_discovery: match settings.enable_proxy_discovery {
                    Some(value) => is_truthy(value@),
                    None => false,
                },
                sync_schedule: setting(settings.sync_schedule, "0 0 0 * * *"@),
                nbf_validation: nbf->Ok_0,
                exp_validation: exp->Ok_0,
            },
        )
    }
}

/// Builds the configuration from the settings, with the default of each
/// setting that has one. The team's name has none.
pub fn discover_bootstrap_configuration(settings: &BootstrapSettings) -> (configuration: Result<
    Configuration,
    ConfigurationError,
>)
    ensures
        match configuration {
            Ok(built) => bootstrap_configuration(*settings) == Ok::<
                ConfigurationView,
                ConfigurationError,
            >(built@),
            Err(error) => bootstrap_configuration(*settings) == Err::<
                ConfigurationView,
                ConfigurationError,
            >(error),
        },
{
    let static_key_str: String = setting_or(&settings.static_keys, "");
    let team_name: &String = match &settings.team_name {
        Some(name) => name,
        None => {
            return Err(ConfigurationError::MissingTeamName);
        },
    };
    let nbf_validation = match TimeConstraintMode::from_str(
        setting_or(&settings.nbf_validation, "strict").as_str(),
    ) {
        Ok(mode) => mode,
        Err(error) => {
            return Err(error);
        },
    };
    let exp_validation = match TimeConstraintMode::from_str(
        setting_or(&settings.exp_validation, "strict").as_str(),
    ) {
        Ok(mode) => mode,
        Err(error) => {
            return Err(error);
        },
    };
    let mut static_keys: Option<String> = None;
    if !static_key_str.as_str().is_empty() {
        static_keys = Some(static_key_str);
    }
    let proxy_discovery: bool = match &settings.enable_proxy_discovery {
        Some(value) => bool_parser(value.as_str()),
        None => false,
    };
    Ok(
        Configuration::new_single_team_configuration(
            setting_or(&settings.listener, "tcp://[::1]:10000").as_str(),
            team_name.as_str(),
            static_keys,
            setting_or(&settings.sync_schedule, "0 0 0 * * *").as_str(),
            nbf_validation,
            exp_validation,
            proxy_discovery,
        ),
    )
}

} // verus!
