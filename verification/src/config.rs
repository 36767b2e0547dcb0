//! Configuration: what the service is told at startup, and how raw settings
//! become it.

use vstd::prelude::*;

pub mod audience;
pub mod bootstrap;

verus! {

/// Why a configuration could not be built. Each is fatal at startup.
#[derive(Clone, Copy, Debug, PartialEq, Eq, Structural)]
pub enum ConfigurationError {
    /// A setting that has no default is absent.
    MissingTeamName,
    /// A time-constraint mode is neither `strict` nor `lax`.
    InvalidTimeConstraint,
    /// The audience provider asked for is not known.
    InvalidAudienceProvider,
    /// The static provider was given neither a single audience nor a list, or
    /// both.
    NoAudienceConfigured,
}

impl ConfigurationError {
    /// The message of the error.
    pub open spec fn message_text(self) -> Seq<char> {
        match self {
            ConfigurationError::MissingTeamName => "environment variable not found"@,
            ConfigurationError::InvalidTimeConstraint => "invalid time constraint value"@,
            ConfigurationError::InvalidAudienceProvider => "Invalid audience provider"@,
            ConfigurationError::NoAudienceConfigured => "No audience configured for static provider"@,
        }
    }

    /// The message of the error.
    pub fn message(&self) -> (message: String)
        ensures
            message@ == self.message_text(),
    {
        match *self {
            ConfigurationError::MissingTeamName => "environment variable not found".to_string(),
            ConfigurationError::InvalidTimeConstraint => "invalid time constraint value".to_string(),
            ConfigurationError::InvalidAudienceProvider => "Invalid audience provider".to_string(),
            ConfigurationError::NoAudienceConfigured => "No audience configured for static provider".to_string(),
        }
    }
}

/// What a setting is taken to be: its value where it was given, `default`
/// where it was not.
pub open spec fn setting(raw: Option<String>, default: Seq<char>) -> Seq<char> {
    match raw {
        Some(value) => value@,
        None => default,
    }
}

/// The value of a setting, or `default` where the setting was not given.
pub fn setting_or(raw: &Option<String>, default: &str) -> (value: String)
    ensures
        value@ == setting(*raw, default@),
{
    match raw {
        Some(value) => value.clone(),
        None => default.to_string(),
    }
}

} // verus!
