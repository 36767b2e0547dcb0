//! Choosing the audience provider from raw settings.

use vstd::prelude::*;
use vstd::string::*;
use crate::config::audience::schema::StaticAudienceProvider;
use crate::config::{setting, setting_or, ConfigurationError};
use crate::text::{ascii_lowercase, eq_ignore_ascii_case, split, split_str};

verus! {

/// The provider of the single audience that was set, if one was set.
pub fn discover_audience(audience: &Option<String>) -> (provider: Option<StaticAudienceProvider>)
    ensures
        match provider {
            Some(found) => setting(*audience, ""@).len() > 0 && found@ == seq![
                setting(*audience, ""@),
            ],
            None => setting(*audience, ""@).len() == 0,
        },
{
    let audience_str: String = setting_or(audience, "");
    if audience_str.as_str().is_empty() {
        return None;
    }
    Some(StaticAudienceProvider::new_single_aud(audience_str.as_str()))
}

/// The provider of the audiences that were set as a list with commas between
/// them, if a list was set.
pub fn discover_audiences(audiences: &Option<String>) -> (provider: Option<
    StaticAudienceProvider,
>)
    ensures
        match provider {
            Some(found) => setting(*audiences, ""@).len() > 0 && found@ == split(
                setting(*audiences, ""@),
                ',',
            ),
            None => setting(*audiences, ""@).len() == 0,
        },
{
    let audiences_str: String = setting_or(audiences, "");
    if audiences_str.as_str().is_empty() {
        return None;
    }
    Some(StaticAudienceProvider::new(split_str(audiences_str.as_str(), ',')))
}

/// The audiences of the static provider: the single audience, or the list;
/// an error where both are set, or neither.
pub open spec fn static_audiences(audience: Seq<char>, audiences: Seq<char>) -> Result<
    Seq<Seq<char>>,
    ConfigurationError,
> {
    if audience.len() > 0 && audiences.len() == 0 {
        Ok(seq![audience])
    } else if audience.len() == 0 && audiences.len() > 0 {
        Ok(split(audiences, ','))
    } else {
        Err(ConfigurationError::NoAudienceConfigured)
    }
}

/// Whether `discovered` is the provider, or the error, that `expected` gives.
pub open spec fn provides(
    discovered: Result<StaticAudienceProvider, ConfigurationError>,
    expected: Result<Seq<Seq<char>>, ConfigurationError>,
) -> bool {
    match discovered {
        Ok(provider) => expected == Ok::<Seq<Seq<char>>, ConfigurationError>(provider@),
        Err(error) => expected == Err::<Seq<Seq<char>>, ConfigurationError>(error),
    }
}

/// The static provider for the settings: exactly one of the single audience
/// and the list must be set.
pub fn discover_static_provider(audience: &Option<String>, audiences: &Option<String>) -> (provider:
    Result<StaticAudienceProvider, ConfigurationError>)
    ensures
        provides(provider, static_audiences(setting(*audience, ""@), setting(*audiences, ""@))),
{
    match (discover_audience(audience), discover_audiences(audiences)) {
        (Some(provider), None) => Ok(provider),
        (None, Some(provider)) => Ok(provider),
        _ => Err(ConfigurationError::NoAudienceConfigured),
    }
}

/// The provider that the settings ask for. Only the provider called `static`
/// is known; its name is read without regard to case, and it is the one taken
/// where none is named.
pub open spec fn audience_provider(
    provider: Seq<char>,
    audience: Seq<char>,
    audiences: Seq<char>,
) -> Result<Seq<Seq<char>>, ConfigurationError> {
    if ascii_lowercase(provider) == "static"@ {
        static_audiences(audience, audiences)
    } else {
        Err(ConfigurationError::InvalidAudienceProvider)
    }
}

/// The audience provider for the settings.
pub fn discover_audience_provider(
    provider: &Option<String>,
    audience: &Option<String>,
    audiences: &Option<String>,
) -> (discovered: Result<StaticAudienceProvider, ConfigurationError>)
    ensures
        provides(
            discovered,
            audience_provider(
                setting(*provider, "static"@),
                setting(*audience, ""@),
                setting(*audiences, ""@),
            ),
        ),
{
    let provider_str: String = setting_or(provider, "static");
    proof {
        reveal_strlit("static");
        assert(ascii_lowercase("static"@) =~= "static"@);
    }
    if eq_ignore_ascii_case(provider_str.as_str(), "static") {
        discover_static_provider(audience, audiences)
    } else {
        Err(ConfigurationError::InvalidAudienceProvider)
    }
}

} // verus!
