use cfzt_extauthz::config::audience::discovery::{
    discover_audience, discover_audience_provider, discover_audiences, discover_static_provider,
};
use cfzt_extauthz::config::audience::schema::{AudienceProvider, StaticAudienceProvider};
use cfzt_extauthz::config::bootstrap::discovery::{
    bool_parser, discover_bootstrap_configuration, BootstrapSettings,
};
use cfzt_extauthz::config::bootstrap::schema::{
    CommonValidatorConfiguration, Configuration, StaticTeamValidatorConfiguration,
    TimeConstraintMode, ValidatorConfiguration,
};
use cfzt_extauthz::config::{setting_or, ConfigurationError};
use cfzt_extauthz::server::validator::{new_validator, KeySource};

fn some(text: &str) -> Option<String> {
    Some(text.to_string())
}

fn strings(items: &[&str]) -> Vec<String> {
    items.iter().map(|s| s.to_string()).collect()
}

fn settings() -> BootstrapSettings {
    BootstrapSettings {
        listener: None,
        static_keys: None,
        team_name: some("molten"),
        nbf_validation: None,
        exp_validation: None,
        sync_schedule: None,
        enable_proxy_discovery: None,
    }
}

#[test]
fn a_list_of_audiences_is_kept_in_order() {
    let provider = discover_audience_provider(&None, &None, &some("a,b,c")).unwrap();
    assert_eq!(provider.get_audiences(), strings(&["a", "b", "c"]));
    assert_eq!(provider.get_audiences(), strings(&["a", "b", "c"]));
}

#[test]
fn a_single_audience_is_taken_whole() {
    let provider = discover_audience_provider(&None, &some("a,b,c"), &None).unwrap();
    assert_eq!(provider.get_audiences(), strings(&["a,b,c"]));
}

#[test]
fn no_audience_is_an_error() {
    assert!(matches!(
        discover_audience_provider(&None, &None, &None),
        Err(ConfigurationError::NoAudienceConfigured)
    ));
    assert!(matches!(
        discover_audience_provider(&some("static"), &some(""), &some("")),
        Err(ConfigurationError::NoAudienceConfigured)
    ));
    assert!(matches!(
        discover_static_provider(&None, &None),
        Err(ConfigurationError::NoAudienceConfigured)
    ));
}

#[test]
fn both_sources_of_audiences_are_an_error() {
    assert!(matches!(
        discover_audience_provider(&None, &some("one"), &some("a,b")),
        Err(ConfigurationError::NoAudienceConfigured)
    ));
    assert!(matches!(
        discover_static_provider(&some("one"), &some("a,b")),
        Err(ConfigurationError::NoAudienceConfigured)
    ));
}

#[test]
fn the_provider_is_named_without_regard_to_case() {
    for name in ["static", "Static", "STATIC", "sTaTiC"] {
        let provider = discover_audience_provider(&some(name), &some("one"), &None).unwrap();
        assert_eq!(provider.get_audiences(), strings(&["one"]));
    }
}

#[test]
fn an_unknown_provider_is_an_error() {
    for name in ["dynamic", "", "static ", "statique"] {
        assert!(matches!(
            discover_audience_provider(&some(name), &some("one"), &None),
            Err(ConfigurationError::InvalidAudienceProvider)
        ));
    }
}

#[test]
fn an_empty_setting_gives_no_provider() {
    assert!(discover_audience(&None).is_none());
    assert!(discover_audience(&some("")).is_none());
    assert!(discover_audiences(&None).is_none());
    assert!(discover_audiences(&some("")).is_none());
    assert_eq!(discover_audience(&some("x")).unwrap().get_audiences(), strings(&["x"]));
    assert_eq!(
        discover_audiences(&some("x,,y")).unwrap().get_audiences(),
        strings(&["x", "", "y"])
    );
    assert_eq!(discover_audiences(&some(",")).unwrap().get_audiences(), strings(&["", ""]));
}

#[test]
fn static_providers_hand_out_what_they_were_given() {
    let provider = StaticAudienceProvider::new(strings(&["x", "y"]));
    assert_eq!(provider.get_audiences(), strings(&["x", "y"]));
    let single = StaticAudienceProvider::new_single_aud("only");
    assert_eq!(single.get_audiences(), strings(&["only"]));
    let boxed: Box<dyn AudienceProvider> = Box::new(single);
    assert_eq!(boxed.get_audiences(), strings(&["only"]));
}

#[test]
fn modes_are_read_without_regard_to_case() {
    for text in ["Strict", "strict", "STRICT", "sTrIcT"] {
        assert_eq!(TimeConstraintMode::from_str(text), Ok(TimeConstraintMode::Strict));
    }
    for text in ["lax", "Lax", "LAX"] {
        assert_eq!(TimeConstraintMode::from_str(text), Ok(TimeConstraintMode::Lax));
    }
}

#[test]
fn other_modes_are_errors() {
    for text in ["", "stric", "strict ", " lax", "loose", "strictlax", "true", "\u{212A}"] {
        assert_eq!(
            TimeConstraintMode::from_str(text),
            Err(ConfigurationError::InvalidTimeConstraint)
        );
    }
}

#[test]
fn modes_are_parsed_through_the_standard_trait_too() {
    assert_eq!("Strict".parse::<TimeConstraintMode>(), Ok(TimeConstraintMode::Strict));
    assert_eq!("LAX".parse::<TimeConstraintMode>(), Ok(TimeConstraintMode::Lax));
    assert_eq!(
        "other".parse::<TimeConstraintMode>(),
        Err(ConfigurationError::InvalidTimeConstraint)
    );
}

#[test]
fn settings_have_their_defaults() {
    let configuration = discover_bootstrap_configuration(&settings()).unwrap();
    assert_eq!(configuration.listener, "tcp://[::1]:10000");
    assert_eq!(configuration.sync_schedule, "0 0 0 * * *");
    assert_eq!(configuration.nbf_validation, TimeConstraintMode::Strict);
    assert_eq!(configuration.exp_validation, TimeConstraintMode::Strict);
    assert_eq!(configuration.validator.get_default_team_name(), "molten");
    assert!(configuration.validator.requires_refresh());
    match &configuration.validator {
        ValidatorConfiguration::Team(team, common) => {
            assert_eq!(team.team_name, "molten");
            assert_eq!(team.static_keys, None);
            assert!(!team.is_static_keys());
            assert!(!common.proxy_discovery);
        }
    }
}

#[test]
fn settings_that_are_given_are_taken() {
    let given = BootstrapSettings {
        listener: some("unix:/tmp/authz.sock"),
        static_keys: some("{\"keys\": []}"),
        team_name: some("team"),
        nbf_validation: some("LAX"),
        exp_validation: some("Strict"),
        sync_schedule: some("0 */5 * * * *"),
        enable_proxy_discovery: some("on"),
    };
    let configuration = discover_bootstrap_configuration(&given).unwrap();
    assert_eq!(configuration.listener, "unix:/tmp/authz.sock");
    assert_eq!(configuration.sync_schedule, "0 */5 * * * *");
    assert_eq!(configuration.nbf_validation, TimeConstraintMode::Lax);
    assert_eq!(configuration.exp_validation, TimeConstraintMode::Strict);
    assert!(!configuration.validator.requires_refresh());
    match &configuration.validator {
        ValidatorConfiguration::Team(team, common) => {
            assert_eq!(team.team_name, "team");
            assert_eq!(team.static_keys, some("{\"keys\": []}"));
            assert!(team.is_static_keys());
            assert!(common.proxy_discovery);
        }
    }
}

#[test]
fn empty_static_keys_are_no_keys() {
    let mut given = settings();
    given.static_keys = some("");
    let configuration = discover_bootstrap_configuration(&given).unwrap();
    assert!(configuration.validator.requires_refresh());
    assert_eq!(configuration.refresh_schedule(), some("0 0 0 * * *"));
}

#[test]
fn a_missing_team_name_is_an_error() {
    let mut given = settings();
    given.team_name = None;
    given.nbf_validation = some("nonsense");
    assert!(matches!(
        discover_bootstrap_configuration(&given),
        Err(ConfigurationError::MissingTeamName)
    ));
}

#[test]
fn an_unknown_mode_is_an_error() {
    let mut given = settings();
    given.nbf_validation = some("sometimes");
    assert!(matches!(
        discover_bootstrap_configuration(&given),
        Err(ConfigurationError::InvalidTimeConstraint)
    ));
    let mut given = settings();
    given.exp_validation = some("");
    assert!(matches!(
        discover_bootstrap_configuration(&given),
        Err(ConfigurationError::InvalidTimeConstraint)
    ));
}

#[test]
fn yes_on_and_enabled_say_yes() {
    assert!(bool_parser("yes"));
    assert!(bool_parser("on"));
    assert!(bool_parser("enabled"));
    for text in ["", "Yes", "ON", "true", "1", "no", "off", "enabled "] {
        assert!(!bool_parser(text));
    }
    for (text, expected) in [("yes", true), ("enabled", true), ("false", false), ("YES", false)] {
        let mut given = settings();
        given.enable_proxy_discovery = some(text);
        let configuration = discover_bootstrap_configuration(&given).unwrap();
        match configuration.validator {
            ValidatorConfiguration::Team(_, common) => {
                assert_eq!(common.proxy_discovery, expected)
            }
        }
    }
}

#[test]
fn a_refresh_job_is_registered_only_without_pinned_keys() {
    let pinned = Configuration::new_single_team_configuration(
        "tcp://[::1]:10000",
        "team",
        some("keys"),
        "0 0 0 * * *",
        TimeConstraintMode::Strict,
        TimeConstraintMode::Strict,
        false,
    );
    assert!(!pinned.validator.requires_refresh());
    assert_eq!(pinned.refresh_schedule(), None);
    let fetched = Configuration::new_single_team_configuration(
        "tcp://[::1]:10000",
        "team",
        None,
        "0 30 4 * * *",
        TimeConstraintMode::Strict,
        TimeConstraintMode::Strict,
        false,
    );
    assert!(fetched.validator.requires_refresh());
    assert_eq!(fetched.refresh_schedule(), some("0 30 4 * * *"));
}

#[test]
fn a_configuration_holds_its_parts() {
    let validator = ValidatorConfiguration::Team(
        StaticTeamValidatorConfiguration { team_name: "team".to_string(), static_keys: None },
        CommonValidatorConfiguration { proxy_discovery: true },
    );
    let configuration = Configuration::new(
        "tcp://127.0.0.1:9000",
        validator,
        "* * * * * *",
        TimeConstraintMode::Lax,
        TimeConstraintMode::Strict,
    );
    assert_eq!(configuration.listener, "tcp://127.0.0.1:9000");
    assert_eq!(configuration.sync_schedule, "* * * * * *");
    assert_eq!(configuration.nbf_validation, TimeConstraintMode::Lax);
    assert_eq!(configuration.exp_validation, TimeConstraintMode::Strict);
    assert_eq!(configuration.validator.get_default_team_name(), "team");
}

#[test]
fn the_validator_is_planned_from_the_configuration() {
    let pinned = Configuration::new_single_team_configuration(
        "l",
        "team",
        some("the keys"),
        "s",
        TimeConstraintMode::Strict,
        TimeConstraintMode::Strict,
        true,
    );
    let plan = pinned.new_validator();
    assert_eq!(plan.team_name, "team");
    assert!(plan.proxy_discovery);
    assert!(!plan.requires_refresh());
    assert!(matches!(&plan.key_source, KeySource::Pinned(keys) if keys == "the keys"));
    let fetched = Configuration::new_single_team_configuration(
        "l",
        "other",
        None,
        "s",
        TimeConstraintMode::Strict,
        TimeConstraintMode::Strict,
        false,
    );
    let plan = new_validator(&fetched.validator);
    assert_eq!(plan.team_name, "other");
    assert!(!plan.proxy_discovery);
    assert!(plan.requires_refresh());
    assert!(matches!(plan.key_source, KeySource::Fetched));
}

#[test]
fn configuration_errors_have_their_messages() {
    assert_eq!(
        ConfigurationError::NoAudienceConfigured.message(),
        "No audience configured for static provider"
    );
    assert_eq!(ConfigurationError::InvalidAudienceProvider.message(), "Invalid audience provider");
    assert_eq!(
        ConfigurationError::InvalidTimeConstraint.message(),
        "invalid time constraint value"
    );
    assert_eq!(ConfigurationError::MissingTeamName.message(), "environment variable not found");
}

#[test]
fn a_setting_falls_back_to_its_default() {
    assert_eq!(setting_or(&None, "fallback"), "fallback");
    assert_eq!(setting_or(&some("given"), "fallback"), "given");
    assert_eq!(setting_or(&some(""), "fallback"), "");
}
