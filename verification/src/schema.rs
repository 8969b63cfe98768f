//! The service configuration: which team's tokens to validate, with static
//! or fetched keys, where to listen, when to refresh keys, and how strictly
//! to hold tokens to their time constraints.
use vstd::prelude::*;
use rust_cfzt_validator::api::TeamKeys;
use crate::sockets::{listen_outcome_matches, parse_url, parsed_url, ListenTarget, ListenerError};

verus! {

#[verifier::external_type_specification]
#[verifier::external_body]
pub struct ExTeamKeys(rust_cfzt_validator::api::TeamKeys);

/// How a time constraint of a token (not-before, expiry) is enforced.
#[derive(Debug, Clone, Copy, PartialEq, Eq, Structural)]
pub enum TimeConstraintMode {
    /// Strict validation.
    Strict,
    /// Lax validation (ignores the constraint).
    Lax,
}

/// A validator for a single team, with keys given up front or fetched.
pub struct StaticTeamValidatorConfiguration {
    pub team_name: String,
    pub static_keys: Option<TeamKeys>,
}

/// The message of `TeamKeys::from_str`'s error for a team's keys text, or
/// `None` when it accepts the text.
pub uninterp spec fn team_keys_error(team_name: Seq<char>, keys_json: Seq<char>) -> Option<Seq<char>>;

/// Calls `rust_cfzt_validator::api::TeamKeys::from_str`, which parses a JSON
/// text of signing keys for a team. Claimed: it fails exactly when
/// `team_keys_error` of the arguments is some, with that message. The keys
/// it returns are opaque here and left unsaid.
#[verifier::external_body]
fn team_keys_from_str(team_name: &str, keys_json: &str) -> (r: Result<TeamKeys, String>)
    ensures
        match r {
            Ok(_) => team_keys_error(team_name@, keys_json@) is None,
            Err(e) => team_keys_error(team_name@, keys_json@) == Some(e@),
        },
{
    match TeamKeys::from_str(team_name, keys_json) {
        Ok(keys) => Ok(keys),
        Err(e) => Err(e.to_string()),
    }
}

/// Whether a configuration outcome is the one for `team_name` and the
/// outcome of parsing its keys (`None` when no keys were given): an error
/// in parsing is reported with the prefix `Error retrieving static keys: `.
pub open spec fn team_configuration_outcome(
    r: Result<StaticTeamValidatorConfiguration, String>,
    team_name: Seq<char>,
    parsed: Option<Option<Seq<char>>>,
) -> bool {
    match parsed {
        None => r matches Ok(c) && c.team_name@ == team_name && c.static_keys is None,
        Some(None) => r matches Ok(c) && c.team_name@ == team_name && c.static_keys is Some,
        Some(Some(e)) => r matches Err(m) && m@ == "Error retrieving static keys: "@ + e,
    }
}

impl StaticTeamValidatorConfiguration {
    /// The configuration for `team_name` given the outcome of parsing its
    /// static keys (`None` when none were given).
    pub fn with_parsed_keys(team_name: &str, parsed: Option<Result<TeamKeys, String>>) -> (r: Result<Self, String>)
        ensures
            team_configuration_outcome(r, team_name@, match parsed {
                None => None,
                Some(Ok(_)) => Some(None),
                Some(Err(e)) => Some(Some(e@)),
            }),
    {
        match parsed {
            None => Ok(StaticTeamValidatorConfiguration { team_name: team_name.to_owned(), static_keys: None }),
            Some(Ok(keys)) => Ok(StaticTeamValidatorConfiguration { team_name: team_name.to_owned(), static_keys: Some(keys) }),
            Some(Err(e)) => {
                let mut m = String::new();
                m.append("Error retrieving static keys: ");
                m.append(e.as_str());
                Err(m)
            },
        }
    }

    /// The configuration for `team_name`, its keys parsed from the static
    /// keys text when one is given, fetched later otherwise.
    pub fn from_settings(team_name: &str, static_keys: Option<&str>) -> (r: Result<Self, String>)
        ensures
            team_configuration_outcome(r, team_name@, match static_keys {
                None => None,
                Some(k) => Some(team_keys_error(team_name@, k@)),
            }),
    {
        match static_keys {
            None => Self::with_parsed_keys(team_name, None),
            Some(k) => {
                let parsed = team_keys_from_str(team_name, k);
                Self::with_parsed_keys(team_name, Some(parsed))
            },
        }
    }

    /// Whether the signing keys were given up front.
    pub fn is_static_keys(&self) -> (r: bool)
        ensures
            r == self.static_keys is Some,
    {
        self.static_keys.is_some()
    }
}

/// The validator configuration.
pub enum ValidatorConfiguration {
    /// A validator for a single team.
    Team(StaticTeamValidatorConfiguration),
}

impl ValidatorConfiguration {
    /// The name of the configured team.
    pub open spec fn spec_team_name(&self) -> Seq<char> {
        match self {
            ValidatorConfiguration::Team(config) => config.team_name@,
        }
    }

    /// Whether keys must be fetched and refreshed: when none were given up
    /// front.
    pub open spec fn spec_requires_refresh(&self) -> bool {
        match self {
            ValidatorConfiguration::Team(config) => config.static_keys is None,
        }
    }

    /// The name of the configured team.
    pub fn get_default_team_name(&self) -> (r: String)
        ensures
            r@ == self.spec_team_name(),
    {
        match self {
            ValidatorConfiguration::Team(config) => config.team_name.clone(),
        }
    }

    /// Whether keys must be fetched and refreshed.
    pub fn requires_refresh(&self) -> (r: bool)
        ensures
            r == self.spec_requires_refresh(),
            self matches ValidatorConfiguration::Team(t) && (r <==> t.static_keys is None),
    {
        match self {
            ValidatorConfiguration::Team(config) => !config.is_static_keys(),
        }
    }
}

/// The application configuration.
pub struct Configuration {
    /// Listener URL (`tcp://host:port` or `unix:///path/to/socket`).
    pub listener: String,
    /// Validator configuration.
    pub validator: ValidatorConfiguration,
    /// Cron schedule for key synchronization.
    pub sync_schedule: String,
    /// Not-before validation mode.
    pub nbf_validation: TimeConstraintMode,
    /// Expiry validation mode.
    pub exp_validation: TimeConstraintMode,
}

impl Configuration {
    /// A configuration from its parts.
    pub fn new(
        listener: &str,
        validator_config: ValidatorConfiguration,
        sync_schedule: &str,
        nbf_validation: &TimeConstraintMode,
        exp_validation: &TimeConstraintMode,
    ) -> (c: Self)
        ensures
            c.listener@ == listener@,
            c.validator == validator_config,
            c.sync_schedule@ == sync_schedule@,
            c.nbf_validation == *nbf_validation,
            c.exp_validation == *exp_validation,
    {
        Configuration {
            listener: listener.to_owned(),
            validator: validator_config,
            sync_schedule: sync_schedule.to_owned(),
            nbf_validation: *nbf_validation,
            exp_validation: *exp_validation,
        }
    }

    /// A configuration for a single team.
    pub fn new_single_team_configuration(
        listener: &str,
        team_name: &str,
        static_keys: Option<TeamKeys>,
        sync_schedule: &str,
        nbf_validation: &TimeConstraintMode,
        exp_validation: &TimeConstraintMode,
    ) -> (c: Self)
        ensures
            c.listener@ == listener@,
            c.validator matches ValidatorConfiguration::Team(t) && t.team_name@ == team_name@
                && t.static_keys == static_keys,
            c.sync_schedule@ == sync_schedule@,
            c.nbf_validation == *nbf_validation,
            c.exp_validation == *exp_validation,
    {
        Configuration::new(
            listener,
            ValidatorConfiguration::Team(
                StaticTeamValidatorConfiguration { team_name: team_name.to_owned(), static_keys },
            ),
            sync_schedule,
            nbf_validation,
            exp_validation,
        )
    }

    /// Where the listener URL says to listen: an error when the URL does not
    /// parse, and otherwise the target of its parts.
    pub fn listener_target(&self) -> (r: Result<ListenTarget, ListenerError>)
        ensures
            match parsed_url(self.listener@) {
                None => r matches Err(ListenerError::UrlParseError(_)),
                Some(parts) => listen_outcome_matches(r, parts),
            },
    {
        match parse_url(self.listener.as_str()) {
            Ok(parts) => ListenTarget::from_url(&parts),
            Err(e) => Err(ListenerError::UrlParseError(e)),
        }
    }
}

/// Keys are fetched and refreshed exactly when none were given up front,
/// and the configured team is the one named in the configuration.
pub proof fn lemma_refresh_exactly_without_static_keys(c: ValidatorConfiguration)
    ensures
        c matches ValidatorConfiguration::Team(t) ==> (c.spec_requires_refresh() <==> t.static_keys is None),
        c matches ValidatorConfiguration::Team(t) ==> c.spec_team_name() == t.team_name@,
{
}

} // verus!
