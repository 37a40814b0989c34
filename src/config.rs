//! The exporter's configuration and the checks it must pass before startup.
use vstd::prelude::*;
use crate::constants::{DEFAULT_OWM_UNITS, HTTP_CLIENT_TIMEOUT};
use vstd::string::StringExecFns;

verus! {

/// What the exporter is told to do: which locations to query, with which
/// credential, and how long an outbound request may take.
pub struct Configuration {
    pub api_key: String,
    pub locations: Vec<String>,
    /// Seconds per outbound request; the default applies when absent.
    pub timeout: Option<u64>,
    /// Unit system requested from the weather service; `metric` when absent.
    pub units: Option<String>,
}

/// Why a configuration cannot be used; each is fatal at startup.
#[derive(Clone, Copy, Debug, PartialEq, Eq, Structural)]
pub enum ConfigurationError {
    MissingApiKey,
    NoLocations,
}

/// The message that reports a configuration error.
pub open spec fn configuration_error_text(e: ConfigurationError) -> Seq<char> {
    match e {
        ConfigurationError::MissingApiKey => "Missing API key"@,
        ConfigurationError::NoLocations => "No locations to query"@,
    }
}

impl ConfigurationError {
    pub fn message(&self) -> (r: String)
        ensures
            r@ == configuration_error_text(*self),
    {
        match self {
            ConfigurationError::MissingApiKey => String::from_str("Missing API key"),
            ConfigurationError::NoLocations => String::from_str("No locations to query"),
        }
    }
}

/// The verdict on a configuration: the credential must be non-empty, then the
/// list of locations.
pub open spec fn configuration_verdict(cfg: Configuration) -> Result<(), ConfigurationError> {
    if cfg.api_key@.len() == 0 {
        Err(ConfigurationError::MissingApiKey)
    } else if cfg.locations@.len() == 0 {
        Err(ConfigurationError::NoLocations)
    } else {
        Ok(())
    }
}

pub fn validate_configuration(cfg: &Configuration) -> (r: Result<(), ConfigurationError>)
    ensures
        r == configuration_verdict(*cfg),
{
    if cfg.api_key.as_str().is_empty() {
        return Err(ConfigurationError::MissingApiKey);
    }
    if cfg.locations.len() == 0 {
        return Err(ConfigurationError::NoLocations);
    }
    Ok(())
}

impl Configuration {
    /// Seconds an outbound request may take.
    pub fn effective_timeout(&self) -> (r: u64)
        ensures
            r == match self.timeout {
                Some(t) => t,
                None => HTTP_CLIENT_TIMEOUT,
            },
    {
        match self.timeout {
            Some(t) => t,
            None => HTTP_CLIENT_TIMEOUT,
        }
    }

    /// The unit system requested from the weather service.
    pub fn effective_units(&self) -> (r: String)
        ensures
            r@ == match self.units {
                Some(u) => u@,
                None => DEFAULT_OWM_UNITS@,
            },
    {
        match &self.units {
            Some(u) => u.clone(),
            None => String::from_str(DEFAULT_OWM_UNITS),
        }
    }
}

} // verus!
