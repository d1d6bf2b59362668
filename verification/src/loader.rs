use vstd::prelude::*;

use crate::json::{json_of, parse_json, JsonValue};
use crate::schema::{
    doc_errors, doc_valid, schema_text, validate, ValidationError, ValidationResult,
};
use crate::types::{config_from_json, config_of_json, default_config_data, Config, ConfigData};

verus! {

/// Error type for config parsing.
#[derive(Debug)]
pub enum ConfigError {
    /// The text is not valid JSON; carries the parser's diagnostic.
    InvalidJson(String),
    /// The text is well-formed JSON of the wrong shape.
    ValidationFailed(Vec<ValidationError>),
}

/// Error type for config loading operations.
#[derive(Debug)]
pub enum LoadError {
    /// The home directory could not be determined.
    NoHomeDir,
    /// The file exists but could not be read; carries the I/O diagnostic.
    Io(String),
    /// The file was read but does not hold a valid configuration.
    Config(ConfigError),
}

impl ConfigError {
    /// The error written as one line of text.
    pub fn message(&self) -> (r: String)
        ensures
            match self {
                ConfigError::InvalidJson(e) => r@ == "invalid JSON: "@ + e@,
                ConfigError::ValidationFailed(es) => r@ == "validation failed: "@
                    + crate::schema::errors_text(es.deep_view()),
            },
    {
        match self {
            ConfigError::InvalidJson(e) => {
                let mut r = String::from_str("invalid JSON: ");
                r.append(e.as_str());
                r
            },
            ConfigError::ValidationFailed(es) => {
                let mut r = String::from_str("validation failed: ");
                let lines = crate::schema::format_validation_errors(es);
                r.append(lines.as_str());
                r
            },
        }
    }
}

impl LoadError {
    /// The error written as one line of text.
    pub fn message(&self) -> (r: String)
        ensures
            match self {
                LoadError::NoHomeDir => r@ == "could not determine home directory"@,
                LoadError::Io(e) => r@ == "failed to read config: "@ + e@,
                LoadError::Config(e) => match e {
                    ConfigError::InvalidJson(m) => r@ == "invalid JSON: "@ + m@,
                    ConfigError::ValidationFailed(es) => r@ == "validation failed: "@
                        + crate::schema::errors_text(es.deep_view()),
                },
            },
    {
        match self {
            LoadError::NoHomeDir => String::from_str("could not determine home directory"),
            LoadError::Io(e) => {
                let mut r = String::from_str("failed to read config: ");
                r.append(e.as_str());
                r
            },
            LoadError::Config(e) => e.message(),
        }
    }
}

/// What the caller found at the configuration file's location. Resolving the
/// path and reading the file are the caller's work; the loaders decide what
/// each outcome means.
#[derive(Debug)]
pub enum ConfigSource {
    /// The home directory could not be determined.
    NoHomeDir,
    /// No file exists at the location.
    Missing,
    /// The file exists but could not be read; carries the I/O diagnostic.
    Unreadable(String),
    /// The text of the file.
    Contents(String),
}

/// Whether `text` parses as JSON and conforms to the configuration schema,
/// and `c` is the configuration read from it.
pub open spec fn loads_to(text: Seq<char>, c: ConfigData) -> bool {
    &&& json_of(text) is Some
    &&& doc_valid(json_of(text)->0)
    &&& c == config_of_json(json_of(text)->0)
}

/// Whether `text` parses as JSON but fails schema validation.
pub open spec fn fails_validation(text: Seq<char>) -> bool {
    json_of(text) is Some && !doc_valid(json_of(text)->0)
}

/// Loads a configuration from text: parse as JSON, validate against the
/// schema, then decode the typed tree. Returns `Ok` exactly when the text is
/// valid JSON of the schema's shape; a syntax failure and a shape failure are
/// distinct errors, and the latter carries every violation found.
pub fn load_from_str(s: &str) -> (r: Result<Config, ConfigError>)
    ensures
        match r {
            Ok(c) => loads_to(s@, c@),
            Err(ConfigError::InvalidJson(_)) => json_of(s@) is None,
            Err(ConfigError::ValidationFailed(es)) => {
                &&& fails_validation(s@)
                &&& es@.len() > 0
                &&& es.deep_view() == doc_errors(json_of(s@)->0)
            },
        },
{
    let value = match parse_json(s) {
        Ok(v) => v,
        Err(e) => {
            return Err(ConfigError::InvalidJson(e));
        },
    };
    match validate(&value) {
        ValidationResult::Valid => Ok(config_from_json(&value)),
        ValidationResult::Invalid(errors) => Err(ConfigError::ValidationFailed(errors)),
    }
}

/// Loads a configuration from what was found at the config file's location.
/// A missing file is not an error: the defaults stand in. Every other
/// failure is reported, never swallowed.
pub fn load(source: ConfigSource) -> (r: Result<Config, LoadError>)
    ensures
        match source {
            ConfigSource::NoHomeDir => r matches Err(LoadError::NoHomeDir),
            ConfigSource::Missing => r matches Ok(c) && c@ == default_config_data(),
            ConfigSource::Unreadable(m) => r matches Err(LoadError::Io(e)) && e@ == m@,
            ConfigSource::Contents(s) => match r {
                Ok(c) => loads_to(s@, c@),
                Err(LoadError::Config(ConfigError::InvalidJson(_))) => json_of(s@) is None,
                Err(LoadError::Config(ConfigError::ValidationFailed(es))) => {
                    &&& fails_validation(s@)
                    &&& es@.len() > 0
                    &&& es.deep_view() == doc_errors(json_of(s@)->0)
                },
                _ => false,
            },
        },
{
    match source {
        ConfigSource::NoHomeDir => Err(LoadError::NoHomeDir),
        ConfigSource::Missing => Ok(Config::default()),
        ConfigSource::Unreadable(m) => Err(LoadError::Io(m)),
        ConfigSource::Contents(s) => match load_from_str(s.as_str()) {
            Ok(c) => Ok(c),
            Err(e) => Err(LoadError::Config(e)),
        },
    }
}

impl Config {
    /// Returns the embedded JSON schema as a string.
    pub fn schema() -> (r: &'static str)
        ensures
            r@ == schema_text(),
    {
        crate::schema::schema()
    }

    /// Validates a JSON value against the config schema.
    pub fn validate_json(value: &JsonValue) -> (r: ValidationResult)
        ensures
            match r {
                ValidationResult::Valid => doc_valid(value@),
                ValidationResult::Invalid(es) => {
                    &&& !doc_valid(value@)
                    &&& es@.len() > 0
                    &&& es.deep_view() == doc_errors(value@)
                },
            },
    {
        validate(value)
    }

    /// Loads a configuration from text, falling back to the default
    /// configuration when the text is rejected for any reason.
    pub fn load_from_str(s: &str) -> (r: Config)
        ensures
            forall|c: ConfigData| loads_to(s@, c) ==> r@ == c,
            !(exists|c: ConfigData| loads_to(s@, c)) ==> r@ == default_config_data(),
    {
        match load_from_str(s) {
            Ok(c) => c,
            Err(_) => Config::default(),
        }
    }

    /// Loads a configuration from what was found at the config file's
    /// location, falling back to the default configuration on any failure.
    pub fn load(source: ConfigSource) -> (r: Config)
        ensures
            match source {
                ConfigSource::Contents(s) => {
                    &&& forall|c: ConfigData| loads_to(s@, c) ==> r@ == c
                    &&& !(exists|c: ConfigData| loads_to(s@, c)) ==> r@ == default_config_data()
                },
                _ => r@ == default_config_data(),
            },
    {
        match source {
            ConfigSource::Contents(s) => Config::load_from_str(s.as_str()),
            _ => Config::default(),
        }
    }
}

impl core::str::FromStr for Config {
    type Err = ConfigError;

    fn from_str(s: &str) -> Result<Config, ConfigError> {
        load_from_str(s)
    }
}

} // verus!
