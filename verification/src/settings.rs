use vstd::prelude::*;

use crate::host::Host;
use crate::json::json_of;
use crate::loader::{load_from_str, ConfigError, ConfigSource};
use crate::nodes::{actions_of_entries, forest_matches_entries, Nodes};
use crate::schema::{doc_errors, doc_valid, ValidationError};
use crate::types::{config_of_json, default_config_data, Action, Config, ConfigData};

verus! {

/// Error type for settings loading operations.
#[derive(Debug)]
pub enum SettingsError {
    /// Home directory not found.
    NoHomeDir,
    /// Config file I/O failure; carries the diagnostic.
    ConfigIo(String),
    /// Config JSON parse failure (not valid JSON at all).
    ConfigParse(String),
    /// Config schema validation failure, every violation listed.
    ConfigValidation(Vec<ValidationError>),
    /// SSH config parse failure: the file exists but is malformed, which is
    /// reported, never silently turned into an empty host list.
    SshParse(String),
}

impl SettingsError {
    /// The error written as one line of text.
    pub fn message(&self) -> (r: String)
        ensures
            match self {
                SettingsError::NoHomeDir => r@ == "could not determine home directory"@,
                SettingsError::ConfigIo(e) => r@ == "failed to read config: "@ + e@,
                SettingsError::ConfigParse(e) => r@ == "invalid JSON: "@ + e@,
                SettingsError::ConfigValidation(es) => r@ == "config validation failed: "@
                    + crate::schema::errors_text(es.deep_view()),
                SettingsError::SshParse(e) => r@ == "failed to parse SSH config: "@ + e@,
            },
    {
        match self {
            SettingsError::NoHomeDir => String::from_str("could not determine home directory"),
            SettingsError::ConfigIo(e) => {
                let mut r = String::from_str("failed to read config: ");
                r.append(e.as_str());
                r
            },
            SettingsError::ConfigParse(e) => {
                let mut r = String::from_str("invalid JSON: ");
                r.append(e.as_str());
                r
            },
            SettingsError::ConfigValidation(es) => {
                let mut r = String::from_str("config validation failed: ");
                let lines = crate::schema::format_validation_errors(es);
                r.append(lines.as_str());
                r
            },
            SettingsError::SshParse(e) => {
                let mut r = String::from_str("failed to parse SSH config: ");
                r.append(e.as_str());
                r
            },
        }
    }
}

/// What the caller found at the SSH config file's location. Reading and
/// parsing the file is the host source's work; the aggregator decides what
/// each outcome means.
#[derive(Debug)]
pub enum HostSource {
    /// No SSH config file exists: a valid, common state, not an error.
    Missing,
    /// The host names read from the file, filtered and sorted upstream.
    Hosts(Vec<String>),
    /// The file exists but could not be parsed; carries the diagnostic.
    Malformed(String),
}

/// Complete application settings loaded from all sources: an immutable
/// snapshot, replaced wholesale on reload.
#[derive(Debug)]
pub struct Settings {
    /// Terminal emulator to use for commands.
    pub terminal: String,
    /// Editor for opening config files.
    pub editor: String,
    /// Actions from the configuration file, with O(1) id-based lookup.
    pub actions: Nodes<Action>,
    /// SSH hosts, with O(1) id-based lookup.
    pub hosts: Nodes<Host>,
}

/// Whether a settings value holds exactly the given configuration and host
/// names: preferences copied, the action container mirroring the config's
/// entry tree, and the host container holding the host names in order.
pub open spec fn settings_match(s: Settings, c: ConfigData, hostnames: Seq<String>) -> bool {
    &&& s.terminal@ == c.terminal
    &&& s.editor@ == c.editor
    &&& s.actions.inv()
    &&& forest_matches_entries(s.actions.spec_tree(), c.actions)
    &&& s.actions.spec_leaves().len() == actions_of_entries(c.actions).len()
    &&& s.hosts.inv()
    &&& s.hosts.spec_leaves().len() == hostnames.len()
    &&& forall|i: int|
        0 <= i < hostnames.len() ==> (#[trigger] s.hosts.spec_leaves()[i])@ == hostnames[i]@
}

/// What `Settings::load` must return once the configuration part
/// succeeded with `c`: the host outcome decides.
pub open spec fn settings_outcome(
    c: ConfigData,
    hosts: HostSource,
    r: Result<Settings, SettingsError>,
) -> bool {
    match hosts {
        HostSource::Malformed(m) => r matches Err(SettingsError::SshParse(e)) && e@ == m@,
        HostSource::Missing => r matches Ok(s) && settings_match(s, c, Seq::empty()),
        HostSource::Hosts(hs) => r matches Ok(s) && settings_match(s, c, hs@),
    }
}

impl Settings {
    /// Default terminal value when not specified in config.
    pub const DEFAULT_TERMINAL: &'static str = "default";

    /// Default editor value when not specified in config.
    pub const DEFAULT_EDITOR: &'static str = "default";

    /// Builds the settings snapshot from what was found at the two sources.
    ///
    /// A missing config file or SSH config file is not an error: defaults
    /// and an empty host list stand in. Every other failure is returned as
    /// a typed error, never swallowed; no partial settings are ever
    /// produced. The configuration is dealt with first: its failures win
    /// over a host-source failure.
    pub fn load(config: ConfigSource, hosts: HostSource) -> (r: Result<Settings, SettingsError>)
        ensures
            match config {
                ConfigSource::NoHomeDir => r matches Err(SettingsError::NoHomeDir),
                ConfigSource::Unreadable(m) => (r matches Err(SettingsError::ConfigIo(e)) && e@
                    == m@),
                ConfigSource::Missing => settings_outcome(default_config_data(), hosts, r),
                ConfigSource::Contents(s) => {
                    if json_of(s@) is None {
                        r matches Err(SettingsError::ConfigParse(_))
                    } else if !doc_valid(json_of(s@)->0) {
                        (r matches Err(SettingsError::ConfigValidation(es)) && es@.len() > 0
                            && es.deep_view() == doc_errors(json_of(s@)->0))
                    } else {
                        settings_outcome(config_of_json(json_of(s@)->0), hosts, r)
                    }
                },
            },
    {
        let cfg: Config = match config {
            ConfigSource::NoHomeDir => {
                return Err(SettingsError::NoHomeDir);
            },
            ConfigSource::Unreadable(m) => {
                return Err(SettingsError::ConfigIo(m));
            },
            ConfigSource::Missing => Config::default(),
            ConfigSource::Contents(s) => match load_from_str(s.as_str()) {
                Ok(c) => c,
                Err(ConfigError::InvalidJson(e)) => {
                    return Err(SettingsError::ConfigParse(e));
                },
                Err(ConfigError::ValidationFailed(es)) => {
                    return Err(SettingsError::ConfigValidation(es));
                },
            },
        };
        let hostnames: Vec<String> = match hosts {
            HostSource::Missing => Vec::new(),
            HostSource::Hosts(hs) => hs,
            HostSource::Malformed(m) => {
                return Err(SettingsError::SshParse(m));
            },
        };
        let r = Settings {
            terminal: cfg.terminal,
            editor: cfg.editor,
            actions: Nodes::from_entries(cfg.actions),
            hosts: Nodes::from_hostnames(hostnames),
        };
        Ok(r)
    }

    /// The path of the configuration file under the given home directory:
    /// the dotfile `.xshuttle.json`. Nothing stands in for a missing home
    /// directory.
    pub fn config_path(home: Option<&str>) -> (r: Option<String>)
        ensures
            match home {
                Some(h) => r matches Some(p) && p@ == h@ + "/.xshuttle.json"@,
                None => r is None,
            },
    {
        match home {
            Some(h) => {
                let p = String::from_str(h);
                Some(p.concat("/.xshuttle.json"))
            },
            None => None,
        }
    }
}

impl Default for Settings {
    /// The default snapshot: default preferences, no actions, no hosts.
    fn default() -> (r: Settings)
        ensures
            settings_match(r, default_config_data(), Seq::empty()),
    {
        let r = Settings {
            terminal: String::from_str("default"),
            editor: String::from_str("default"),
            actions: Nodes::from_entries(Vec::new()),
            hosts: Nodes::from_hostnames(Vec::new()),
        };
        proof {
            assert(crate::types::entry_views_of(Seq::<crate::types::Entry>::empty())
                =~= Seq::<crate::types::EntryData>::empty());
        }
        r
    }
}

/// The document written to a fresh configuration file: it satisfies the
/// schema and loads to the default configuration.
pub fn default_document() -> (r: &'static str)
    ensures
        r@ == "{\n  \"terminal\": \"default\",\n  \"editor\": \"default\",\n  \"actions\": []\n}\n"@,
{
    "{\n  \"terminal\": \"default\",\n  \"editor\": \"default\",\n  \"actions\": []\n}\n"
}

} // verus!
