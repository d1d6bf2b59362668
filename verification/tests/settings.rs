use xshuttle::{
    default_document, load_from_str, ConfigSource, Entry, HostSource, Settings, SettingsError,
};

fn contents(s: &str) -> ConfigSource {
    ConfigSource::Contents(s.to_string())
}

#[test]
fn test_config_path_returns_some() {
    let path = Settings::config_path(Some("/home/user"));
    if let Some(p) = path {
        assert!(p.ends_with(".xshuttle.json"));
    }
}

#[test]
fn test_config_path_none_without_home() {
    assert!(Settings::config_path(None).is_none());
}

#[test]
fn test_settings_default() {
    let settings = Settings::default();
    assert_eq!(settings.terminal, Settings::DEFAULT_TERMINAL);
    assert_eq!(settings.editor, Settings::DEFAULT_EDITOR);
    assert!(settings.actions.is_empty());
    assert!(settings.hosts.is_empty());
}

#[test]
fn config_test_load_from_str_empty() {
    let config = load_from_str("{}").unwrap();
    assert_eq!(config.terminal, "default");
    assert_eq!(config.editor, "default");
    assert!(config.actions.is_empty());
}

#[test]
fn config_test_load_from_str_with_terminal() {
    let config = load_from_str(r#"{"terminal": "kitty"}"#).unwrap();
    assert_eq!(config.terminal, "kitty");
}

#[test]
fn test_invalid_unknown_fields() {
    // Unknown fields cause validation error
    let result = Settings::load(
        contents(r#"{"terminal": "alacritty", "unknown": true}"#),
        HostSource::Missing,
    );
    assert!(matches!(result, Err(SettingsError::ConfigValidation(_))));
}

#[test]
fn test_invalid_terminal_type() {
    // Invalid type for terminal causes validation error
    let result = Settings::load(contents(r#"{"terminal": 123}"#), HostSource::Missing);
    assert!(matches!(result, Err(SettingsError::ConfigValidation(_))));
}

#[test]
fn test_invalid_editor_type() {
    // Invalid type for editor causes validation error
    let result = Settings::load(contents(r#"{"editor": ["vim", "nano"]}"#), HostSource::Missing);
    assert!(matches!(result, Err(SettingsError::ConfigValidation(_))));
}

#[test]
fn test_invalid_actions_type() {
    // Invalid type for actions causes validation error
    let result = Settings::load(contents(r#"{"actions": "not an array"}"#), HostSource::Missing);
    assert!(matches!(result, Err(SettingsError::ConfigValidation(_))));
}

#[test]
fn test_invalid_action_entry() {
    // Invalid action entries cause validation error
    let result = Settings::load(
        contents(
            r#"{"actions": [
                {"name": "Valid", "cmd": "echo valid"},
                {"name": "Missing cmd"}
            ]}"#,
        ),
        HostSource::Missing,
    );
    assert!(matches!(result, Err(SettingsError::ConfigValidation(_))));
}

#[test]
fn config_test_load_from_str_invalid_json() {
    let result = Settings::load(contents("not valid json"), HostSource::Missing);
    assert!(matches!(result, Err(SettingsError::ConfigParse(_))));
}

#[test]
fn config_test_flat_actions() {
    let config = load_from_str(r#"{"actions": [{"name": "Test", "cmd": "echo hello"}]}"#).unwrap();
    let entries = config.actions;
    assert_eq!(entries.len(), 1);
    match &entries[0] {
        Entry::Action(c) => {
            assert_eq!(c.name, "Test");
            assert_eq!(c.cmd, "echo hello");
        }
        Entry::Group(_) => panic!("Expected Action"),
    }
}

#[test]
fn config_test_nested_actions() {
    let config = load_from_str(
        r#"{
            "actions": [
                {"name": "Top Level", "cmd": "echo top"},
                {"Production": [
                    {"name": "Server 1", "cmd": "ssh server1"}
                ]}
            ]
        }"#,
    )
    .unwrap();
    let entries = config.actions;
    assert_eq!(entries.len(), 2);
    match &entries[0] {
        Entry::Action(c) => assert_eq!(c.name, "Top Level"),
        Entry::Group(_) => panic!("Expected Action"),
    }
    match &entries[1] {
        Entry::Group(group) => {
            assert_eq!(group.name, "Production");
            assert_eq!(group.entries.len(), 1);
        }
        Entry::Action(_) => panic!("Expected Group"),
    }
}

#[test]
fn config_test_deeply_nested_actions() {
    let config = load_from_str(
        r#"{
            "actions": [
                {"Level1": [
                    {"Level2": [
                        {"name": "Deep", "cmd": "echo deep"}
                    ]}
                ]}
            ]
        }"#,
    )
    .unwrap();
    let entries = config.actions;
    assert_eq!(entries.len(), 1);
    match &entries[0] {
        Entry::Group(l1) => {
            assert_eq!(l1.name, "Level1");
            match &l1.entries[0] {
                Entry::Group(l2) => {
                    assert_eq!(l2.name, "Level2");
                    match &l2.entries[0] {
                        Entry::Action(c) => assert_eq!(c.name, "Deep"),
                        Entry::Group(_) => panic!("Expected Action at level 3"),
                    }
                }
                Entry::Action(_) => panic!("Expected Group at level 2"),
            }
        }
        Entry::Action(_) => panic!("Expected Group at level 1"),
    }
}

#[test]
fn test_load_missing_config_uses_defaults() {
    let settings = Settings::load(ConfigSource::Missing, HostSource::Missing).unwrap();
    assert_eq!(settings.terminal, "default");
    assert_eq!(settings.editor, "default");
    assert!(settings.actions.is_empty());
    assert!(settings.hosts.is_empty());
}

#[test]
fn test_load_malformed_ssh_config_is_an_error() {
    let result = Settings::load(ConfigSource::Missing, HostSource::Malformed("bad line".into()));
    match result {
        Err(SettingsError::SshParse(m)) => assert_eq!(m, "bad line"),
        _ => panic!("Expected the host-source error"),
    }
}

#[test]
fn test_load_no_home_dir_is_fatal() {
    let result = Settings::load(ConfigSource::NoHomeDir, HostSource::Missing);
    assert!(matches!(result, Err(SettingsError::NoHomeDir)));
}

#[test]
fn test_load_unreadable_config_is_an_error() {
    let result = Settings::load(
        ConfigSource::Unreadable("permission denied".into()),
        HostSource::Missing,
    );
    match result {
        Err(SettingsError::ConfigIo(m)) => assert_eq!(m, "permission denied"),
        _ => panic!("Expected the I/O error"),
    }
}

#[test]
fn test_load_config_error_wins_over_host_error() {
    let result = Settings::load(
        contents("not valid json"),
        HostSource::Malformed("bad".into()),
    );
    assert!(matches!(result, Err(SettingsError::ConfigParse(_))));
}

#[test]
fn test_load_with_hosts_and_actions() {
    let settings = Settings::load(
        contents(r#"{"terminal": "kitty", "actions": [{"name": "A", "cmd": "a"}]}"#),
        HostSource::Hosts(vec!["alpha".into(), "beta".into()]),
    )
    .unwrap();
    assert_eq!(settings.terminal, "kitty");
    assert_eq!(settings.actions.len(), 1);
    assert_eq!(settings.hosts.len(), 2);
    assert_eq!(
        settings.hosts.get(xshuttle::NodeId::from_index(0)).unwrap().hostname,
        "alpha"
    );
}

#[test]
fn test_default_document_loads_to_defaults() {
    let config = load_from_str(default_document()).unwrap();
    assert_eq!(config.terminal, "default");
    assert_eq!(config.editor, "default");
    assert!(config.actions.is_empty());
}

#[test]
fn test_settings_error_messages() {
    let e = SettingsError::NoHomeDir;
    assert_eq!(e.message(), "could not determine home directory");
    let e = SettingsError::SshParse("line 3".into());
    assert_eq!(e.message(), "failed to parse SSH config: line 3");
    let e = SettingsError::ConfigIo("denied".into());
    assert_eq!(e.message(), "failed to read config: denied");
}

#[test]
fn test_validation_error_message_lists_every_violation() {
    let result = Settings::load(contents(r#"{"a": 1, "b": 2}"#), HostSource::Missing);
    match result {
        Err(SettingsError::ConfigValidation(errors)) => {
            let e = SettingsError::ConfigValidation(errors);
            assert_eq!(
                e.message(),
                "config validation failed: /a: unknown field; /b: unknown field"
            );
        }
        _ => panic!("Expected a validation error"),
    }
}
