use xshuttle::{Config, ConfigError, Entry};

#[test]
fn lib_test_default_config() {
    let config = Config::default();
    assert_eq!(config.terminal, "default");
}

#[test]
fn types_test_default_config() {
    let config = Config::default();
    assert_eq!(config.terminal, "default");
    assert_eq!(config.editor, "default");
    assert!(config.actions.is_empty());
}

#[test]
fn config_test_default_config() {
    let config = Config::default();
    assert_eq!(config.terminal, "default");
}

#[test]
fn lib_test_load_from_str_empty() {
    let config = Config::load_from_str("{}");
    assert_eq!(config.terminal, "default");
}

#[test]
fn lib_test_load_from_str_with_terminal() {
    let config = Config::load_from_str(r#"{"terminal": "kitty"}"#);
    assert_eq!(config.terminal, "kitty");
}

#[test]
fn lib_test_load_from_str_rejects_unknown_fields() {
    let config = Config::load_from_str(r#"{"terminal": "alacritty", "unknown": true}"#);
    // Unknown fields cause validation failure, returning default
    assert_eq!(config.terminal, "default");
}

#[test]
fn lib_test_load_from_str_invalid_json_returns_default() {
    let config = Config::load_from_str("not valid json");
    assert_eq!(config.terminal, "default");
}

#[test]
fn config_test_load_from_str_invalid_json_returns_default() {
    let config = Config::load_from_str("not valid json");
    assert_eq!(config.terminal, "default");
}

#[test]
fn lib_test_flat_actions() {
    let config = Config::load_from_str(r#"{"actions": [{"name": "Test", "cmd": "echo hello"}]}"#);
    assert_eq!(config.actions.len(), 1);
    match &config.actions[0] {
        Entry::Action(c) => {
            assert_eq!(c.name, "Test");
            assert_eq!(c.cmd, "echo hello");
        }
        _ => panic!("Expected Action"),
    }
}

#[test]
fn lib_test_nested_actions() {
    let config = Config::load_from_str(
        r#"{
            "actions": [
                {"name": "Top Level", "cmd": "echo top"},
                {"Production": [
                    {"name": "Server 1", "cmd": "ssh server1"}
                ]}
            ]
        }"#,
    );
    assert_eq!(config.actions.len(), 2);
    match &config.actions[0] {
        Entry::Action(c) => assert_eq!(c.name, "Top Level"),
        _ => panic!("Expected Action"),
    }
    match &config.actions[1] {
        Entry::Group(group) => {
            assert_eq!(group.name, "Production");
            assert_eq!(group.entries.len(), 1);
        }
        _ => panic!("Expected Group"),
    }
}

#[test]
fn lib_test_deeply_nested_actions() {
    let config = Config::load_from_str(
        r#"{
            "actions": [
                {"Level1": [
                    {"Level2": [
                        {"name": "Deep", "cmd": "echo deep"}
                    ]}
                ]}
            ]
        }"#,
    );
    assert_eq!(config.actions.len(), 1);
    match &config.actions[0] {
        Entry::Group(l1) => {
            assert_eq!(l1.name, "Level1");
            match &l1.entries[0] {
                Entry::Group(l2) => {
                    assert_eq!(l2.name, "Level2");
                    match &l2.entries[0] {
                        Entry::Action(c) => assert_eq!(c.name, "Deep"),
                        _ => panic!("Expected Action at level 3"),
                    }
                }
                _ => panic!("Expected Group at level 2"),
            }
        }
        _ => panic!("Expected Group at level 1"),
    }
}

#[test]
fn lib_test_group_with_multiple_children() {
    let config = Config::load_from_str(
        r#"{
            "actions": [
                {"Servers": [
                    {"name": "Server 1", "cmd": "ssh server1"},
                    {"name": "Server 2", "cmd": "ssh server2"},
                    {"name": "Server 3", "cmd": "ssh server3"}
                ]}
            ]
        }"#,
    );
    assert_eq!(config.actions.len(), 1);
    match &config.actions[0] {
        Entry::Group(group) => {
            assert_eq!(group.name, "Servers");
            assert_eq!(group.entries.len(), 3);
        }
        _ => panic!("Expected Group"),
    }
}

#[test]
fn lib_test_from_str_valid() {
    let config: Config = r#"{"terminal": "kitty"}"#.parse().unwrap();
    assert_eq!(config.terminal, "kitty");
}

#[test]
fn lib_test_from_str_invalid_json() {
    let result: Result<Config, _> = "not valid json".parse();
    assert!(matches!(result, Err(ConfigError::InvalidJson(_))));
}

#[test]
fn lib_test_from_str_validation_failed() {
    let result: Result<Config, _> = r#"{"unknown": true}"#.parse();
    assert!(matches!(result, Err(ConfigError::ValidationFailed(_))));
}
