use xshuttle::{load_from_str, Action, Entry, Group, JsonValue};

fn to_value(v: &JsonValue) -> serde_json::Value {
    match v {
        JsonValue::Null => serde_json::Value::Null,
        JsonValue::Bool(b) => serde_json::Value::Bool(*b),
        JsonValue::Number(n) => serde_json::Value::Number(n.parse().unwrap()),
        JsonValue::Text(s) => serde_json::Value::String(s.clone()),
        JsonValue::Array(items) => serde_json::Value::Array(items.iter().map(to_value).collect()),
        JsonValue::Object(pairs) => serde_json::Value::Object(
            pairs.iter().map(|(k, v)| (k.clone(), to_value(v))).collect(),
        ),
    }
}

#[test]
fn lib_test_group_serialization_roundtrip() {
    let original = r#"{"terminal":"default","editor":"default","actions":[{"Production":[{"name":"Server","cmd":"ssh prod"}]}]}"#;
    let config = load_from_str(original).unwrap();
    let serialized = to_value(&config.to_json());

    // Parse both and compare structure
    let orig_value: serde_json::Value = serde_json::from_str(original).unwrap();
    assert_eq!(orig_value, serialized);
}

#[test]
fn loader_test_group_serialization_roundtrip() {
    let original = r#"{"terminal":"default","editor":"default","actions":[{"Production":[{"name":"Server","cmd":"ssh prod"}]}]}"#;
    let config = load_from_str(original).unwrap();
    let serialized = to_value(&config.to_json());

    let orig_value: serde_json::Value = serde_json::from_str(original).unwrap();
    assert_eq!(orig_value, serialized);
}

#[test]
fn test_action_serialization() {
    let action = Action {
        name: "Test".to_string(),
        cmd: "echo hello".to_string(),
    };
    let json = to_value(&action.to_json()).to_string();
    assert!(json.contains("Test"));
    assert!(json.contains("echo hello"));
}

#[test]
fn test_group_serialization() {
    let group = Group {
        name: "Production".to_string(),
        entries: vec![Entry::Action(Action {
            name: "Server".to_string(),
            cmd: "ssh prod".to_string(),
        })],
    };
    let json = to_value(&Entry::Group(group).to_json()).to_string();
    assert!(json.contains("Production"));
}

#[test]
fn test_entry_untagged_action() {
    let config = load_from_str(r#"{"actions": [{"name": "Test", "cmd": "echo"}]}"#).unwrap();
    assert!(matches!(config.actions[0], Entry::Action(_)));
}

#[test]
fn test_entry_untagged_group() {
    let config =
        load_from_str(r#"{"actions": [{"MyGroup": [{"name": "Test", "cmd": "echo"}]}]}"#).unwrap();
    assert!(matches!(config.actions[0], Entry::Group(_)));
}

#[test]
fn test_parse_json_builds_the_value() {
    let v = xshuttle::parse_json(r#"[1, "a", true, null, {"k": []}]"#).unwrap();
    match v {
        JsonValue::Array(items) => {
            assert_eq!(items.len(), 5);
            assert!(matches!(&items[0], JsonValue::Number(n) if n == "1"));
            assert!(matches!(&items[1], JsonValue::Text(s) if s == "a"));
            assert!(matches!(items[2], JsonValue::Bool(true)));
            assert!(matches!(items[3], JsonValue::Null));
            match &items[4] {
                JsonValue::Object(pairs) => {
                    assert_eq!(pairs.len(), 1);
                    assert_eq!(pairs[0].0, "k");
                    assert!(matches!(&pairs[0].1, JsonValue::Array(a) if a.is_empty()));
                }
                _ => panic!("Expected an object"),
            }
        }
        _ => panic!("Expected an array"),
    }
}

#[test]
fn test_parse_json_rejects_bad_text() {
    assert!(xshuttle::parse_json("{true: 1}").is_err());
}

#[test]
fn test_full_roundtrip_preserves_every_field() {
    let original =
        r#"{"terminal":"kitty","editor":"vim","actions":[{"name":"A","cmd":"a"},{"G":[]}]}"#;
    let config = load_from_str(original).unwrap();
    let serialized = to_value(&config.to_json());
    let orig_value: serde_json::Value = serde_json::from_str(original).unwrap();
    assert_eq!(orig_value, serialized);
}
