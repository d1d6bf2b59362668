use xshuttle::{format_validation_errors, parse_json, schema, validate, Config, ValidationResult};

fn parsed(text: &str) -> xshuttle::JsonValue {
    parse_json(text).unwrap()
}

#[test]
fn lib_test_schema_is_valid_json() {
    let schema_value: serde_json::Value = serde_json::from_str(Config::schema()).unwrap();
    assert!(schema_value.is_object());
    assert!(schema_value.get("$schema").is_some());
}

#[test]
fn schema_test_schema_is_valid_json() {
    let schema_value: serde_json::Value = serde_json::from_str(schema()).unwrap();
    assert!(schema_value.is_object());
    assert!(schema_value.get("$schema").is_some());
}

#[test]
fn config_test_schema_is_valid_json() {
    let schema_value: serde_json::Value = serde_json::from_str(schema()).unwrap();
    assert!(schema_value.is_object());
    assert!(schema_value.get("$schema").is_some());
}

#[test]
fn lib_test_validate_valid_config() {
    let value = parsed(r#"{"terminal": "kitty", "actions": []}"#);
    assert!(matches!(Config::validate_json(&value), ValidationResult::Valid));
}

#[test]
fn schema_test_validate_valid_config() {
    let value = parsed(r#"{"terminal": "kitty", "actions": []}"#);
    assert!(matches!(validate(&value), ValidationResult::Valid));
}

#[test]
fn config_test_validate_valid_config() {
    let value = parsed(r#"{"terminal": "kitty", "actions": []}"#);
    assert!(matches!(validate(&value), ValidationResult::Valid));
}

#[test]
fn lib_test_validate_invalid_action_missing_cmd() {
    let value = parsed(r#"{"actions": [{"name": "Test"}]}"#);
    match Config::validate_json(&value) {
        ValidationResult::Invalid(errors) => {
            assert!(!errors.is_empty());
        }
        ValidationResult::Valid => panic!("Expected validation error"),
    }
}

#[test]
fn schema_test_validate_invalid_action_missing_cmd() {
    let value = parsed(r#"{"actions": [{"name": "Test"}]}"#);
    match validate(&value) {
        ValidationResult::Invalid(errors) => {
            assert!(!errors.is_empty());
        }
        ValidationResult::Valid => panic!("Expected validation error"),
    }
}

#[test]
fn config_test_validate_invalid_action_missing_cmd() {
    let value = parsed(r#"{"actions": [{"name": "Test"}]}"#);
    match validate(&value) {
        ValidationResult::Invalid(errors) => {
            assert!(!errors.is_empty());
        }
        ValidationResult::Valid => panic!("Expected validation error"),
    }
}

#[test]
fn lib_test_validate_invalid_type() {
    let value = parsed(r#"{"terminal": 123}"#);
    assert!(matches!(Config::validate_json(&value), ValidationResult::Invalid(_)));
}

#[test]
fn schema_test_validate_invalid_type() {
    let value = parsed(r#"{"terminal": 123}"#);
    assert!(matches!(validate(&value), ValidationResult::Invalid(_)));
}

#[test]
fn config_test_validate_invalid_type() {
    let value = parsed(r#"{"terminal": 123}"#);
    assert!(matches!(validate(&value), ValidationResult::Invalid(_)));
}

#[test]
fn lib_test_validate_unknown_field_rejected() {
    let value = parsed(r#"{"unknown_field": "value"}"#);
    assert!(matches!(Config::validate_json(&value), ValidationResult::Invalid(_)));
}

#[test]
fn schema_test_validate_unknown_field_rejected() {
    let value = parsed(r#"{"unknown_field": "value"}"#);
    assert!(matches!(validate(&value), ValidationResult::Invalid(_)));
}

#[test]
fn config_test_validate_unknown_field_rejected() {
    let value = parsed(r#"{"unknown_field": "value"}"#);
    assert!(matches!(validate(&value), ValidationResult::Invalid(_)));
}

#[test]
fn lib_test_validate_nested_group() {
    let value = parsed(
        r#"{
            "actions": [
                {"Production": [
                    {"name": "Server", "cmd": "ssh server"}
                ]}
            ]
        }"#,
    );
    assert!(matches!(Config::validate_json(&value), ValidationResult::Valid));
}

#[test]
fn schema_test_validate_nested_group() {
    let value = parsed(
        r#"{
            "actions": [
                {"Production": [
                    {"name": "Server", "cmd": "ssh server"}
                ]}
            ]
        }"#,
    );
    assert!(matches!(validate(&value), ValidationResult::Valid));
}

#[test]
fn config_test_validate_nested_group() {
    let value = parsed(
        r#"{
            "actions": [
                {"Production": [
                    {"name": "Server", "cmd": "ssh server"}
                ]}
            ]
        }"#,
    );
    assert!(matches!(validate(&value), ValidationResult::Valid));
}

#[test]
fn test_unknown_field_error_names_the_field() {
    let value = parsed(r#"{"unknown_field": "x"}"#);
    match validate(&value) {
        ValidationResult::Invalid(errors) => {
            assert!(errors.iter().any(|e| e.path.contains("unknown_field")));
        }
        ValidationResult::Valid => panic!("Expected validation error"),
    }
}

#[test]
fn test_error_paths_and_messages_are_exact() {
    let value = parsed(r#"{"terminal": 9, "junk": true}"#);
    match validate(&value) {
        ValidationResult::Invalid(errors) => {
            assert_eq!(errors.len(), 2);
            assert_eq!(errors[0].path, "/junk");
            assert_eq!(errors[0].message, "unknown field");
            assert_eq!(errors[1].path, "/terminal");
            assert_eq!(errors[1].message, "expected a string");
            let line = format_validation_errors(&errors);
            assert_eq!(line, "/junk: unknown field; /terminal: expected a string");
        }
        ValidationResult::Valid => panic!("Expected validation error"),
    }
}

#[test]
fn test_error_path_escapes_pointer_characters() {
    let value = parsed(r#"{"a/b~c": 1}"#);
    match validate(&value) {
        ValidationResult::Invalid(errors) => {
            assert_eq!(errors[0].path, "/a~1b~0c");
        }
        ValidationResult::Valid => panic!("Expected validation error"),
    }
}

#[test]
fn test_nested_entry_error_path() {
    let value = parsed(r#"{"actions": [{"Prod": [{"name": "ok", "cmd": "c"}, 7]}]}"#);
    match validate(&value) {
        ValidationResult::Invalid(errors) => {
            assert_eq!(errors.len(), 1);
            assert_eq!(errors[0].path, "/actions/0/Prod/1");
        }
        ValidationResult::Valid => panic!("Expected validation error"),
    }
}

#[test]
fn test_document_level_error() {
    let value = parsed("[1, 2]");
    match validate(&value) {
        ValidationResult::Invalid(errors) => {
            assert_eq!(errors.len(), 1);
            assert_eq!(errors[0].path, "");
            assert_eq!(errors[0].message, "expected an object");
        }
        ValidationResult::Valid => panic!("Expected validation error"),
    }
}

#[test]
fn test_validation_collects_all_errors() {
    let value = parsed(r#"{"actions": [7, {"name": "ok", "cmd": "c"}, false]}"#);
    match validate(&value) {
        ValidationResult::Invalid(errors) => {
            assert_eq!(errors.len(), 2);
            assert_eq!(errors[0].path, "/actions/0");
            assert_eq!(errors[1].path, "/actions/2");
        }
        ValidationResult::Valid => panic!("Expected validation error"),
    }
}
