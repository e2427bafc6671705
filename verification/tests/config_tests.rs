use ferrous_forge::config::{Config, CustomRule};

#[test]
fn test_config_default() {
    let config = Config::default();

    assert!(!config.initialized);
    assert_eq!(config.version, "0.1.0");
    assert_eq!(config.update_channel, "stable");
    assert!(config.auto_update);
    assert_eq!(config.max_file_lines, 300);
    assert_eq!(config.max_function_lines, 50);
    assert!(config.enforce_edition_2024);
    assert!(config.ban_underscore_bandaid);
    assert!(config.require_documentation);
    assert!(!config.clippy_rules.is_empty());
    assert!(config.custom_rules.is_empty());
}

#[test]
fn test_config_initialization() {
    let mut config = Config::default();

    assert!(!config.is_initialized());
    config.mark_initialized();
    assert!(config.is_initialized());
}

#[test]
fn test_config_get() {
    let config = Config::default();

    assert_eq!(config.get("update_channel"), Some("stable".to_string()));
    assert_eq!(config.get("auto_update"), Some("true".to_string()));
    assert_eq!(config.get("max_file_lines"), Some("300".to_string()));
    assert_eq!(config.get("max_function_lines"), Some("50".to_string()));
    assert_eq!(config.get("enforce_edition_2024"), Some("true".to_string()));
    assert_eq!(
        config.get("ban_underscore_bandaid"),
        Some("true".to_string())
    );
    assert_eq!(
        config.get("require_documentation"),
        Some("true".to_string())
    );
    assert_eq!(config.get("nonexistent"), None);
}

#[test]
fn test_config_set_update_channel() {
    let mut config = Config::default();

    assert!(config.set("update_channel", "stable").is_ok());
    assert_eq!(config.update_channel, "stable");

    assert!(config.set("update_channel", "beta").is_ok());
    assert_eq!(config.update_channel, "beta");

    assert!(config.set("update_channel", "nightly").is_ok());
    assert_eq!(config.update_channel, "nightly");

    assert!(config.set("update_channel", "invalid").is_err());
}

#[test]
fn test_config_set_boolean_values() {
    let mut config = Config::default();

    assert!(config.set("auto_update", "false").is_ok());
    assert!(!config.auto_update);
    assert!(config.set("auto_update", "true").is_ok());
    assert!(config.auto_update);
    assert!(config.set("auto_update", "invalid").is_err());

    assert!(config.set("enforce_edition_2024", "false").is_ok());
    assert!(!config.enforce_edition_2024);

    assert!(config.set("ban_underscore_bandaid", "false").is_ok());
    assert!(!config.ban_underscore_bandaid);

    assert!(config.set("require_documentation", "false").is_ok());
    assert!(!config.require_documentation);
}

#[test]
fn test_config_set_numeric_values() {
    let mut config = Config::default();

    assert!(config.set("max_file_lines", "500").is_ok());
    assert_eq!(config.max_file_lines, 500);
    assert!(config.set("max_file_lines", "invalid").is_err());

    assert!(config.set("max_function_lines", "100").is_ok());
    assert_eq!(config.max_function_lines, 100);
    assert!(config.set("max_function_lines", "invalid").is_err());
}

#[test]
fn test_config_set_unknown_key() {
    let mut config = Config::default();
    assert!(config.set("unknown_key", "value").is_err());
}

#[test]
fn test_config_list() {
    let config = Config::default();
    let list = config.list();

    assert_eq!(list.len(), 7);
    assert!(list
        .iter()
        .any(|(k, v)| k == "update_channel" && v == "stable"));
    assert!(list.iter().any(|(k, v)| k == "auto_update" && v == "true"));
    assert!(list
        .iter()
        .any(|(k, v)| k == "max_file_lines" && v == "300"));
    assert!(list
        .iter()
        .any(|(k, v)| k == "max_function_lines" && v == "50"));
}

#[test]
fn test_config_reset() {
    let mut config = Config::default();
    config.mark_initialized();
    config.update_channel = "beta".to_string();
    config.auto_update = false;

    config.reset();

    assert!(config.is_initialized());
    assert_eq!(config.update_channel, "stable");
    assert!(config.auto_update);
}

#[test]
fn test_custom_rule() {
    let rule = CustomRule {
        name: "test_rule".to_string(),
        pattern: r"test_.*".to_string(),
        message: "Test message".to_string(),
        enabled: true,
    };

    assert_eq!(rule.name, "test_rule");
    assert_eq!(rule.pattern, r"test_.*");
    assert_eq!(rule.message, "Test message");
    assert!(rule.enabled);
}

#[test]
fn config_set_then_get_gives_the_value_back() {
    let mut config = Config::default();
    assert!(config.set("max_file_lines", "420").is_ok());
    assert_eq!(config.get("max_file_lines"), Some("420".to_string()));
    assert!(config.set("update_channel", "beta").is_ok());
    assert_eq!(config.get("update_channel"), Some("beta".to_string()));
    assert_eq!(config.get("max_file_lines"), Some("420".to_string()));
}

#[test]
fn config_refused_set_leaves_config_unchanged() {
    let mut config = Config::default();
    let err = config.set("max_file_lines", "-3").unwrap_err();
    assert!(!err.message.is_empty());
    assert_eq!(config.max_file_lines, 300);
    let err = config.set("update_channel", "weekly").unwrap_err();
    assert!(!err.message.is_empty());
    assert_eq!(config.update_channel, "stable");
}

#[test]
fn config_list_agrees_with_get() {
    let config = Config::default();
    for (k, v) in config.list() {
        assert_eq!(config.get(&k), Some(v));
    }
}

#[test]
fn config_numeric_accepts_plus_sign_and_rejects_overflow() {
    let mut config = Config::default();
    assert!(config.set("max_function_lines", "+75").is_ok());
    assert_eq!(config.max_function_lines, 75);
    assert!(config.set("max_function_lines", "99999999999999999999999").is_err());
    assert_eq!(config.max_function_lines, 75);
}
