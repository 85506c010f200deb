//! Tests for the application configuration defaults.

use blockchain_api::config::AppConfig;

#[test]
fn default_configuration_values() {
    let config = AppConfig::new();
    assert_eq!(config.component, "unknown");
    assert_eq!(config.project, "Actix Blockchain");
    assert_eq!(config.web_root, "/");
    assert_eq!(config.main_directory, "");
    assert_eq!(config.config_file, "");
    assert_eq!(config.miner_count, 2);

    let default_config = AppConfig::default();
    assert_eq!(default_config.component, config.component);
    assert_eq!(default_config.miner_count, config.miner_count);
}

#[test]
fn clone_copies_every_field() {
    let mut config = AppConfig::new();
    config.component = "worker".to_owned();
    config.miner_count = 5;

    let copy = config.clone();
    assert_eq!(copy.component, "worker");
    assert_eq!(copy.project, config.project);
    assert_eq!(copy.web_root, config.web_root);
    assert_eq!(copy.main_directory, config.main_directory);
    assert_eq!(copy.config_file, config.config_file);
    assert_eq!(copy.miner_count, 5);
}
