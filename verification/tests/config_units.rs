use metering_chain::config::{join_path, Config};

#[test]
fn test_config_defaults() {
    let config = Config::new();
    assert_eq!(config.output_format, "human");
    assert_eq!(config.log_level, "info");
    assert!(config.data_dir.ends_with(".metering-chain"));
}

#[test]
fn test_config_paths() {
    let config = Config::new();
    assert!(config.get_tx_log_path().ends_with("tx.log"));
    assert!(config.get_state_path().ends_with("state.bin"));
}

#[test]
fn test_config_setters() {
    let mut config = Config::new();
    config.set_output_format("json".to_string());
    assert_eq!(config.get_output_format(), "json");

    config.set_log_level("debug".to_string());
    assert_eq!(config.get_log_level(), "debug");
}

#[test]
fn test_config_with_data_dir_paths() {
    let config = Config::with_data_dir("/tmp/data".to_string());
    assert_eq!(config.get_tx_log_path(), "/tmp/data/tx.log");
    assert_eq!(config.get_state_path(), "/tmp/data/state.bin");
    assert_eq!(config.get_state_json_path(), "/tmp/data/state.json");
    assert_eq!(config.get_wallets_path(), "/tmp/data/wallets.json");
    assert_eq!(config.get_output_format(), "human");
}

#[test]
fn test_join_path_edges() {
    assert_eq!(join_path("", "tx.log"), "tx.log");
    assert_eq!(join_path("dir/", "tx.log"), "dir/tx.log");
    assert_eq!(join_path("dir", "tx.log"), "dir/tx.log");
}

#[test]
fn test_config_from_overrides() {
    let c = Config::from_overrides(Some("d".to_string()), None, Some("debug".to_string()));
    assert_eq!(c.get_data_dir(), "d");
    assert_eq!(c.get_output_format(), "human");
    assert_eq!(c.get_log_level(), "debug");
    let d = Config::from_overrides(None, Some("json".to_string()), None);
    assert_eq!(d.get_data_dir(), ".metering-chain");
    assert_eq!(d.get_output_format(), "json");
    assert_eq!(d.get_log_level(), "info");
}
