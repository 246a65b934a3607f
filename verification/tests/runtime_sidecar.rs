use mihomo_tui::config::{ConfigError, LatencyThreshold, ProxySetting};
use mihomo_tui::runtime::{apply, runtime_path_for, RuntimeConfig, RUNTIME_SCHEMA_VERSION};
use mihomo_tui::schema::{BufferConfig, Config, MihomoApiEndpoint};

fn base_config() -> Config {
    Config {
        mihomo_api: MihomoApiEndpoint::Http("http://127.0.0.1:9090".to_string()),
        mihomo_secret: None,
        mihomo_config_schema: None,
        mihomo_repo: "MetaCubeX/mihomo".to_string(),
        log_file: None,
        log_level: None,
        ui: None,
        proxy_setting: ProxySetting::default(),
        buffer: BufferConfig::default(),
    }
}

#[test]
fn runtime_path_for_config_with_yaml_extension() {
    assert_eq!(runtime_path_for("/tmp/config.yaml"), "/tmp/config.runtime.yaml");
    assert_eq!(runtime_path_for("/tmp/config.yml"), "/tmp/config.runtime.yml");
    assert_eq!(runtime_path_for("/tmp/config"), "/tmp/config.runtime.yaml");
}

#[test]
fn apply_rejects_unknown_schema_version() {
    let mut config = base_config();
    let err = apply(&mut config, RuntimeConfig { schema_version: 2, ui: None, proxy_setting: None }).unwrap_err();

    assert!(err.to_string().contains("Unsupported runtime config schema version"));
    assert_eq!(err, ConfigError::UnsupportedSchemaVersion(2));
}

#[test]
fn apply_takes_proxy_setting_from_sidecar() {
    let mut config = base_config();
    let sidecar = ProxySetting {
        test_url: "https://example.com/generate_204".to_string(),
        test_timeout: 3000,
        latency_threshold: LatencyThreshold { medium: 200, high: 800 },
        auto_terminate_connections: true,
    };
    apply(
        &mut config,
        RuntimeConfig { schema_version: RUNTIME_SCHEMA_VERSION, ui: None, proxy_setting: Some(sidecar.clone()) },
    )
    .unwrap();
    assert_eq!(config.proxy_setting.test_url, "https://example.com/generate_204");
    assert_eq!(config.proxy_setting.test_timeout, 3000);
    assert_eq!(config.proxy_setting.latency_threshold, LatencyThreshold { medium: 200, high: 800 });
    assert!(config.proxy_setting.auto_terminate_connections);
}
