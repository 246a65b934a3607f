use mihomo_tui::columns::default_connection_col_indices;
use mihomo_tui::config::{ConfigError, ConnectionsSortConfig, ConnectionsUiConfig, LatencyThreshold, ProxySetting};
use mihomo_tui::connections_setting::ConnectionsSetting;
use mihomo_tui::schema::{BufferConfig, Config, MihomoApiEndpoint, Platform};
use mihomo_tui::sort::{SortDir, SortSpec};

const ALIVE: usize = 0;
const HOST: usize = 1;
const RULE: usize = 2;
const DOWN_RATE: usize = 4;

fn ui(columns: Option<&[&str]>, sort: Option<(&str, SortDir)>) -> ConnectionsUiConfig {
    ConnectionsUiConfig {
        columns: columns.map(|c| c.iter().map(|s| s.to_string()).collect()),
        sort: sort.map(|(field, dir)| ConnectionsSortConfig { field: field.to_string(), dir }),
        column_widths: Vec::new(),
        source_ip_alias: Vec::new(),
    }
}

fn config_with(proxy_setting: ProxySetting) -> Config {
    Config {
        mihomo_api: MihomoApiEndpoint::parse("http://localhost").unwrap(),
        mihomo_secret: None,
        mihomo_config_schema: None,
        mihomo_repo: "MetaCubeX/mihomo".to_string(),
        log_file: None,
        log_level: None,
        ui: None,
        proxy_setting,
        buffer: BufferConfig::default(),
    }
}

#[test]
fn test_config_ui_connections_sort_uses_visible_column_index() {
    let connections = ui(Some(&["Rule", "Host"]), Some(("hOsT", SortDir::Asc)));
    let setting = ConnectionsSetting::try_from(&connections).unwrap();

    assert_eq!(connections.columns, Some(vec!["Rule".to_owned(), "Host".to_owned()]));
    assert_eq!(connections.sort.as_ref().unwrap().field, "hOsT");
    assert_eq!(setting.columns, vec![ALIVE, RULE, HOST]);
    assert_eq!(setting.query_state.sort, Some(SortSpec { col: 2, dir: SortDir::Asc }));
}

#[test]
fn test_config_ui_connections_columns_parse_case_insensitive() {
    let connections = ui(Some(&["hOsT", "Rule", "downrate"]), None);
    let setting = ConnectionsSetting::try_from(&connections).unwrap();

    assert_eq!(setting.columns, vec![ALIVE, HOST, RULE, DOWN_RATE]);
}

#[test]
fn test_config_ui_connections_without_sort() {
    let connections = ui(None, None);
    let setting = ConnectionsSetting::try_from(&connections).unwrap();

    assert!(connections.sort.is_none());
    assert!(connections.columns.is_none());
    assert_eq!(setting.columns, default_connection_col_indices());
}

#[test]
fn test_config_ui_connections_columns_invalid_values() {
    let cases: [(&[&str], &str); 4] = [
        (&["Alive", "Host"], "`ui.connections.columns` values must be one of"),
        (&["Host", "Foo"], "`ui.connections.columns` values must be one of"),
        (&["Host", "host"], "duplicate `ui.connections.columns` value"),
        (&[], "`ui.connections.columns` cannot be empty, must be one of"),
    ];

    for (columns, expected_error) in cases {
        let connections = ui(Some(columns), None);
        let result = connections.validate();
        assert!(result.is_err(), "expected error for {columns:?}, got {:?}", result);
        assert!(ConnectionsSetting::try_from(&connections).is_err());

        let err_msg = result.unwrap_err().to_string();
        assert!(err_msg.contains(expected_error), "unexpected error: {}", err_msg);

        if columns.contains(&"Alive") {
            assert!(err_msg.contains("got \"Alive\""), "unexpected error: {}", err_msg);
            let allowed_values = err_msg
                .split("must be one of [")
                .nth(1)
                .and_then(|value| value.split(']').next())
                .unwrap_or_default();
            assert!(!allowed_values.contains("Alive"), "`Alive` should not be allowed: {}", err_msg);
        }
    }
}

#[test]
fn test_config_ui_connections_sort_hidden_by_columns_is_ignored() {
    let connections = ui(Some(&["Host", "Rule"]), Some(("DownRate", SortDir::Desc)));
    let setting = ConnectionsSetting::try_from(&connections).unwrap();

    assert!(setting.query_state.sort.is_none());
}

#[test]
fn test_config_ui_connections_sort_invalid_field() {
    for field in ["foo", "Alive"] {
        let connections = ui(None, Some((field, SortDir::Asc)));
        let result = connections.validate();
        assert!(result.is_err(), "expected error for {field}, got {:?}", result);

        let err_msg = result.unwrap_err().to_string();
        assert!(err_msg.contains("`ui.connections.sort.field` must be one of"), "unexpected error: {}", err_msg);
        assert!(err_msg.contains(&format!("got \"{field}\"")), "unexpected error: {}", err_msg);
        assert!(err_msg.contains("Host"), "unexpected error: {}", err_msg);

        if field == "Alive" {
            let allowed_values = err_msg
                .split("must be one of [")
                .nth(1)
                .and_then(|value| value.split(']').next())
                .unwrap_or_default();
            assert!(!allowed_values.contains("Alive"), "`Alive` should not be allowed: {}", err_msg);
        }
    }
}

#[test]
fn test_config_proxy_setting_invalid_threshold() {
    let mut p = ProxySetting::default();
    p.latency_threshold = LatencyThreshold { medium: 1000, high: 500 };
    let err = config_with(p).validate(Platform::Unix).unwrap_err();
    assert!(err.to_string().contains("Threshold must satisfy medium < high"));
}

#[test]
fn test_config_proxy_setting_invalid_url() {
    let mut p = ProxySetting::default();
    p.test_url = "ftp://example.com".to_string();
    let err = config_with(p).validate(Platform::Unix).unwrap_err();
    assert!(err.to_string().contains("URL must start with http:// or https://"));
}

#[test]
fn test_config_proxy_setting_timeout_too_large() {
    let mut p = ProxySetting::default();
    p.test_timeout = 60001;
    let err = config_with(p).validate(Platform::Unix).unwrap_err();
    assert!(err.to_string().contains("Timeout must be between 1 and 60000 milliseconds"));
}

#[test]
fn valid_config_passes() {
    assert!(config_with(ProxySetting::default()).validate(Platform::Unix).is_ok());
}

#[test]
fn endpoints_by_kind() {
    assert_eq!(MihomoApiEndpoint::parse(""), Err(ConfigError::EmptyEndpoint));
    assert_eq!(
        MihomoApiEndpoint::parse("unix:/run/mihomo.sock"),
        Ok(MihomoApiEndpoint::UnixSocket("/run/mihomo.sock".to_string()))
    );
    assert_eq!(MihomoApiEndpoint::parse("unix:"), Err(ConfigError::EmptySocketPath));
    assert_eq!(MihomoApiEndpoint::parse("\\\\.\\pipe\\"), Err(ConfigError::EmptyPipeName));
    assert!(matches!(MihomoApiEndpoint::parse("\\\\.\\pipe\\mihomo"), Ok(MihomoApiEndpoint::WindowsNamedPipe(_))));
    assert_eq!(MihomoApiEndpoint::parse("ftp://x"), Err(ConfigError::EndpointNotHttp));
    assert!(matches!(MihomoApiEndpoint::parse("localhost"), Err(ConfigError::InvalidEndpointUrl(_))));
}

#[test]
fn socket_endpoint_is_refused_off_unix() {
    let mut c = config_with(ProxySetting::default());
    c.mihomo_api = MihomoApiEndpoint::UnixSocket("/run/mihomo.sock".to_string());
    assert_eq!(c.validate(Platform::Windows), Err(ConfigError::UnixSocketUnsupported));
    assert!(c.validate(Platform::Unix).is_ok());
}

#[test]
fn settings_round_trip_through_ui_config() {
    let mut connections = ui(Some(&["Rule", "Host"]), Some(("Host", SortDir::Desc)));
    connections.column_widths = vec![("Host".to_string(), 30)];
    connections.source_ip_alias = vec![("10.0.0.1".to_string(), "phone".to_string())];
    let setting = ConnectionsSetting::try_from(&connections).unwrap();
    let back = setting.to_ui_config();
    assert_eq!(back.columns, Some(vec!["Rule".to_string(), "Host".to_string()]));
    assert_eq!(back.sort.as_ref().map(|s| (s.field.as_str(), s.dir)), Some(("Host", SortDir::Desc)));
    assert_eq!(back.column_widths, vec![("Host".to_string(), 30)]);
    assert_eq!(back.source_ip_alias, connections.source_ip_alias);
    let again = ConnectionsSetting::try_from(&back).unwrap();
    assert_eq!(again.columns, setting.columns);
    assert_eq!(again.query_state.sort, setting.query_state.sort);
}

#[test]
fn apply_settings_keeps_sort_on_its_column() {
    let connections = ui(Some(&["Host", "Rule"]), Some(("Rule", SortDir::Asc)));
    let mut setting = ConnectionsSetting::try_from(&connections).unwrap();
    assert_eq!(setting.query_state.sort, Some(SortSpec { col: 2, dir: SortDir::Asc }));
    setting.apply_settings(vec![RULE, DOWN_RATE], Vec::new()).unwrap();
    assert_eq!(setting.columns, vec![ALIVE, RULE, DOWN_RATE]);
    assert_eq!(setting.query_state.sort, Some(SortSpec { col: 1, dir: SortDir::Asc }));
    assert!(setting.apply_settings(Vec::new(), Vec::new()).is_err());
}

#[test]
fn zero_column_width_is_refused_first() {
    let mut c = ui(Some(&["Nope"]), None);
    c.column_widths = vec![("Host".to_string(), 12), ("Rule".to_string(), 0)];
    assert_eq!(c.validate(), Err(ConfigError::ZeroColumnWidth("Rule".to_string())));
    assert!(ConnectionsSetting::try_from(&c).is_err());
    assert_eq!(
        ConnectionsUiConfig::parse_connections_column_widths(&c.column_widths).err(),
        Some(ConfigError::ZeroColumnWidth("Rule".to_string()))
    );
    assert_eq!(
        ConfigError::ZeroColumnWidth("Rule".to_string()).to_string(),
        "`ui.connections.column-widths` values must be non-zero, got 0 for \"Rule\""
    );
    let mut cfg = config_with(ProxySetting::default());
    cfg.mihomo_api = MihomoApiEndpoint::UnixSocket("/run/mihomo.sock".to_string());
    cfg.ui = Some(mihomo_tui::schema::UiConfig { connections: Some(c), proxy_detail: None, proxy_provider_detail: None });
    assert_eq!(cfg.validate(Platform::Windows), Err(ConfigError::ZeroColumnWidth("Rule".to_string())));
}
