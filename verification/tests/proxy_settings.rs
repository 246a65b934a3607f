use mihomo_tui::config::{ConfigError, LatencyThreshold, ProxySetting};

#[test]
fn test_latency_threshold_parse() {
    assert_eq!(LatencyThreshold::parse("500,1000").unwrap(), LatencyThreshold { medium: 500, high: 1000 });
}

#[test]
fn test_latency_threshold_invalid_order() {
    let err = ProxySetting::validate_latency_threshold(LatencyThreshold { medium: 1000, high: 500 }).unwrap_err();
    assert!(err.to_string().contains("Threshold must satisfy medium < high"));
}

#[test]
fn test_proxy_test_timeout_range() {
    assert!(ProxySetting::validate_test_timeout(1).is_ok());
    assert!(ProxySetting::validate_test_timeout(60000).is_ok());
    assert!(ProxySetting::validate_test_timeout(60001).is_err());
}

#[test]
fn latency_threshold_text_round_trips() {
    let t = LatencyThreshold { medium: 300, high: 800 };
    assert_eq!(t.to_text(), "300,800");
    assert_eq!(LatencyThreshold::parse(&t.to_text()).unwrap(), t);
    assert_eq!(t.as_tuple(), (300, 800));
}

#[test]
fn latency_threshold_rejects_bad_text() {
    assert!(LatencyThreshold::parse("500").is_err());
    assert!(LatencyThreshold::parse("a,b").is_err());
    assert!(LatencyThreshold::parse("1,2,3").is_err());
}

#[test]
fn threshold_must_be_positive() {
    assert_eq!(
        ProxySetting::validate_latency_threshold(LatencyThreshold { medium: 0, high: 5 }),
        Err(ConfigError::ThresholdNotPositive)
    );
    assert!(ProxySetting::validate_latency_threshold(LatencyThreshold { medium: 1, high: 2 }).is_ok());
}

#[test]
fn test_url_checks() {
    assert_eq!(ProxySetting::validate_test_url(""), Err(ConfigError::EmptyUrl));
    assert_eq!(ProxySetting::validate_test_url("ftp://x"), Err(ConfigError::UrlScheme));
    assert!(ProxySetting::validate_test_url("https://www.gstatic.com/generate_204").is_ok());
    assert!(matches!(ProxySetting::validate_test_url("http://"), Err(ConfigError::InvalidUrl(_))));
}

#[test]
fn default_proxy_setting_is_valid() {
    let s = ProxySetting::default();
    assert_eq!(s.test_url, "https://www.gstatic.com/generate_204");
    assert_eq!(s.test_timeout, 5000);
    assert_eq!(s.latency_threshold, LatencyThreshold { medium: 500, high: 1000 });
    assert!(s.validate().is_ok());
}
