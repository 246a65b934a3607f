use std::collections::HashMap;

use mihomo_tui::columns::ALIVE_COLUMN_INDEX;
use mihomo_tui::connections_setting::ConnectionsSetting;
use mihomo_tui::key::{Key, KeyInput, MOD_CONTROL};
use mihomo_tui::proxy_setting::{
    submit_field, ProxySetting, ProxySettingComponent, ProxySettingField, ProxySettingKey,
};
use mihomo_tui::settings_dialog::{ActivePane, ConnectionsSettingComponent, SettingsKey};
use mihomo_tui::sort::SearchState;

fn key(code: Key) -> KeyInput {
    KeyInput::plain(code)
}

fn type_text(c: &mut ProxySettingComponent, s: &mut ProxySetting, text: &str) {
    for ch in text.chars() {
        c.handle_key_event(key(Key::Char(ch)), s);
    }
}

#[test]
fn proxy_setting_fields_cycle_and_show_values() {
    let s = ProxySetting::default();
    assert_eq!(ProxySettingField::TestUrl.next(), ProxySettingField::TestTimeout);
    assert_eq!(ProxySettingField::TestUrl.prev(), ProxySettingField::Threshold);
    assert_eq!(ProxySettingField::Threshold.value(&s), "500,1000");
    assert_eq!(ProxySettingField::TestTimeout.value(&s), "5000");
    assert_eq!(ProxySettingField::TestUrl.title(), "Test URL");
}

#[test]
fn submit_field_checks_each_field() {
    let mut s = ProxySetting::default();
    assert_eq!(submit_field(ProxySettingField::TestTimeout, " 3000 ", &mut s), Ok(()));
    assert_eq!(s.test_timeout, 3000);
    assert_eq!(
        submit_field(ProxySettingField::TestTimeout, "0", &mut s),
        Err("Timeout must be between 1 and 60000 milliseconds".to_string())
    );
    assert_eq!(submit_field(ProxySettingField::TestTimeout, "abc", &mut s), Err("Timeout must be a valid number".to_string()));
    assert_eq!(submit_field(ProxySettingField::Threshold, "300, 900", &mut s), Ok(()));
    assert_eq!(s.threshold, (300, 900));
    assert_eq!(
        submit_field(ProxySettingField::Threshold, "900,300", &mut s),
        Err("Threshold must satisfy good < bad".to_string())
    );
    assert_eq!(
        submit_field(ProxySettingField::Threshold, "900", &mut s),
        Err("Threshold must be two comma-separated numbers (e.g. 500,800)".to_string())
    );
    assert_eq!(submit_field(ProxySettingField::TestUrl, "  ", &mut s), Err("URL cannot be empty".to_string()));
    assert_eq!(
        submit_field(ProxySettingField::TestUrl, "ftp://x", &mut s),
        Err("URL must start with http:// or https://".to_string())
    );
    assert_eq!(submit_field(ProxySettingField::TestUrl, " https://example.com/204 ", &mut s), Ok(()));
    assert_eq!(s.test_url, "https://example.com/204");
}

#[test]
fn proxy_setting_dialog_saves_on_enter() {
    let mut s = ProxySetting::default();
    let mut c = ProxySettingComponent::new();
    c.show(&s);
    assert_eq!(c.input.value(), "https://www.gstatic.com/generate_204");
    c.handle_key_event(key(Key::Tab), &mut s);
    assert_eq!(c.focused, ProxySettingField::TestTimeout);
    assert_eq!(c.input.value(), "5000");
    c.handle_key_event(key(Key::Backspace), &mut s);
    type_text(&mut c, &mut s, "1");
    assert_eq!(c.handle_key_event(key(Key::Enter), &mut s), ProxySettingKey::Saved);
    assert_eq!(s.test_timeout, 5001);
    assert!(!c.show);
}

#[test]
fn proxy_setting_dialog_reports_errors_and_closes() {
    let mut s = ProxySetting::default();
    let mut c = ProxySettingComponent::new();
    c.show(&s);
    c.handle_key_event(key(Key::BackTab), &mut s);
    assert_eq!(c.focused, ProxySettingField::Threshold);
    type_text(&mut c, &mut s, ",1");
    assert_eq!(c.handle_key_event(key(Key::Enter), &mut s), ProxySettingKey::Stay);
    assert!(c.error.is_some());
    assert_eq!(s.threshold, (500, 1000));
    assert_eq!(c.handle_key_event(KeyInput::with_mods(Key::Char('c'), MOD_CONTROL), &mut s), ProxySettingKey::Quit);
    assert_eq!(c.handle_key_event(key(Key::Esc), &mut s), ProxySettingKey::Closed);
    assert!(!c.show);
}

fn setting() -> ConnectionsSetting {
    let columns = vec![ALIVE_COLUMN_INDEX, 1, 2, 3];
    ConnectionsSetting {
        query_state: SearchState { pattern: None, sort: None, max_cols: columns.len() },
        columns,
        column_widths: HashMap::new(),
        source_ip_alias: vec![("10.0.0.9".to_string(), "nas".to_string())],
    }
}

#[test]
fn connections_dialog_saves_columns_and_aliases() {
    let mut s = setting();
    let mut d = ConnectionsSettingComponent::new();
    d.show(vec!["10.0.0.1".to_string()], &s);
    assert_eq!(d.active_pane, ActivePane::Columns);
    // hide the focused column (Host)
    assert_eq!(d.handle_key_event(key(Key::Char(' ')), &mut s), SettingsKey::Stay);
    assert_eq!(d.handle_key_event(key(Key::Tab), &mut s), SettingsKey::PaneSwitched);
    assert_eq!(d.active_pane, ActivePane::SourceIpAlias);
    d.handle_key_event(key(Key::Char('p')), &mut s);
    assert_eq!(d.handle_key_event(key(Key::Enter), &mut s), SettingsKey::Saved);
    assert_eq!(s.columns, vec![ALIVE_COLUMN_INDEX, 2, 3]);
    assert!(s.source_ip_alias.contains(&("10.0.0.1".to_string(), "p".to_string())));
    assert!(s.source_ip_alias.contains(&("10.0.0.9".to_string(), "nas".to_string())));
    assert!(!d.show);
}

#[test]
fn connections_dialog_closes_without_saving() {
    let mut s = setting();
    let mut d = ConnectionsSettingComponent::new();
    d.show(Vec::new(), &s);
    d.handle_key_event(key(Key::Char(' ')), &mut s);
    assert_eq!(d.handle_key_event(key(Key::Esc), &mut s), SettingsKey::Closed);
    assert_eq!(s.columns, vec![ALIVE_COLUMN_INDEX, 1, 2, 3]);
}

#[test]
fn connections_dialog_refuses_hiding_every_column() {
    let mut s = setting();
    let mut d = ConnectionsSettingComponent::new();
    d.show(Vec::new(), &s);
    for item in d.columns.items.iter_mut() {
        item.selected = false;
    }
    assert!(d.save(&mut s).is_none());
    assert_eq!(d.active_error().as_deref(), Some("At least one column must be selected"));
    assert_eq!(s.columns, vec![ALIVE_COLUMN_INDEX, 1, 2, 3]);
}
