use mihomo_tui::input::InputBox;
use mihomo_tui::key::{Key, KeyInput, KeyOutcome};
use mihomo_tui::source_ip_alias::{pad, SourceIpAliasSettingPane};

fn aliases(entries: &[(&str, &str)]) -> Vec<(String, String)> {
    entries.iter().map(|(source_ip, alias)| (source_ip.to_string(), alias.to_string())).collect()
}

fn get<'a>(v: &'a [(String, String)], k: &str) -> Option<&'a str> {
    v.iter().find(|(ip, _)| ip == k).map(|(_, a)| a.as_str())
}

fn key(code: Key) -> KeyInput {
    KeyInput::plain(code)
}

#[test]
fn alias_load_keeps_current_ips_and_existing_aliases() {
    let mut pane = SourceIpAliasSettingPane::new();

    pane.load(vec!["10.0.0.1".into(), "10.0.0.2".into()], &aliases(&[("10.0.0.1", "phone"), ("10.0.0.9", "stale")]));

    assert_eq!(pane.selected_source_ip().as_deref(), Some("10.0.0.1"));
    assert_eq!(pane.alias_input.value(), "phone");
    assert_eq!(pane.source_ips, vec!["10.0.0.1".to_string(), "10.0.0.2".to_string(), "10.0.0.9".to_string()]);
    assert_eq!(get(&pane.aliases, "10.0.0.9"), Some("stale"));
}

#[test]
fn alias_save_drops_empty_current_aliases_and_keeps_stale_aliases() {
    let mut pane = SourceIpAliasSettingPane::new();
    pane.load(vec!["10.0.0.1".into(), "10.0.0.2".into()], &aliases(&[("10.0.0.1", "phone"), ("10.0.0.9", "stale")]));

    pane.alias_input.reset();
    let saved = pane.aliases();

    assert_eq!(get(&saved, "10.0.0.1"), None);
    assert_eq!(get(&saved, "10.0.0.9"), Some("stale"));
}

#[test]
fn alias_selection_saves_old_input_and_loads_new_alias() {
    let mut pane = SourceIpAliasSettingPane::new();
    pane.load(vec!["10.0.0.1".into(), "10.0.0.2".into()], &aliases(&[("10.0.0.2", "desktop")]));

    pane.alias_input = InputBox::new("phone".to_string());
    pane.handle_key_event(key(Key::Down));

    assert_eq!(get(&pane.aliases, "10.0.0.1"), Some("phone"));
    assert_eq!(pane.alias_input.value(), "desktop");
    assert_eq!(pane.selected_source_ip().as_deref(), Some("10.0.0.2"));
}

#[test]
fn alias_page_down_uses_navigator_when_input_ignores_key() {
    let source_ips = (0..10).map(|idx| format!("10.0.0.{idx}")).collect();
    let mut pane = SourceIpAliasSettingPane::new();
    pane.load(source_ips, &Vec::new());
    pane.visible_range(3);

    assert_eq!(pane.navigator.focused, Some(0));

    pane.handle_key_event(key(Key::PageDown));

    assert_eq!(pane.navigator.focused, Some(3));
    assert_eq!((pane.navigator.pos(), pane.navigator.end_pos()), (3, 6));
}

#[test]
fn alias_tab_and_backtab_are_ignored_for_parent_pane_switching() {
    let mut pane = SourceIpAliasSettingPane::new();

    assert_eq!(pane.handle_key_event(key(Key::Tab)), KeyOutcome::Ignored);
    assert_eq!(pane.handle_key_event(key(Key::BackTab)), KeyOutcome::Ignored);
}

#[test]
fn alias_q_is_consumed_by_input_focus() {
    let mut pane = SourceIpAliasSettingPane::new();
    pane.load(vec!["10.0.0.1".into()], &Vec::new());

    assert_eq!(pane.handle_key_event(key(Key::Char('q'))), KeyOutcome::Consumed);
    assert_eq!(pane.alias_input.value(), "q");
}

#[test]
fn alias_space_and_jk_are_consumed_by_input_before_navigator() {
    let mut pane = SourceIpAliasSettingPane::new();
    pane.load(vec!["10.0.0.1".into(), "10.0.0.2".into()], &Vec::new());

    assert_eq!(pane.handle_key_event(key(Key::Char(' '))), KeyOutcome::Consumed);
    assert_eq!(pane.handle_key_event(key(Key::Char('j'))), KeyOutcome::Consumed);
    assert_eq!(pane.handle_key_event(key(Key::Char('k'))), KeyOutcome::Consumed);

    assert_eq!(pane.alias_input.value(), " jk");
    assert_eq!(pane.navigator.focused, Some(0));
}

#[test]
fn alias_enter_is_ignored_by_input_focus() {
    let mut pane = SourceIpAliasSettingPane::new();

    assert_eq!(pane.handle_key_event(key(Key::Enter)), KeyOutcome::Ignored);
}

#[test]
fn alias_input_is_ignored_without_source_ips() {
    let mut pane = SourceIpAliasSettingPane::new();

    assert_eq!(pane.handle_key_event(key(Key::Char('q'))), KeyOutcome::Ignored);
    assert!(pane.alias_input.value().is_empty());
    assert_eq!(pane.navigator.focused, None);
}

#[test]
fn pad_fills_to_width_with_spaces() {
    assert_eq!(pad("ab", 5), "ab   ");
    assert_eq!(pad("abcdef", 3), "abcdef");
    assert_eq!(pad("", 2), "  ");
}

#[test]
fn trimmed_alias_is_saved() {
    let mut pane = SourceIpAliasSettingPane::new();
    pane.load(vec!["10.0.0.1".into()], &Vec::new());
    pane.alias_input = InputBox::new("  tv  ".to_string());
    let saved = pane.aliases();
    assert_eq!(get(&saved, "10.0.0.1"), Some("tv"));
}
