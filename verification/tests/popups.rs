use mihomo_tui::action::Action;
use mihomo_tui::detail::{count_lines, key_binding_rows, ConnectionDetailComponent, HelpComponent, HelpRow, KEY_ROW_COUNT};
use mihomo_tui::key::{Key, KeyInput, MOD_CONTROL};
use mihomo_tui::scroller::Scroller;

fn key(code: Key) -> KeyInput {
    KeyInput::plain(code)
}

#[test]
fn lines_are_counted_as_str_lines_does() {
    assert_eq!(count_lines(""), 0);
    assert_eq!(count_lines("a"), 1);
    assert_eq!(count_lines("a\n"), 1);
    assert_eq!(count_lines("a\nb"), 2);
    assert_eq!(count_lines("a\n\nb\n"), 3);
    assert_eq!(count_lines("{\n    \"id\": 1\n}"), "{\n    \"id\": 1\n}".lines().count());
}

#[test]
fn detail_shows_text_from_the_top_and_closes() {
    let mut d = ConnectionDetailComponent::new();
    d.scroller.length(10, 3);
    d.scroller.position(5);
    d.show("{\n  \"a\": 1\n}".to_string());
    assert!(d.show);
    assert_eq!(d.total_lines, 3);
    assert_eq!(d.scroller.pos(), 0);
    assert!(d.handle_key_event(key(Key::Down)).is_none());
    assert_eq!(d.scroller.pos(), 1);
    assert!(matches!(d.handle_key_event(key(Key::Enter)), Some(Action::Unfocus)));
    assert!(!d.show);
    assert!(d.data.is_empty());
}

#[test]
fn detail_quits_on_ctrl_c() {
    let mut d = ConnectionDetailComponent::new();
    d.show("x".to_string());
    assert!(matches!(d.handle_key_event(KeyInput::with_mods(Key::Char('c'), MOD_CONTROL)), Some(Action::Quit)));
    assert!(d.show);
}

#[test]
fn help_leaves_on_h() {
    let mut h = HelpComponent::new();
    assert!(matches!(h.handle_key_event(key(Key::Char('h'))), Some(Action::Unfocus)));
    assert!(h.handle_key_event(key(Key::Char('x'))).is_none());
    assert_eq!(HelpComponent::title_pad(10, 6), 7);
    assert_eq!(HelpComponent::title_pad(2, 10), 0);
    assert_eq!(HelpComponent::entry_pad(30, 5, 4), 23);
    assert_eq!(HelpComponent::entry_pad(3, 5, 4), 0);
}

#[test]
fn scroller_keys_stay_in_range() {
    let mut s = Scroller::new();
    s.length(10, 4);
    assert!(s.handle_key_event(key(Key::End)));
    assert_eq!(s.pos(), 6);
    assert!(s.handle_key_event(key(Key::Down)));
    assert_eq!(s.pos(), 6);
    assert!(s.handle_key_event(key(Key::PageUp)));
    assert_eq!(s.pos(), 2);
    assert!(s.handle_key_event(key(Key::Char(' '))));
    assert_eq!(s.pos(), 6);
    assert!(s.handle_key_event(key(Key::Char('g'))));
    assert_eq!(s.pos(), 0);
    assert!(!s.handle_key_event(key(Key::Char('x'))));
    s.length(3, 4);
    assert_eq!(s.pos(), 0);
}

fn entry_texts(row: &HelpRow) -> Option<(String, String)> {
    match row {
        HelpRow::Entry(l, r) => Some((l.clone(), r.clone())),
        _ => None,
    }
}

#[test]
fn help_rows_name_the_config_and_its_sidecar() {
    let rows = HelpComponent::rows("/home/u/.config/mihomo-tui/config.yaml", "https://example.org/tree/v1");
    assert_eq!(rows.len(), 5 + KEY_ROW_COUNT);
    assert!(matches!(rows[0], HelpRow::Empty));
    assert!(matches!(rows[1], HelpRow::Empty));
    assert_eq!(
        entry_texts(&rows[2]),
        Some(("Default configuration".to_string(), "'/home/u/.config/mihomo-tui/config.yaml'".to_string()))
    );
    assert_eq!(
        entry_texts(&rows[3]),
        Some(("Runtime configuration".to_string(), "'/home/u/.config/mihomo-tui/config.runtime.yaml'".to_string()))
    );
    assert_eq!(entry_texts(&rows[4]), Some(("Version".to_string(), "https://example.org/tree/v1".to_string())));
    assert_eq!(entry_texts(&rows[6]), Some(("Key".to_string(), "Description".to_string())));
    assert!(matches!(rows[rows.len() - 1], HelpRow::Empty));
}

#[test]
fn help_key_table_has_its_sections() {
    let rows = key_binding_rows();
    assert_eq!(rows.len(), KEY_ROW_COUNT);
    let titles: Vec<String> = rows
        .iter()
        .filter_map(|r| match r {
            HelpRow::Title(t) => Some(t.clone()),
            _ => None,
        })
        .collect();
    assert_eq!(titles.first().map(String::as_str), Some("common"));
    assert_eq!(titles.last().map(String::as_str), Some("## DNS Query"));
    assert_eq!(titles.len(), 13);
    assert!(rows.iter().any(|r| entry_texts(r) == Some(("h".to_string(), "Toggle help".to_string()))));
}
