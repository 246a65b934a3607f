use mihomo_tui::action::Action;
use mihomo_tui::key::{Key, KeyInput};
use mihomo_tui::logs::{LogLevel, LogsComponent, LogsTick};
use mihomo_tui::tabs::ComponentId;

fn key(code: Key) -> KeyInput {
    KeyInput::plain(code)
}

fn view_with(n: usize) -> LogsComponent {
    let mut v = LogsComponent::new();
    v.set_list_size(n, 10);
    v
}

#[test]
fn rows_wrap_around_both_ways() {
    let mut v = view_with(3);
    v.next_row();
    assert_eq!(v.selected, Some(0));
    v.next_row();
    v.next_row();
    assert_eq!(v.selected, Some(2));
    v.next_row();
    assert_eq!(v.selected, Some(0));
    v.prev_row();
    assert_eq!(v.selected, Some(2));
    assert_eq!(v.scroll_position, 2);
}

#[test]
fn empty_list_keeps_selection() {
    let mut v = view_with(0);
    v.next_row();
    v.prev_row();
    v.first_row();
    v.last_row();
    assert_eq!(v.selected, None);
}

#[test]
fn navigation_pauses_and_esc_resumes_live_mode() {
    let mut v = view_with(5);
    assert!(v.live);
    v.handle_key_event(key(Key::Char('G')));
    assert_eq!(v.selected, Some(4));
    assert!(!v.live);
    v.handle_key_event(key(Key::Char('g')));
    assert_eq!(v.selected, Some(0));
    v.handle_key_event(key(Key::Up));
    assert_eq!(v.selected, Some(4));
    v.handle_key_event(key(Key::Esc));
    assert!(v.live);
    assert_eq!(v.selected, None);
    assert_eq!(v.scroll_position, 0);
}

#[test]
fn level_keys_mark_a_reload_once() {
    let mut v = view_with(1);
    v.handle_key_event(key(Key::Char('e')));
    assert_eq!(v.level, Some(LogLevel::Error));
    assert!(v.level_changed);
    let tick = v.on_tick();
    assert_eq!(tick, LogsTick { animate: true, recompute_view: false, reload: true });
    v.handle_key_event(key(Key::Char('e')));
    assert!(!v.level_changed);
    v.handle_key_event(key(Key::Char('d')));
    assert_eq!(v.level, Some(LogLevel::Debug));
    assert!(v.level_changed);
}

#[test]
fn filter_pattern_is_applied_on_next_tick() {
    let mut v = view_with(1);
    v.set_filter_pattern(Some("dns".to_string()));
    let tick = v.on_tick();
    assert!(tick.recompute_view);
    assert!(!v.on_tick().recompute_view);
}

#[test]
fn f_opens_search() {
    let mut v = view_with(1);
    assert!(matches!(v.handle_key_event(key(Key::Char('f'))), Some(Action::Focus(ComponentId::Search))));
    assert!(v.handle_key_event(key(Key::Char('x'))).is_none());
}
