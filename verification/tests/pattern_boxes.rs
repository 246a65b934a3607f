use mihomo_tui::action::Action;
use mihomo_tui::filter::{FilterComponent, SearchComponent};
use mihomo_tui::key::{Key, KeyInput, MOD_CONTROL};
use mihomo_tui::tabs::ComponentId;

fn key(code: Key) -> KeyInput {
    KeyInput::plain(code)
}

#[test]
fn filter_passes_trimmed_pattern_on_tick_while_focused() {
    let mut f = FilterComponent::new();
    assert!(f.update(Action::Focus(ComponentId::Filter)).is_none());
    for c in " dns ".chars() {
        assert!(f.handle_key_event(key(Key::Char(c))).is_none());
    }
    match f.update(Action::Tick) {
        Some(Action::FilterChanged(p)) => assert_eq!(p.as_deref(), Some("dns")),
        other => panic!("unexpected {other:?}"),
    }
    assert!(f.update(Action::Tick).is_none());
}

#[test]
fn filter_blank_pattern_clears_the_filter() {
    let mut f = FilterComponent::new();
    f.update(Action::Focus(ComponentId::Filter));
    f.handle_key_event(key(Key::Char(' ')));
    match f.update(Action::Tick) {
        Some(Action::FilterChanged(p)) => assert_eq!(p, None),
        other => panic!("unexpected {other:?}"),
    }
}

#[test]
fn filter_enter_gives_up_focus_without_passing_pattern() {
    let mut f = FilterComponent::new();
    f.update(Action::Focus(ComponentId::Filter));
    f.handle_key_event(key(Key::Char('a')));
    assert!(matches!(f.handle_key_event(key(Key::Enter)), Some(Action::Unfocus)));
    assert!(f.update(Action::Tick).is_none());
    assert!(f.pattern.should_send);
}

#[test]
fn filter_set_and_placeholder() {
    let mut f = FilterComponent::new();
    f.update(Action::FilterSet(Some("host:x".to_string())));
    assert_eq!(f.pattern.input.value(), "host:x");
    f.update(Action::FilterSet(None));
    assert_eq!(f.pattern.input.value(), "");
    f.update(Action::FilterPlaceholder(Some("Host, Rule".to_string())));
    assert_eq!(f.placeholder.as_deref(), Some("Host, Rule"));
}

#[test]
fn search_quits_on_ctrl_c() {
    let mut s = SearchComponent::new();
    assert!(matches!(s.handle_key_event(KeyInput::with_mods(Key::Char('c'), MOD_CONTROL)), Some(Action::Quit)));
    s.focus();
    s.handle_key_event(key(Key::Char('e')));
    assert_eq!(s.tick(), Some(Some("e".to_string())));
    assert_eq!(s.tick(), None);
    s.set(Some("warn".to_string()));
    assert_eq!(s.pattern.input.value(), "warn");
}
