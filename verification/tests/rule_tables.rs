use mihomo_tui::action::Action;
use mihomo_tui::key::{Key, KeyInput};
use mihomo_tui::rules::{RuleProvidersCommand, RuleProvidersComponent, RulesComponent};
use mihomo_tui::tabs::ComponentId;

fn key(code: Key) -> KeyInput {
    KeyInput::plain(code)
}

#[test]
fn rules_search_pattern_follows_the_search_box() {
    let mut r = RulesComponent::new();
    assert_eq!(r.handle_key_event(key(Key::Char('f'))).map(|a| matches!(a, Action::Focus(ComponentId::Search))), Some(true));
    assert!(r.handle_key_event(key(Key::Char('x'))).is_none());
    assert!(!r.update(Action::Tick).recompute);
    r.update(Action::SearchInputChanged(Some("DOMAIN".to_string())));
    assert!(r.update(Action::Tick).recompute);
    assert!(!r.update(Action::Tick).recompute);
    match r.update(Action::TabSwitch(ComponentId::Rules)).reply {
        Some(Action::SearchInputSet(p)) => assert_eq!(p.as_deref(), Some("DOMAIN")),
        _ => panic!("expected the pattern back"),
    }
    assert!(r.update(Action::TabSwitch(ComponentId::Logs)).reply.is_none());
}

#[test]
fn rule_providers_update_the_focused_or_the_visible_ones() {
    let names: Vec<String> = vec!["a".to_string(), "b".to_string(), "c".to_string()];
    let mut p = RuleProvidersComponent::new();
    p.navigator.content_length = 3;
    p.navigator.viewport = 2;
    assert!(!p.is_busy());
    assert_eq!(
        p.handle_key_event(key(Key::Char('u')), &names),
        RuleProvidersCommand::Update(vec!["a".to_string(), "b".to_string()])
    );
    assert_eq!(p.pending_update, vec!["a".to_string(), "b".to_string()]);
    assert!(p.is_busy());
    p.handle_key_event(key(Key::Down), &names);
    p.handle_key_event(key(Key::Down), &names);
    assert_eq!(p.navigator.focused, Some(1));
    assert_eq!(p.handle_key_event(key(Key::Char('u')), &names), RuleProvidersCommand::Update(vec!["b".to_string()]));
    p.update_finished(&"b".to_string());
    assert_eq!(p.pending_update, vec!["a".to_string(), "b".to_string()]);
    p.update_finished(&"a".to_string());
    p.update_finished(&"b".to_string());
    p.update_finished(&"zzz".to_string());
    assert!(p.pending_update.is_empty());
    p.handle_key_event(key(Key::Esc), &names);
    assert_eq!(p.navigator.focused, None);
    assert_eq!(p.handle_key_event(key(Key::Char('r')), &names), RuleProvidersCommand::Reload);
    assert!(p.loading);
    assert_eq!(p.handle_key_event(key(Key::Char('f')), &names), RuleProvidersCommand::FocusSearch);
}

#[test]
fn rule_providers_reload_on_tab_switch() {
    let mut p = RuleProvidersComponent::new();
    let u = p.update(Action::TabSwitch(ComponentId::RuleProviders));
    assert!(u.reload && p.loading);
    assert!(matches!(u.reply, Some(Action::SearchInputSet(None))));
    p.loading_finished();
    assert!(!p.is_busy());
}
