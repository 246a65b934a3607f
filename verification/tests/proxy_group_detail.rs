use mihomo_tui::key::{Key, KeyInput};
use mihomo_tui::proxies::Proxy;
use mihomo_tui::proxy_detail::{DetailCommand, ProxyDetailComponent};

fn key(code: Key) -> KeyInput {
    KeyInput::plain(code)
}

fn proxy(name: &str) -> Proxy {
    Proxy { name: name.to_string(), hidden: None, children: None, selected: None, history: vec![], latency: None }
}

fn group(name: &str, children: &[&str], selected: Option<&str>) -> Proxy {
    Proxy {
        name: name.to_string(),
        hidden: None,
        children: Some(children.iter().map(|c| c.to_string()).collect()),
        selected: selected.map(str::to_string),
        history: vec![],
        latency: None,
    }
}

fn sample() -> Vec<Proxy> {
    vec![
        proxy("a"),
        proxy("b"),
        group("Auto", &["a", "b"], Some("b")),
        group("Select", &["a", "Auto", "b"], Some("Auto")),
    ]
}

#[test]
fn opening_a_member_group_and_going_back_restores_the_selection() {
    let ps = sample();
    let mut d = ProxyDetailComponent::new();
    assert!(d.show("Select".to_string(), &ps));
    d.navigator.length(3, 10);
    d.handle_key_event(key(Key::Down), &ps);
    d.handle_key_event(key(Key::Down), &ps);
    assert_eq!(d.navigator.focused, Some(1));
    let before = d.navigator;

    assert!(matches!(d.handle_key_event(key(Key::Char(']')), &ps), DetailCommand::Nothing));
    assert_eq!(d.proxy_name.as_deref(), Some("Auto"));
    assert_eq!(d.layers.len(), 2);
    assert_eq!(d.navigator.focused, None);

    assert!(matches!(d.handle_key_event(key(Key::Char('[')), &ps), DetailCommand::Nothing));
    assert_eq!(d.proxy_name.as_deref(), Some("Select"));
    assert_eq!(d.layers.len(), 1);
    assert_eq!(d.navigator, before);
}

#[test]
fn c_focuses_the_member_in_use() {
    let ps = sample();
    let mut d = ProxyDetailComponent::new();
    d.show("Select".to_string(), &ps);
    d.navigator.length(3, 10);
    d.handle_key_event(key(Key::Char('c')), &ps);
    assert_eq!(d.navigator.focused, Some(1));
}

#[test]
fn enter_selects_and_t_tests() {
    let ps = sample();
    let mut d = ProxyDetailComponent::new();
    d.show("Select".to_string(), &ps);
    d.navigator.length(3, 10);
    match d.handle_key_event(key(Key::Char('t')), &ps) {
        DetailCommand::TestGroup(g) => assert_eq!(g, "Select"),
        other => panic!("unexpected {other:?}"),
    }
    d.handle_key_event(key(Key::Char('G')), &ps);
    match d.handle_key_event(key(Key::Enter), &ps) {
        DetailCommand::Select { group, proxy } => {
            assert_eq!(group, "Select");
            assert_eq!(proxy, "b");
        }
        other => panic!("unexpected {other:?}"),
    }
    match d.handle_key_event(key(Key::Char('t')), &ps) {
        DetailCommand::TestProxy(p) => assert_eq!(p, "b"),
        other => panic!("unexpected {other:?}"),
    }
    assert_eq!(d.pending_test, 2);
    d.test_finished();
    d.group_test_finished();
    assert_eq!(d.pending_test, 0);
}

#[test]
fn esc_clears_selection_then_closes() {
    let ps = sample();
    let mut d = ProxyDetailComponent::new();
    d.show("Select".to_string(), &ps);
    d.navigator.length(3, 10);
    d.handle_key_event(key(Key::Down), &ps);
    assert!(matches!(d.handle_key_event(key(Key::Esc), &ps), DetailCommand::Nothing));
    assert_eq!(d.navigator.focused, None);
    assert!(matches!(d.handle_key_event(key(Key::Esc), &ps), DetailCommand::Close));
    assert!(!d.show);
    assert!(d.layers.is_empty());
}

#[test]
fn unknown_group_closes() {
    let ps = sample();
    let mut d = ProxyDetailComponent::new();
    assert!(!d.show("missing".to_string(), &ps));
    assert!(!d.show);
    assert!(matches!(d.handle_key_event(key(Key::Char('q')), &ps), DetailCommand::Nothing));
}

#[test]
fn r_reloads_and_blocks_layer_moves() {
    let ps = sample();
    let mut d = ProxyDetailComponent::new();
    d.show("Select".to_string(), &ps);
    assert!(matches!(d.handle_key_event(key(Key::Char('r')), &ps), DetailCommand::Reload));
    assert!(d.loading);
    d.handle_key_event(key(Key::Char(']')), &ps);
    assert_eq!(d.proxy_name.as_deref(), Some("Select"));
    d.loading_finished();
    d.handle_key_event(key(Key::Char(']')), &ps);
    assert_eq!(d.proxy_name.as_deref(), Some("Auto"));
}
