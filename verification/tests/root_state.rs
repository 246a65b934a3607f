use mihomo_tui::key::{Key, KeyInput, MOD_CONTROL};
use mihomo_tui::action::Action;
use mihomo_tui::message::AppMessage;
use mihomo_tui::root::{popup_for, GlobalShortcut, KeyRoute, MessageKind, RenderHandle, RootState, IDLE_TICKS};
use mihomo_tui::tabs::ComponentId;

fn key(code: Key) -> KeyInput {
    KeyInput::plain(code)
}

#[test]
fn idle_tab_is_destroyed_after_its_ticks() {
    let mut root = RootState::new();
    root.requesters.register();
    assert_eq!(root.get_or_start(ComponentId::Overview), Ok(Some(RenderHandle::Gated(0))));
    assert_eq!(root.get_or_start(ComponentId::Overview), Ok(None));
    let switch = root.switch_tab(ComponentId::Rules);
    assert!(!switch.start_stream);
    assert!(!switch.needs_filter);
    assert_eq!(root.get_or_start(ComponentId::Rules), Ok(Some(RenderHandle::Shared)));
    for _ in 0..IDLE_TICKS - 1 {
        assert!(root.on_tick().destroyed.is_empty());
    }
    let out = root.on_tick();
    assert_eq!(out.destroyed, vec![ComponentId::Overview]);
    // the current tab is never idle, so it is never destroyed
    assert!(root.on_tick().destroyed.is_empty());
    assert_eq!(root.current_tab, ComponentId::Rules);
}

#[test]
fn connections_stream_starts_with_its_tab_and_stops_when_unused() {
    let mut root = RootState::new();
    root.requesters.register();
    let s = root.switch_tab(ComponentId::Connections);
    assert!(s.start_stream);
    assert!(s.needs_filter);
    assert!(!root.switch_tab(ComponentId::Overview).start_stream);
    root.switch_tab(ComponentId::Logs);
    assert!(!root.on_tick().stream_stopped);
    let cleared = root.clear_idle_tabs();
    assert!(cleared.is_empty());
    assert!(!root.on_tick().stream_stopped);
}

#[test]
fn keys_are_routed_in_order() {
    let mut root = RootState::new();
    assert_eq!(root.route_key(KeyInput::with_mods(Key::Char('c'), MOD_CONTROL)), KeyRoute::Global(GlobalShortcut::Quit));
    assert_eq!(
        root.route_key(KeyInput::with_mods(Key::Char('u'), MOD_CONTROL)),
        KeyRoute::Global(GlobalShortcut::AppUpdateRequest)
    );
    assert_eq!(root.route_key(key(Key::Char('q'))), KeyRoute::Quit);
    assert_eq!(root.route_key(key(Key::Char('h'))), KeyRoute::Help);
    assert_eq!(root.route_key(key(Key::Char('1'))), KeyRoute::SwitchTab(ComponentId::Overview));
    assert_eq!(root.route_key(key(Key::Char('9'))), KeyRoute::Nothing);
    assert_eq!(root.route_key(key(Key::Char('x'))), KeyRoute::CurrentTab(ComponentId::Overview));
    root.focused = Some(ComponentId::Filter);
    assert_eq!(root.route_key(key(Key::Char('q'))), KeyRoute::Focused(ComponentId::Filter));
    assert_eq!(root.route_key(KeyInput::with_mods(Key::Char('u'), MOD_CONTROL)), KeyRoute::Focused(ComponentId::Filter));
    root.msg_box_open = true;
    assert_eq!(root.route_key(key(Key::Char('q'))), KeyRoute::MsgBox);
}

#[test]
fn actions_open_their_popups() {
    assert_eq!(popup_for(&Action::Help), Some(ComponentId::Help));
    assert_eq!(popup_for(&Action::AppUpdateRequest), Some(ComponentId::Updates));
    assert_eq!(popup_for(&Action::DnsQuery), Some(ComponentId::DnsQuery));
    assert_eq!(popup_for(&Action::ProxyDetail("g".to_string())), Some(ComponentId::ProxyDetail));
    assert_eq!(popup_for(&Action::ConnectionBatchTerminateRequest(vec![])), Some(ComponentId::ConnectionBatchTerminate));
    assert_eq!(popup_for(&Action::Tick), None);

    let mut s = RootState::new();
    let r = s.apply_action(Action::Help);
    assert_eq!(r.opened_popup, Some(ComponentId::Help));
    assert!(r.pass_on);
    assert_eq!(s.popup, Some(ComponentId::Help));
    s.apply_action(Action::Focus(ComponentId::Help));
    assert_eq!(s.focused, Some(ComponentId::Help));
    let r = s.apply_action(Action::Unfocus);
    assert!(r.tab_shortcuts);
    assert_eq!(s.popup, None);
    assert_eq!(s.focused, None);
    let r = s.apply_action(Action::Unfocus);
    assert!(!r.tab_shortcuts);
}

#[test]
fn messages_open_the_box_and_stop_there() {
    let mut s = RootState::new();
    let r = s.apply_action(Action::Error(AppMessage::from(("Oops", "broken"))));
    assert!(!r.pass_on);
    assert!(s.msg_box_open);
    match r.message {
        Some((MessageKind::Error, m)) => {
            assert_eq!(m.title, "Oops");
            assert_eq!(m.message, "broken");
        },
        _ => panic!("expected an error box"),
    }
    let r = s.apply_action(Action::Info(AppMessage::from(("Note", "done"))));
    assert!(matches!(r.message, Some((MessageKind::Info, _))));
}

#[test]
fn actions_go_to_existing_components_that_are_not_idle() {
    let s = RootState::new();
    assert_eq!(s.receivers(), vec![ComponentId::Header, ComponentId::Footer]);
}
