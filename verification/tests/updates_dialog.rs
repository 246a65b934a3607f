use mihomo_tui::action::Action;
use mihomo_tui::key::{Key, KeyInput};
use mihomo_tui::updates::{
    core_upgrade_poll, upgrade_requested_message, UpdateTarget, UpdatesCommand, UpdatesComponent, UpgradePoll,
    VersionStatus, CORE_UPGRADE_POLL_COUNT,
};

fn key(code: Key) -> KeyInput {
    KeyInput::plain(code)
}

fn available(current: &str) -> VersionStatus {
    VersionStatus::Available { current: current.to_string(), latest: "v9".to_string() }
}

#[test]
fn enter_updates_the_selected_target_when_available() {
    let mut d = UpdatesComponent::new();
    let app = available("v1");
    let core = VersionStatus::UpToDate { current: "v2".to_string() };
    assert!(matches!(d.handle_key_event(key(Key::Enter), &app, &core), UpdatesCommand::SelfUpdate(true)));
    d.handle_key_event(key(Key::Char(' ')), &app, &core);
    assert!(matches!(d.handle_key_event(key(Key::Enter), &app, &core), UpdatesCommand::SelfUpdate(false)));
    d.handle_key_event(key(Key::Tab), &app, &core);
    assert_eq!(d.selected, UpdateTarget::Core);
    assert!(matches!(d.handle_key_event(key(Key::Enter), &app, &core), UpdatesCommand::Nothing));
    let core = available("v2");
    match d.handle_key_event(key(Key::Enter), &app, &core) {
        UpdatesCommand::UpgradeCore(v) => assert_eq!(v, "v2"),
        other => panic!("unexpected {other:?}"),
    }
}

#[test]
fn show_resets_the_dialog() {
    let mut d = UpdatesComponent::new();
    d.toggle_auto_restart();
    d.selected = UpdateTarget::Core;
    d.show();
    assert_eq!(d, UpdatesComponent { selected: UpdateTarget::App, auto_restart: true });
    let s = VersionStatus::Unknown;
    assert!(matches!(d.handle_key_event(key(Key::Char('q')), &s, &s), UpdatesCommand::Close));
    assert!(matches!(d.handle_key_event(key(Key::Char('r')), &s, &s), UpdatesCommand::Refresh));
}

#[test]
fn upgrade_poll_waits_for_a_new_version() {
    assert_eq!(core_upgrade_poll("v1", Some("v1".to_string()), 1), UpgradePoll::Wait);
    assert_eq!(core_upgrade_poll("v1", None, 3), UpgradePoll::Wait);
    assert_eq!(core_upgrade_poll("v1", Some("v2".to_string()), 2), UpgradePoll::Upgraded("v2".to_string()));
    assert_eq!(core_upgrade_poll("v1", Some("v1".to_string()), CORE_UPGRADE_POLL_COUNT), UpgradePoll::TimedOut);
}

#[test]
fn upgrade_message_is_sized() {
    match upgrade_requested_message() {
        Action::Info(m) => {
            assert_eq!(m.title, "Update mihomo core");
            assert_eq!(m.message, "Mihomo core upgrade requested, waiting for service to restart...");
            assert_eq!(m.msg_box_size.map(|s| (s.percent_x, s.percent_y)), Some((45, 30)));
        }
        _ => panic!("expected an info message"),
    }
}

#[test]
fn switching_the_target_twice_comes_back() {
    assert_eq!(UpdateTarget::App.next(), UpdateTarget::Core);
    assert_eq!(UpdateTarget::Core.next(), UpdateTarget::App);
    assert_eq!(UpdateTarget::App.next().next(), UpdateTarget::App);
    assert_eq!(UpdateTarget::Core.next().next(), UpdateTarget::Core);
}
