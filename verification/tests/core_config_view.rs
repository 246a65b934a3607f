use mihomo_tui::core_config::{ActivePane, CoreAction, CoreCommand, CoreConfigComponent, EditorState, ACTION_COUNT};
use mihomo_tui::key::{Key, KeyInput};
use mihomo_tui::shortcut::{Fragment, Shortcut};

fn key(code: Key) -> KeyInput {
    KeyInput::plain(code)
}

#[test]
fn panes_cycle_through_the_buttons() {
    assert_eq!(ActivePane::Editor.next(ACTION_COUNT), ActivePane::Action(0));
    assert_eq!(ActivePane::Action(4).next(ACTION_COUNT), ActivePane::Editor);
    assert_eq!(ActivePane::Editor.prev(ACTION_COUNT), ActivePane::Action(4));
    assert_eq!(ActivePane::Action(0).prev(ACTION_COUNT), ActivePane::Editor);
    assert_eq!(ActivePane::Action(2).prev(ACTION_COUNT), ActivePane::Action(1));
}

#[test]
fn tab_reports_shortcut_change_only_between_editor_and_buttons() {
    let mut v = CoreConfigComponent::new();
    assert_eq!(v.handle_key_event(key(Key::Tab)), CoreCommand::Shortcuts);
    assert_eq!(v.active_pane, ActivePane::Action(0));
    assert_eq!(v.handle_key_event(key(Key::Tab)), CoreCommand::Nothing);
    assert_eq!(v.handle_key_event(key(Key::BackTab)), CoreCommand::Nothing);
    assert_eq!(v.handle_key_event(key(Key::BackTab)), CoreCommand::Shortcuts);
    assert_eq!(v.active_pane, ActivePane::Editor);
}

#[test]
fn buttons_run_actions_one_at_a_time() {
    let mut v = CoreConfigComponent::new();
    v.handle_key_event(key(Key::BackTab));
    assert_eq!(v.active_pane, ActivePane::Action(4));
    assert_eq!(v.handle_key_event(key(Key::Enter)), CoreCommand::Run(CoreAction::UpdateGeo));
    assert!(v.loading);
    assert_eq!(v.handle_key_event(key(Key::Enter)), CoreCommand::Nothing);
    v.end_task();
    assert_eq!(v.handle_key_event(key(Key::Enter)), CoreCommand::Run(CoreAction::UpdateGeo));
    assert_eq!(CoreAction::FlushFakeIp.label(), "Flush FakeIP");
    assert_eq!(CoreAction::at(5), None);
}

#[test]
fn submit_needs_changes() {
    let mut v = CoreConfigComponent::new();
    v.loaded("{\n  a: 1\n}".to_string());
    assert_eq!(v.line_count, 3);
    assert_eq!(v.handle_key_event(key(Key::Enter)), CoreCommand::Nothing);
    assert_eq!(v.handle_key_event(key(Key::Char('e'))), CoreCommand::Edit);
    v.editing_started();
    v.sync_from_editor("{\n  a: 2\n}\n".to_string());
    assert!(v.modified);
    assert_eq!(v.editor_state, EditorState::Idle);
    assert_eq!(v.content, "{\n  a: 2\n}\n");
    assert_eq!(v.handle_key_event(key(Key::Enter)), CoreCommand::Submit);
    assert_eq!(v.handle_key_event(key(Key::Char('d'))), CoreCommand::Reload);
}

#[test]
fn unchanged_edit_is_not_modified() {
    let mut v = CoreConfigComponent::new();
    v.loaded("x".to_string());
    v.editing_started();
    v.sync_from_editor("x".to_string());
    assert!(!v.modified);
    v.sync_from_editor("y".to_string());
    assert_eq!(v.content, "x");
}

#[test]
fn shortcuts_depend_on_pane() {
    let mut v = CoreConfigComponent::new();
    let s = v.shortcuts();
    assert_eq!(s.len(), 6);
    assert_eq!(s[3], Shortcut::from("edit", 0).unwrap());
    assert_eq!(s[4], Shortcut::from("discard", 0).unwrap());
    v.handle_key_event(key(Key::Tab));
    let s = v.shortcuts();
    assert_eq!(s.len(), 2);
    assert_eq!(s[1], Shortcut::new(vec![Fragment::raw("execute "), Fragment::hl("↵")]));
}
