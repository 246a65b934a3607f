use std::collections::HashMap;

use mihomo_tui::columns::ALIVE_COLUMN_INDEX;
use mihomo_tui::connections_setting::ConnectionsSetting;
use mihomo_tui::action::Action;
use mihomo_tui::connections_view::{
    batch_terminate_request, filtered_active_connection_ids, header_labels, table_title, ConnectionsCommand, ConnectionsView,
    ShownConnection,
};
use mihomo_tui::key::{Key, KeyInput, MOD_NONE, MOD_SHIFT};
use mihomo_tui::sort::{SearchState, SortDir, SortSpec};
use mihomo_tui::tabs::ComponentId;

fn key(code: Key) -> KeyInput {
    KeyInput::plain(code)
}

fn setting() -> ConnectionsSetting {
    let columns = vec![ALIVE_COLUMN_INDEX, 1, 2];
    ConnectionsSetting {
        query_state: SearchState { pattern: None, sort: None, max_cols: columns.len() },
        columns,
        column_widths: HashMap::new(),
        source_ip_alias: Vec::new(),
    }
}

#[test]
fn right_from_no_sort_skips_hidden_alive_column() {
    let mut v = ConnectionsView::new();
    let mut s = setting();
    assert_eq!(v.handle_key_event(key(Key::Right), &mut s), ConnectionsCommand::SortChanged);
    assert_eq!(s.query_state.sort, Some(SortSpec { col: 1, dir: SortDir::Desc }));

    let mut v = ConnectionsView::new();
    let mut s = setting();
    v.handle_key_event(key(Key::Char('c')), &mut s);
    assert!(v.capture);
    v.handle_key_event(key(Key::Right), &mut s);
    assert_eq!(s.query_state.sort, Some(SortSpec { col: 0, dir: SortDir::Desc }));
    v.handle_key_event(key(Key::Char('r')), &mut s);
    assert_eq!(s.query_state.sort, Some(SortSpec { col: 0, dir: SortDir::Asc }));
    v.handle_key_event(key(Key::Left), &mut s);
    assert_eq!(s.query_state.sort, Some(SortSpec { col: 2, dir: SortDir::Asc }));
}

#[test]
fn navigation_pauses_live_mode_and_esc_resumes() {
    let mut v = ConnectionsView::new();
    let mut s = setting();
    v.navigator.length(5, 3);
    assert_eq!(v.handle_key_event(key(Key::Down), &mut s), ConnectionsCommand::Nothing);
    assert!(!v.live);
    assert_eq!(v.navigator.focused, Some(0));
    assert_eq!(v.handle_key_event(key(Key::Char('t')), &mut s), ConnectionsCommand::Terminate(0));
    assert_eq!(v.handle_key_event(key(Key::Enter), &mut s), ConnectionsCommand::Detail(0));
    v.handle_key_event(key(Key::Esc), &mut s);
    assert!(v.live);
    assert_eq!(v.navigator.focused, None);
    assert_eq!(v.handle_key_event(key(Key::Enter), &mut s), ConnectionsCommand::Nothing);
}

#[test]
fn width_keys_change_the_sorted_column() {
    let mut v = ConnectionsView::new();
    let mut s = setting();
    s.query_state.sort = Some(SortSpec { col: 1, dir: SortDir::Desc });
    s.column_widths.insert(1, 20);
    v.handle_key_event(KeyInput::with_mods(Key::Char('+'), MOD_SHIFT), &mut s);
    assert_eq!(s.column_widths.get(&1), Some(&21));
    v.handle_key_event(KeyInput::with_mods(Key::Char('-'), MOD_NONE), &mut s);
    v.handle_key_event(key(Key::Char('-')), &mut s);
    assert_eq!(s.column_widths.get(&1), Some(&19));
    v.handle_key_event(key(Key::Delete), &mut s);
    assert_eq!(s.column_widths.get(&1), None);
    v.handle_key_event(key(Key::Char('=')), &mut s);
    assert_eq!(v.layout.pending(1), Some(1));
}

#[test]
fn other_requests() {
    let mut v = ConnectionsView::new();
    let mut s = setting();
    assert_eq!(v.handle_key_event(key(Key::Char('T')), &mut s), ConnectionsCommand::TerminateFiltered);
    assert_eq!(v.handle_key_event(key(Key::Char('f')), &mut s), ConnectionsCommand::Focus(ComponentId::Filter));
    assert_eq!(v.handle_key_event(key(Key::Char('s')), &mut s), ConnectionsCommand::OpenSettings);
    assert_eq!(v.handle_key_event(key(Key::Char('z')), &mut s), ConnectionsCommand::Nothing);
}

#[test]
fn filter_pattern_is_kept_and_handed_back_on_tab_switch() {
    let mut v = ConnectionsView::new();
    let mut s = setting();
    let r = v.update(Action::FilterChanged(Some("^tcp".to_string())), &mut s);
    assert!(!r.save_layout && !r.recompute && !r.send_placeholder && r.reply.is_none());
    assert_eq!(s.query_state.pattern.as_deref(), Some("^tcp"));
    let r = v.update(Action::TabSwitch(ComponentId::Connections), &mut s);
    assert!(r.send_placeholder);
    match r.reply {
        Some(Action::FilterSet(p)) => assert_eq!(p.as_deref(), Some("^tcp")),
        other => panic!("unexpected reply {other:?}"),
    }
    let r = v.update(Action::TabSwitch(ComponentId::Logs), &mut s);
    assert!(r.reply.is_none() && !r.send_placeholder);
    let r = v.update(Action::ConnectionsSettingChanged, &mut s);
    assert!(r.recompute && r.send_placeholder && !r.save_layout);
}

#[test]
fn pending_layout_save_runs_out_on_ticks_or_quit() {
    let mut v = ConnectionsView::new();
    let mut s = setting();
    assert!(!v.update(Action::Tick, &mut s).save_layout);
    v.layout.schedule_layout_save();
    let saves: Vec<bool> = (0..5).map(|_| v.update(Action::Tick, &mut s).save_layout).collect();
    assert_eq!(saves, vec![false, false, false, true, false]);
    v.layout.schedule_layout_save();
    assert!(v.update(Action::Quit, &mut s).save_layout);
    assert!(!v.update(Action::Quit, &mut s).save_layout);
}

fn conn(id: &str, inactive: bool) -> ShownConnection {
    ShownConnection { id: id.to_string(), inactive }
}

#[test]
fn batch_terminate_takes_only_active_connections() {
    let rows = vec![conn("a", false), conn("b", true), conn("c", false)];
    assert_eq!(filtered_active_connection_ids(&rows), vec!["a".to_string(), "c".to_string()]);
    match batch_terminate_request(&rows) {
        Some(Action::ConnectionBatchTerminateRequest(ids)) => assert_eq!(ids, vec!["a".to_string(), "c".to_string()]),
        other => panic!("unexpected {other:?}"),
    }
    assert!(batch_terminate_request(&vec![conn("x", true)]).is_none());
    assert!(batch_terminate_request(&Vec::new()).is_none());
}

#[test]
fn table_titles_and_heads() {
    assert_eq!(table_title("connections", Some(0), 12), "connections (1/12)");
    assert_eq!(table_title("rules", None, 0), "rules (-/0)");
    let heads = header_labels(&[1, 99, 2, 8], Some(SortSpec { col: 1, dir: SortDir::Asc }));
    assert_eq!(heads, vec!["Host".to_string(), "Rule▲".to_string(), "SourceIP".to_string()]);
    let heads = header_labels(&[0, 1], Some(SortSpec { col: 0, dir: SortDir::Desc }));
    assert_eq!(heads, vec!["Alive▼".to_string(), "Host".to_string()]);
    assert_eq!(header_labels(&[3], None), vec!["Chains".to_string()]);
}
