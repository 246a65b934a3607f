use mihomo_tui::columns::{ALIVE_COLUMN_INDEX, CONNECTION_COL_COUNT};
use mihomo_tui::columns_setting::{ColumnsSettingPane, Direction, COLUMN_PAGE_STEP};
use mihomo_tui::key::{Key, KeyInput, KeyOutcome, MOD_CONTROL, MOD_NONE, MOD_SHIFT};

fn key(code: Key, mods: u8) -> KeyInput {
    KeyInput::with_mods(code, mods)
}

#[test]
fn columns_load_keeps_selected_order_and_appends_unselected() {
    let mut pane = ColumnsSettingPane::default();

    pane.load(&[2, 1, ALIVE_COLUMN_INDEX]);

    assert_eq!(pane.items[0].original_index, 2);
    assert_eq!(pane.items[1].original_index, 1);
    assert!(pane.items[0].selected);
    assert!(pane.items[1].selected);
    assert_eq!(pane.items.len(), CONNECTION_COL_COUNT - 1);
    assert!(!pane.items.iter().any(|item| item.original_index == ALIVE_COLUMN_INDEX));
}

#[test]
fn columns_cannot_toggle_last_selected_column() {
    let mut pane = ColumnsSettingPane::default();
    pane.load(&[1]);
    for item in pane.items.iter_mut().skip(1) {
        item.selected = false;
    }

    pane.toggle_selected_column();

    assert_eq!(pane.error(), Some("At least one column must be selected"));
    assert!(pane.items[0].selected);
}

#[test]
fn columns_reorder_changes_selected_column_order() {
    let mut pane = ColumnsSettingPane::default();
    pane.load(&[1, 2, 3]);

    pane.reorder_selected_column(Direction::Next);

    assert_eq!(pane.selected_column_indices()[..3], [2, 1, 3]);
    assert_eq!(pane.selected, 1);
}

#[test]
fn columns_reorder_uses_ctrl_arrow_shortcut() {
    let mut pane = ColumnsSettingPane::default();
    pane.load(&[1, 2, 3]);

    assert_eq!(pane.handle_key_event(key(Key::Right, MOD_SHIFT)), KeyOutcome::Ignored);
    assert_eq!(pane.selected_column_indices()[..3], [1, 2, 3]);

    assert_eq!(pane.handle_key_event(key(Key::Right, MOD_CONTROL)), KeyOutcome::Consumed);
    assert_eq!(pane.selected_column_indices()[..3], [2, 1, 3]);
    assert_eq!(pane.selected, 1);
}

#[test]
fn columns_g_and_shift_g_jump_to_first_and_last_column() {
    let mut pane = ColumnsSettingPane::default();
    pane.load(&[1, 2, 3]);
    pane.selected = 2;

    assert_eq!(pane.handle_key_event(key(Key::Char('g'), MOD_NONE)), KeyOutcome::Consumed);
    assert_eq!(pane.selected, 0);

    assert_eq!(pane.handle_key_event(key(Key::Char('G'), MOD_NONE)), KeyOutcome::Consumed);
    assert_eq!(pane.selected, pane.items.len() - 1);
}

#[test]
fn columns_select_all_marks_every_column_selected() {
    let mut pane = ColumnsSettingPane::default();
    pane.load(&[1, 2, 3]);
    for item in pane.items.iter_mut().skip(1) {
        item.selected = false;
    }

    assert_eq!(pane.handle_key_event(key(Key::Char('a'), MOD_NONE)), KeyOutcome::Consumed);

    assert!(pane.items.iter().all(|item| item.selected));
    assert_eq!(pane.error(), None);
}

#[test]
fn columns_invert_keeps_current_column_selected() {
    let mut pane = ColumnsSettingPane::default();
    pane.load(&[1, 2, 3]);
    pane.selected = 1;

    assert_eq!(pane.handle_key_event(key(Key::Char('i'), MOD_NONE)), KeyOutcome::Consumed);

    assert!(!pane.items[0].selected);
    assert!(pane.items[1].selected);
    assert!(!pane.items[2].selected);
    assert_eq!(pane.error(), None);
}

#[test]
fn columns_page_up_and_page_down_move_by_four_with_bounds() {
    let mut pane = ColumnsSettingPane::default();
    pane.load(&[1, 2, 3]);

    assert_eq!(pane.handle_key_event(key(Key::PageDown, MOD_NONE)), KeyOutcome::Consumed);
    assert_eq!(pane.selected, COLUMN_PAGE_STEP.min(pane.items.len() - 1));

    pane.selected = pane.items.len().saturating_sub(2);
    assert_eq!(pane.handle_key_event(key(Key::PageDown, MOD_NONE)), KeyOutcome::Consumed);
    assert_eq!(pane.selected, pane.items.len() - 1);

    pane.selected = COLUMN_PAGE_STEP + 1;
    assert_eq!(pane.handle_key_event(key(Key::PageUp, MOD_NONE)), KeyOutcome::Consumed);
    assert_eq!(pane.selected, 1);

    pane.selected = 1;
    assert_eq!(pane.handle_key_event(key(Key::PageUp, MOD_NONE)), KeyOutcome::Consumed);
    assert_eq!(pane.selected, 0);
}

#[test]
fn columns_fast_navigation_accepts_modified_keys() {
    let mut pane = ColumnsSettingPane::default();
    pane.load(&[1, 2, 3]);

    assert_eq!(pane.handle_key_event(key(Key::Char('g'), MOD_CONTROL)), KeyOutcome::Consumed);
    assert_eq!(pane.selected, 0);

    assert_eq!(pane.handle_key_event(key(Key::Char('G'), MOD_CONTROL)), KeyOutcome::Consumed);
    assert_eq!(pane.selected, pane.items.len() - 1);

    assert_eq!(pane.handle_key_event(key(Key::PageUp, MOD_SHIFT)), KeyOutcome::Consumed);
    assert_eq!(pane.selected, (pane.items.len() - 1).saturating_sub(COLUMN_PAGE_STEP));

    assert_eq!(pane.handle_key_event(key(Key::PageDown, MOD_SHIFT)), KeyOutcome::Consumed);
    assert_eq!(pane.selected, pane.items.len() - 1);
}

#[test]
fn columns_left_moves_focus_and_ignores_other_keys() {
    let mut pane = ColumnsSettingPane::default();
    pane.load(&[1, 2, 3]);
    pane.selected = 2;
    assert_eq!(pane.handle_key_event(key(Key::Left, MOD_NONE)), KeyOutcome::Consumed);
    assert_eq!(pane.selected, 1);
    assert_eq!(pane.handle_key_event(key(Key::Char('x'), MOD_NONE)), KeyOutcome::Ignored);
    assert_eq!(pane.selected, 1);
}
