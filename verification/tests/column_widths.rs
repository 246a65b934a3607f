use std::collections::HashMap;

use mihomo_tui::column_layout::{ColumnLayout, LAYOUT_SAVE_TICKS};
use mihomo_tui::columns::ALIVE_COLUMN_INDEX;
use mihomo_tui::connections_setting::ConnectionsSetting;
use mihomo_tui::sort::{SearchState, SortDir, SortSpec};

const HOST: usize = 1;
const RULE: usize = 2;
const SOURCE_IP: usize = 8;

fn setting() -> ConnectionsSetting {
    let columns = vec![ALIVE_COLUMN_INDEX, HOST, RULE];
    ConnectionsSetting {
        query_state: SearchState { pattern: None, sort: None, max_cols: columns.len() },
        columns,
        column_widths: HashMap::new(),
        source_ip_alias: Vec::new(),
    }
}

#[test]
fn pending_width_deltas_accumulate_and_cancel_out() {
    let mut layout = ColumnLayout::new();

    layout.queue_column_width_delta(HOST, 1);
    layout.queue_column_width_delta(HOST, 1);
    layout.queue_column_width_delta(HOST, -1);
    assert_eq!(layout.pending(HOST), Some(1));

    layout.queue_column_width_delta(HOST, -1);
    assert_eq!(layout.pending(HOST), None);
}

#[test]
fn layout_save_waits_four_ticks_and_resets_countdown() {
    let mut layout = ColumnLayout::new();

    layout.schedule_layout_save();
    for _ in 0..3 {
        assert!(!layout.tick_layout_save());
    }

    layout.schedule_layout_save();
    for _ in 0..3 {
        assert!(!layout.tick_layout_save());
    }

    assert!(layout.tick_layout_save());
    assert!(!layout.tick_layout_save());
}

#[test]
fn quit_flushes_pending_layout_save() {
    let mut layout = ColumnLayout::new();
    layout.schedule_layout_save();

    assert!(layout.flush_layout_save());
    assert_eq!(layout.layout_save_ticks_remaining, 0);
    assert!(!layout.flush_layout_save());
}

#[test]
fn pending_width_delta_prefers_latest_fixed_width() {
    let mut layout = ColumnLayout::new();
    let mut setting = setting();
    layout.queue_column_width_delta(HOST, -3);
    setting.column_widths.insert(HOST, 28);

    assert_eq!(layout.resolve_pending_column_widths(&setting, &vec![0, 10, 10]), Some(vec![(HOST, 1, 25)]));
}

#[test]
fn pending_width_deltas_use_current_layout_and_ignore_invisible_columns() {
    let mut layout = ColumnLayout::new();
    let setting = setting();
    let rendered = vec![0u16, 30, 20];
    layout.queue_column_width_delta(HOST, 2);
    layout.queue_column_width_delta(SOURCE_IP, 1);

    assert_eq!(layout.resolve_pending_column_widths(&setting, &rendered), Some(vec![(HOST, 1, rendered[1] + 2)]));
    assert!(layout.pending_column_width_deltas.is_empty());
}

#[test]
fn applying_pending_deltas_fixes_widths_and_schedules_save() {
    let mut layout = ColumnLayout::new();
    let mut setting = setting();
    layout.queue_column_width_delta(RULE, -5);
    let updates = layout.apply_pending_column_width_deltas(&mut setting, &vec![0, 30, 20]);
    assert_eq!(updates, vec![(2, 15)]);
    assert_eq!(setting.column_widths.get(&RULE), Some(&15));
    assert_eq!(layout.layout_save_ticks_remaining, LAYOUT_SAVE_TICKS);
}

#[test]
fn adjusting_a_fixed_width_changes_it_at_once() {
    let mut layout = ColumnLayout::new();
    let mut setting = setting();
    setting.query_state.sort = Some(SortSpec { col: 1, dir: SortDir::Desc });
    setting.column_widths.insert(HOST, 10);
    layout.adjust_column_width(&mut setting, 1);
    assert_eq!(setting.column_widths.get(&HOST), Some(&11));
    assert_eq!(layout.layout_save_ticks_remaining, LAYOUT_SAVE_TICKS);

    layout.reset_column_width(&mut setting);
    assert_eq!(setting.column_widths.get(&HOST), None);
}

#[test]
fn width_never_goes_below_one() {
    let mut layout = ColumnLayout::new();
    let mut setting = setting();
    setting.query_state.sort = Some(SortSpec { col: 1, dir: SortDir::Desc });
    setting.column_widths.insert(HOST, 1);
    layout.adjust_column_width(&mut setting, -1);
    assert_eq!(setting.column_widths.get(&HOST), Some(&1));
    assert_eq!(layout.layout_save_ticks_remaining, 0);
}

#[test]
fn alive_column_width_is_never_adjusted() {
    let mut layout = ColumnLayout::new();
    let mut setting = setting();
    setting.query_state.sort = Some(SortSpec { col: 0, dir: SortDir::Desc });
    layout.adjust_column_width(&mut setting, 1);
    assert!(layout.pending_column_width_deltas.is_empty());
    assert!(setting.column_widths.is_empty());
}
