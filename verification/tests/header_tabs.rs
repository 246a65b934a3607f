use std::ops::Range;

use mihomo_tui::tabs::{
    divider_width, tab_width, tab_widths, tabs, tabs_row_width, visible_tab_range, visible_tabs, ComponentId,
    TabNameMode, TAB_COUNT,
};

fn width_for(widths: &[u16], range: Range<usize>) -> u16 {
    widths[range.clone()].iter().sum::<u16>() + divider_width(range.len())
}

#[test]
fn visible_tab_range_cases() {
    #[derive(Debug)]
    struct Case {
        widths: Vec<u16>,
        selected: usize,
        overflow_width: u16,
        expected: Range<usize>,
    }

    let cases = [
        Case { widths: vec![3, 3, 3], selected: 1, overflow_width: 0, expected: 0..3 },
        Case { widths: vec![7, 7, 7], selected: 1, overflow_width: 100, expected: 1..2 },
        Case { widths: vec![5; 8], selected: 5, overflow_width: 30, expected: 4..7 },
        Case { widths: vec![5; 8], selected: 6, overflow_width: 30, expected: 5..8 },
    ];

    for case in cases {
        assert_eq!(
            visible_tab_range(&case.widths, case.selected, case.overflow_width),
            case.expected,
            "{case:?}"
        );
    }
}

#[test]
fn visible_tabs_mode_cases() {
    let cases = [
        (tabs_row_width(TabNameMode::Full), TabNameMode::Full, 0..TAB_COUNT),
        (tabs_row_width(TabNameMode::Short), TabNameMode::Short, 0..TAB_COUNT),
    ];

    for (available_width, expected_mode, expected_range) in cases {
        let (mode, range) = visible_tabs(available_width, 0);

        assert_eq!(mode, expected_mode);
        assert_eq!(range, expected_range);
    }
}

#[test]
fn visible_tabs_clips_short_tabs_when_short_width_does_not_fit() {
    let selected = 6;
    let short_width = tabs_row_width(TabNameMode::Short);
    let (mode, range) = visible_tabs(short_width - 1, selected);

    assert_eq!(mode, TabNameMode::Short);
    assert!(range.contains(&selected));
    assert!(range.end < TAB_COUNT || range.start > 0);
    assert!(width_for(tab_widths(TabNameMode::Short).as_slice(), range) < short_width);
}

#[test]
fn tab_row_widths_have_exact_values() {
    assert_eq!(tabs_row_width(TabNameMode::Full), 99);
    assert_eq!(tabs_row_width(TabNameMode::Short), 66);
    assert_eq!(divider_width(0), 0);
    assert_eq!(divider_width(1), 0);
    assert_eq!(divider_width(8), 7);
    assert_eq!(tab_width("Rules"), 8);
}

#[test]
fn tabs_start_with_overview() {
    let t = tabs();
    assert_eq!(t.len(), TAB_COUNT);
    assert_eq!(t[0], ComponentId::Overview);
    assert!(ComponentId::Connections.supports_filter());
    assert!(!ComponentId::Logs.supports_filter());
}

#[test]
fn wide_tabs_are_fine_when_nothing_is_trimmed() {
    assert_eq!(visible_tab_range(&[65535], 0, 0), 0..1);
    assert_eq!(visible_tab_range(&[65535, 3], 1, 0), 0..2);
    assert_eq!(visible_tab_range(&[65535, 3], 0, 4), 0..1);
    assert_eq!(visible_tab_range(&[], 0, 4), 0..0);
}
