use mihomo_tui::sort::{SearchState, SortDir, SortSpec};

#[test]
fn test_sort_navigation() {
    let mut state = SearchState::new(3);
    assert_eq!(state.sort, None);

    // Test next
    for idx in 0..3 {
        state.sort_next();
        assert_eq!(state.sort.map(|v| v.col), Some(idx));
    }
    // wrap around to first sortable column
    state.sort_next();
    assert_eq!(state.sort.map(|v| v.col), Some(0));

    // Reset
    state.sort = None;
    // Test prev
    for idx in (0..3).rev() {
        state.sort_prev();
        assert_eq!(state.sort.map(|v| v.col), Some(idx));
    }
    // wrap around to last sortable column
    state.sort_prev();
    assert_eq!(state.sort.map(|v| v.col), Some(2));
}

#[test]
fn sort_starts_descending_forward_and_ascending_backward() {
    let mut state = SearchState::new(3);
    state.sort_next();
    assert_eq!(state.sort, Some(SortSpec { col: 0, dir: SortDir::Desc }));
    state.sort = None;
    state.sort_prev();
    assert_eq!(state.sort, Some(SortSpec { col: 2, dir: SortDir::Asc }));
}

#[test]
fn sort_rev_flips_direction_and_keeps_column() {
    let mut state = SearchState::new(3);
    state.sort_rev();
    assert_eq!(state.sort, None);
    state.sort_next();
    state.sort_rev();
    assert_eq!(state.sort, Some(SortSpec { col: 0, dir: SortDir::Asc }));
    state.sort_rev();
    assert_eq!(state.sort, Some(SortSpec { col: 0, dir: SortDir::Desc }));
}

#[test]
fn sort_without_columns_stays_unset() {
    let mut state = SearchState::new(0);
    state.sort_next();
    assert_eq!(state.sort, None);
    state.sort_prev();
    assert_eq!(state.sort, None);
}

#[test]
fn sort_moves_wrap_columns_past_the_end() {
    let mut s = SearchState::new(3);
    s.sort = Some(SortSpec { col: 5, dir: SortDir::Asc });
    s.sort_next();
    assert_eq!(s.sort, Some(SortSpec { col: 0, dir: SortDir::Asc }));
    s.sort = Some(SortSpec { col: 5, dir: SortDir::Desc });
    s.sort_prev();
    assert_eq!(s.sort, Some(SortSpec { col: 1, dir: SortDir::Desc }));
    let mut none = SearchState::new(0);
    none.sort = Some(SortSpec { col: 7, dir: SortDir::Asc });
    none.sort_next();
    none.sort_prev();
    assert_eq!(none.sort, Some(SortSpec { col: 7, dir: SortDir::Asc }));
}
