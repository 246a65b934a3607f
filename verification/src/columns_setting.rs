//! The `Columns` pane of the connections settings: which columns are shown,
//! and in which order.
use vstd::prelude::*;
use crate::columns::{
    ALIVE_COLUMN_INDEX, CONNECTION_COL_COUNT, col_title, connection_col,
    default_connection_col_indices, spec_connection_col, spec_default_col_indices,
};
use crate::key::{Key, KeyInput, KeyOutcome, MOD_CONTROL, MOD_NONE};

use crate::shortcut::{fragment_view, parts_view, shortcuts_match, split_at_highlight, Fragment, Shortcut};
verus! {

/// Number of columns that PageUp and PageDown move by.
pub const COLUMN_PAGE_STEP: usize = 4;

/// A direction of movement in the pane.
#[derive(Debug, Clone, Copy, PartialEq, Eq, Structural)]
pub enum Direction {
    Prev,
    Next,
}

/// One column in the pane, with whether it is shown.
#[derive(Debug, Clone, Copy, PartialEq, Eq)]
pub struct ColumnSettingItem {
    pub original_index: usize,
    pub title: &'static str,
    pub selected: bool,
}

/// The item for column `i`.
pub open spec fn item_of(i: usize, selected: bool) -> ColumnSettingItem {
    ColumnSettingItem {
        original_index: i,
        title: spec_connection_col(i as int).unwrap().title,
        selected,
    }
}

/// Whether `i` names a configurable column.
pub open spec fn is_configurable(i: usize) -> bool {
    i != ALIVE_COLUMN_INDEX && i < CONNECTION_COL_COUNT
}

/// The items for the chosen columns, in the chosen order, all shown.
pub open spec fn selected_part(sel: Seq<usize>) -> Seq<ColumnSettingItem>
    decreases sel.len(),
{
    if sel.len() == 0 {
        Seq::empty()
    } else {
        let prev = selected_part(sel.drop_last());
        if is_configurable(sel.last()) {
            prev.push(item_of(sel.last(), true))
        } else {
            prev
        }
    }
}

/// The items for the configurable columns below `n` that were not chosen, in
/// column order, all hidden.
pub open spec fn unselected_part(sel: Seq<usize>, n: nat) -> Seq<ColumnSettingItem>
    decreases n,
{
    if n == 0 {
        Seq::empty()
    } else {
        let i = (n - 1) as usize;
        let prev = unselected_part(sel, (n - 1) as nat);
        if i != ALIVE_COLUMN_INDEX && !sel.contains(i) {
            prev.push(item_of(i, false))
        } else {
            prev
        }
    }
}

/// The chosen columns, or the default ones when none are chosen.
pub open spec fn effective_selection(sel: Seq<usize>) -> Seq<usize> {
    if sel.len() == 0 {
        spec_default_col_indices()
    } else {
        sel
    }
}

/// The items of the pane for a choice of columns: the chosen configurable
/// columns in the chosen order, then every other configurable column.
pub open spec fn column_items(sel: Seq<usize>) -> Seq<ColumnSettingItem> {
    let e = effective_selection(sel);
    selected_part(e) + unselected_part(e, CONNECTION_COL_COUNT as nat)
}

/// The column indices of the shown items, in order.
pub open spec fn shown_indices(items: Seq<ColumnSettingItem>) -> Seq<usize>
    decreases items.len(),
{
    if items.len() == 0 {
        Seq::empty()
    } else {
        let prev = shown_indices(items.drop_last());
        if items.last().selected {
            prev.push(items.last().original_index)
        } else {
            prev
        }
    }
}

/// The configurable entries of `sel`, in order.
pub open spec fn configurable_of(sel: Seq<usize>) -> Seq<usize>
    decreases sel.len(),
{
    if sel.len() == 0 {
        sel
    } else {
        let prev = configurable_of(sel.drop_last());
        if is_configurable(sel.last()) {
            prev.push(sel.last())
        } else {
            prev
        }
    }
}

/// Number of shown items.
pub open spec fn shown_count(items: Seq<ColumnSettingItem>) -> nat {
    shown_indices(items).len()
}

/// An element occurs in `s.push(x)` when it occurs in `s` or is `x`.
pub proof fn lemma_push_contains<T>(s: Seq<T>, x: T, y: T)
    ensures
        s.push(x).contains(y) == (s.contains(y) || x == y),
{
    let t = s.push(x);
    if s.contains(y) {
        let w = choose|w: int| 0 <= w < s.len() && s[w] == y;
        assert(t[w] == y);
    }
    if x == y {
        assert(t[s.len() as int] == y);
    }
    if t.contains(y) {
        let w = choose|w: int| 0 <= w < t.len() && t[w] == y;
        if w < s.len() {
            assert(s[w] == y);
        }
    }
}

/// Computes the items of the pane for a choice of columns.
pub fn column_items_from_selected(selected_columns: &[usize]) -> (r: Vec<ColumnSettingItem>)
    ensures
        r@ == column_items(selected_columns@),
{
    let defaults = default_connection_col_indices();
    let sel: &[usize] = if selected_columns.len() == 0 {
        defaults.as_slice()
    } else {
        selected_columns
    };
    let ghost e = effective_selection(selected_columns@);
    assert(sel@ == e);
    let mut items: Vec<ColumnSettingItem> = Vec::new();
    let mut i: usize = 0;
    while i < sel.len()
        invariant
            sel@ == e,
            i <= sel@.len(),
            items@ == selected_part(e.take(i as int)),
        decreases sel.len() - i,
    {
        assert(e.take(i + 1).drop_last() == e.take(i as int));
        let original_index = sel[i];
        if original_index != ALIVE_COLUMN_INDEX {
            match connection_col(original_index) {
                Some(def) => {
                    items.push(ColumnSettingItem { original_index, title: def.title, selected: true });
                },
                None => {},
            }
        }
        i = i + 1;
    }
    assert(e.take(e.len() as int) == e);
    let ghost head = items@;
    let mut j: usize = 0;
    while j < CONNECTION_COL_COUNT
        invariant
            sel@ == e,
            j <= CONNECTION_COL_COUNT,
            head == selected_part(e),
            items@ == head + unselected_part(e, j as nat),
        decreases CONNECTION_COL_COUNT - j,
    {
        let mut found = false;
        let mut k: usize = 0;
        while k < sel.len()
            invariant
                sel@ == e,
                k <= sel@.len(),
                found == e.take(k as int).contains(j),
            decreases sel.len() - k,
        {
            assert(e.take(k + 1) == e.take(k as int).push(e[k as int]));
            proof {
                lemma_push_contains(e.take(k as int), e[k as int], j);
            }
            if sel[k] == j {
                found = true;
            }
            k = k + 1;
        }
        assert(e.take(e.len() as int) == e);
        if j != ALIVE_COLUMN_INDEX && !found {
            match connection_col(j) {
                Some(def) => {
                    items.push(ColumnSettingItem { original_index: j, title: def.title, selected: false });
                },
                None => {},
            }
        }
        assert(unselected_part(e, (j + 1) as nat) == if j != ALIVE_COLUMN_INDEX && !e.contains(j) {
            unselected_part(e, j as nat).push(item_of(j, false))
        } else {
            unselected_part(e, j as nat)
        });
        j = j + 1;
    }
    items
}

/// `it` shown or hidden.
pub open spec fn with_selected(it: ColumnSettingItem, selected: bool) -> ColumnSettingItem {
    ColumnSettingItem { selected, ..it }
}

/// The `Columns` pane: its items, the focused item, and an error to show.
#[derive(Debug)]
pub struct ColumnsSettingPane {
    pub items: Vec<ColumnSettingItem>,
    pub selected: usize,
    pub error: Option<String>,
}

/// Whether the focus is on an item, or at 0 when there are none.
pub open spec fn focus_ok(items_len: nat, selected: usize) -> bool {
    selected < items_len || selected == 0
}

/// The text shown when the last shown column would be hidden.
pub open spec fn last_column_error() -> Seq<char> {
    "At least one column must be selected"@
}

impl Default for ColumnsSettingPane {
    fn default() -> (r: Self)
        ensures
            r.items@.len() == 0,
            r.selected == 0,
            r.error is None,
    {
        ColumnsSettingPane { items: Vec::new(), selected: 0, error: None }
    }
}

impl ColumnsSettingPane {
    /// Loads the items for a choice of columns and keeps the focus in range.
    pub fn load(&mut self, selected_columns: &[usize])
        ensures
            final(self).items@ == column_items(selected_columns@),
            final(self).selected == if old(self).selected < final(self).items@.len() {
                old(self).selected
            } else if final(self).items@.len() == 0 {
                0
            } else {
                (final(self).items@.len() - 1) as usize
            },
            final(self).error is None,
    {
        self.items = column_items_from_selected(selected_columns);
        let last = if self.items.len() == 0 {
            0
        } else {
            self.items.len() - 1
        };
        if self.selected > last {
            self.selected = last;
        }
        self.error = None;
    }

    /// Clears the pane.
    pub fn reset(&mut self)
        ensures
            final(self).items@.len() == 0,
            final(self).selected == 0,
            final(self).error is None,
    {
        self.items = Vec::new();
        self.selected = 0;
        self.error = None;
    }

    /// Sets the error to show.
    pub fn set_error(&mut self, error: &str)
        ensures
            final(self).items == old(self).items,
            final(self).selected == old(self).selected,
            final(self).error matches Some(e) && e@ == error@,
    {
        self.error = Some(error.to_string());
    }

    /// The error shown, if any.
    pub fn error(&self) -> (r: Option<&str>)
        ensures
            r is Some <==> self.error is Some,
            r matches Some(e) ==> e@ == self.error->0@,
    {
        match &self.error {
            Some(e) => Some(e.as_str()),
            None => None,
        }
    }

    /// Removes the error.
    pub fn clear_error(&mut self)
        ensures
            final(self).items == old(self).items,
            final(self).selected == old(self).selected,
            final(self).error is None,
    {
        self.error = None;
    }

    /// The column indices of the shown items, in order.
    pub fn selected_column_indices(&self) -> (r: Vec<usize>)
        ensures
            r@ == shown_indices(self.items@),
    {
        let mut r: Vec<usize> = Vec::new();
        let mut i: usize = 0;
        while i < self.items.len()
            invariant
                i <= self.items@.len(),
                r@ == shown_indices(self.items@.take(i as int)),
            decreases self.items.len() - i,
        {
            assert(self.items@.take(i + 1).drop_last() == self.items@.take(i as int));
            if self.items[i].selected {
                r.push(self.items[i].original_index);
            }
            i = i + 1;
        }
        assert(self.items@.take(self.items@.len() as int) == self.items@);
        r
    }

    /// Moves the focus by `step` items, stopping at either end.
    pub fn move_selection(&mut self, step: usize, direction: Direction)
        ensures
            final(self).items == old(self).items,
            final(self).selected == if old(self).items@.len() == 0 {
                0
            } else if direction == Direction::Prev {
                if old(self).selected >= step { (old(self).selected - step) as usize } else { 0 }
            } else {
                if old(self).selected + step >= old(self).items@.len() - 1 {
                    (old(self).items@.len() - 1) as usize
                } else {
                    (old(self).selected + step) as usize
                }
            },
            old(self).items@.len() == 0 ==> final(self).error == old(self).error,
            old(self).items@.len() > 0 ==> final(self).error is None,
    {
        let len = self.items.len();
        if len == 0 {
            self.selected = 0;
            return;
        }
        self.selected = match direction {
            Direction::Prev => if self.selected >= step { self.selected - step } else { 0 },
            Direction::Next => {
                let sum = self.selected.saturating_add(step);
                if sum >= len - 1 { len - 1 } else { sum }
            },
        };
        self.clear_error();
    }

    /// Moves the focus to `index`, or to the last item.
    pub fn jump_selection_to(&mut self, index: usize)
        ensures
            final(self).items == old(self).items,
            final(self).selected == if old(self).items@.len() == 0 {
                0
            } else if index >= old(self).items@.len() - 1 {
                (old(self).items@.len() - 1) as usize
            } else {
                index
            },
            old(self).items@.len() == 0 ==> final(self).error == old(self).error,
            old(self).items@.len() > 0 ==> final(self).error is None,
    {
        let len = self.items.len();
        if len == 0 {
            self.selected = 0;
            return;
        }
        self.selected = if index >= len - 1 { len - 1 } else { index };
        self.clear_error();
    }

    /// Shows or hides the focused column; the last shown column cannot be
    /// hidden, which sets an error instead.
    pub fn toggle_selected_column(&mut self)
        ensures
            final(self).selected == old(self).selected,
            old(self).selected >= old(self).items@.len() ==> final(self).items == old(self).items
                && final(self).error == old(self).error,
            old(self).selected < old(self).items@.len() ==> {
                let it = old(self).items@[old(self).selected as int];
                if it.selected && shown_count(old(self).items@) == 1 {
                    &&& final(self).items == old(self).items
                    &&& final(self).error matches Some(e) && e@ == last_column_error()
                } else {
                    &&& final(self).items@ == old(self).items@.update(
                        old(self).selected as int,
                        with_selected(it, !it.selected),
                    )
                    &&& final(self).error is None
                }
            },
    {
        let count = self.count_selected();
        if self.selected >= self.items.len() {
            return;
        }
        let item = self.items[self.selected];
        if item.selected && count == 1 {
            self.set_error("At least one column must be selected");
            return;
        }
        let i = self.selected;
        self.items.set(i, ColumnSettingItem { selected: !item.selected, ..item });
        self.clear_error();
    }

    /// Number of shown items.
    fn count_selected(&self) -> (r: usize)
        ensures
            r == shown_count(self.items@),
    {
        let mut n: usize = 0;
        let mut i: usize = 0;
        while i < self.items.len()
            invariant
                i <= self.items@.len(),
                n == shown_count(self.items@.take(i as int)),
                n <= i,
            decreases self.items.len() - i,
        {
            assert(self.items@.take(i + 1).drop_last() == self.items@.take(i as int));
            if self.items[i].selected {
                n = n + 1;
            }
            i = i + 1;
        }
        assert(self.items@.take(self.items@.len() as int) == self.items@);
        n
    }

    /// Shows every column.
    pub fn select_all_columns(&mut self)
        ensures
            final(self).selected == old(self).selected,
            final(self).items@.len() == old(self).items@.len(),
            forall|i: int|
                0 <= i < final(self).items@.len() ==> #[trigger] final(self).items@[i] == with_selected(old(self).items@[i], true),
            final(self).error is None,
    {
        let mut i: usize = 0;
        while i < self.items.len()
            invariant
                i <= self.items@.len(),
                self.items@.len() == old(self).items@.len(),
                self.selected == old(self).selected,
                forall|j: int|
                    0 <= j < i ==> #[trigger] self.items@[j] == with_selected(old(self).items@[j], true),
                forall|j: int| i <= j < self.items@.len() ==> #[trigger] self.items@[j] == old(self).items@[j],
            decreases self.items.len() - i,
        {
            let item = self.items[i];
            self.items.set(i, ColumnSettingItem { selected: true, ..item });
            i = i + 1;
        }
        self.clear_error();
    }

    /// Flips which columns are shown, keeping the focused one shown.
    pub fn invert_selected_columns(&mut self)
        ensures
            final(self).selected == old(self).selected,
            final(self).items@.len() == old(self).items@.len(),
            forall|i: int|
                0 <= i < final(self).items@.len() ==> #[trigger] final(self).items@[i] == with_selected(old(self).items@[i], if i == old(self).selected { true } else { !old(self).items@[i].selected }),
            final(self).error is None,
    {
        let mut i: usize = 0;
        while i < self.items.len()
            invariant
                i <= self.items@.len(),
                self.items@.len() == old(self).items@.len(),
                self.selected == old(self).selected,
                forall|j: int|
                    0 <= j < i ==> #[trigger] self.items@[j] == with_selected(old(self).items@[j], !old(self).items@[j].selected),
                forall|j: int| i <= j < self.items@.len() ==> #[trigger] self.items@[j] == old(self).items@[j],
            decreases self.items.len() - i,
        {
            let item = self.items[i];
            self.items.set(i, ColumnSettingItem { selected: !item.selected, ..item });
            i = i + 1;
        }
        if self.selected < self.items.len() {
            let s = self.selected;
            let item = self.items[s];
            self.items.set(s, ColumnSettingItem { selected: true, ..item });
        }
        self.clear_error();
    }

    /// Swaps the focused column with its neighbour and keeps the focus on it.
    pub fn reorder_selected_column(&mut self, direction: Direction)
        requires
            focus_ok(old(self).items@.len(), old(self).selected),
        ensures
            old(self).items@.len() == 0 ==> final(self).items == old(self).items
                && final(self).selected == 0 && final(self).error == old(self).error,
            old(self).items@.len() > 0 ==> {
                let s = old(self).selected as int;
                let n = reorder_target(old(self).items@.len(), old(self).selected, direction) as int;
                &&& final(self).selected == n
                &&& final(self).items@ == old(self).items@.update(s, old(self).items@[n]).update(
                    n,
                    old(self).items@[s],
                )
                &&& final(self).error is None
            },
    {
        if self.items.len() == 0 {
            self.selected = 0;
            return;
        }
        let len = self.items.len();
        let next = match direction {
            Direction::Prev => if self.selected >= 1 { self.selected - 1 } else { 0 },
            Direction::Next => if self.selected + 1 >= len - 1 { len - 1 } else { self.selected + 1 },
        };
        let s = self.selected;
        let a = self.items[s];
        let b = self.items[next];
        self.items.set(s, b);
        self.items.set(next, a);
        self.selected = next;
        self.clear_error();
    }

    /// Handles a key press in the pane.
    pub fn handle_key_event(&mut self, key: KeyInput) -> (r: KeyOutcome)
        requires
            focus_ok(old(self).items@.len(), old(self).selected),
        ensures
            r == KeyOutcome::Ignored ==> final(self).items == old(self).items
                && final(self).selected == old(self).selected
                && final(self).error == old(self).error,
            r == KeyOutcome::Ignored <==> !handled_key(key),
            focus_ok(final(self).items@.len(), final(self).selected),
    {
        match key.code {
            Key::Left if key.mods.bits == MOD_CONTROL => self.reorder_selected_column(Direction::Prev),
            Key::Right if key.mods.bits == MOD_CONTROL => self.reorder_selected_column(Direction::Next),
            Key::Left if key.mods.bits == MOD_NONE => self.move_selection(1, Direction::Prev),
            Key::Right if key.mods.bits == MOD_NONE => self.move_selection(1, Direction::Next),
            Key::PageUp => self.move_selection(COLUMN_PAGE_STEP, Direction::Prev),
            Key::PageDown => self.move_selection(COLUMN_PAGE_STEP, Direction::Next),
            Key::Char('g') | Key::Home => self.jump_selection_to(0),
            Key::Char('G') | Key::End => {
                let last = if self.items.len() == 0 { 0 } else { self.items.len() - 1 };
                self.jump_selection_to(last)
            },
            Key::Char(' ') => self.toggle_selected_column(),
            Key::Char('a') => self.select_all_columns(),
            Key::Char('i') => self.invert_selected_columns(),
            _ => return KeyOutcome::Ignored,
        }
        KeyOutcome::Consumed
    }
}

/// The position the focused column moves to.
pub open spec fn reorder_target(len: nat, selected: usize, direction: Direction) -> usize {
    match direction {
        Direction::Prev => if selected >= 1 { (selected - 1) as usize } else { 0 },
        Direction::Next => if selected + 1 >= len - 1 { (len - 1) as usize } else { (selected + 1) as usize },
    }
}

/// Whether the `Columns` pane acts on a key press.
pub open spec fn handled_key(key: KeyInput) -> bool {
    match key.code {
        Key::Left | Key::Right => key.mods.bits == MOD_CONTROL || key.mods.bits == MOD_NONE,
        Key::PageUp | Key::PageDown | Key::Home | Key::End => true,
        Key::Char(c) => c == 'g' || c == 'G' || c == ' ' || c == 'a' || c == 'i',
        _ => false,
    }
}

proof fn lemma_shown_indices_concat(a: Seq<ColumnSettingItem>, b: Seq<ColumnSettingItem>)
    ensures
        shown_indices(a + b) == shown_indices(a) + shown_indices(b),
    decreases b.len(),
{
    if b.len() == 0 {
        assert(a + b == a);
    } else {
        assert((a + b).drop_last() == a + b.drop_last());
        lemma_shown_indices_concat(a, b.drop_last());
    }
}

proof fn lemma_shown_selected_part(sel: Seq<usize>)
    ensures
        shown_indices(selected_part(sel)) == configurable_of(sel),
    decreases sel.len(),
{
    if sel.len() > 0 {
        lemma_shown_selected_part(sel.drop_last());
        let prev = selected_part(sel.drop_last());
        if is_configurable(sel.last()) {
            assert(prev.push(item_of(sel.last(), true)).drop_last() == prev);
        }
    }
}

proof fn lemma_shown_unselected_part(sel: Seq<usize>, n: nat)
    ensures
        shown_indices(unselected_part(sel, n)) == Seq::<usize>::empty(),
    decreases n,
{
    if n > 0 {
        lemma_shown_unselected_part(sel, (n - 1) as nat);
        let i = (n - 1) as usize;
        let prev = unselected_part(sel, (n - 1) as nat);
        if i != ALIVE_COLUMN_INDEX && !sel.contains(i) {
            assert(prev.push(item_of(i, false)).drop_last() == prev);
        }
    }
}

/// Loading a choice of columns and reading back the shown columns gives the
/// configurable columns of that choice (or of the default choice when it is
/// empty), in their order.
pub proof fn law_load_then_shown_columns(selected_columns: Seq<usize>)
    ensures
        shown_indices(column_items(selected_columns)) == configurable_of(
            effective_selection(selected_columns),
        ),
{
    let e = effective_selection(selected_columns);
    lemma_shown_indices_concat(selected_part(e), unselected_part(e, CONNECTION_COL_COUNT as nat));
    lemma_shown_selected_part(e);
    lemma_shown_unselected_part(e, CONNECTION_COL_COUNT as nat);
    assert(configurable_of(e) + Seq::<usize>::empty() == configurable_of(e));
}

proof fn lemma_shown_count_update(items: Seq<ColumnSettingItem>, s: int, b: bool)
    requires
        0 <= s < items.len(),
    ensures
        shown_count(items.update(s, with_selected(items[s], b))) + (if items[s].selected {
            1int
        } else {
            0int
        }) == shown_count(items) + (if b { 1int } else { 0int }),
    decreases items.len(),
{
    let u = items.update(s, with_selected(items[s], b));
    if s == items.len() - 1 {
        assert(u.drop_last() == items.drop_last());
    } else {
        assert(u.drop_last() == items.drop_last().update(s, with_selected(items[s], b)));
        lemma_shown_count_update(items.drop_last(), s, b);
    }
}

/// Toggling the focused column, when it is not refused, never leaves the pane
/// without a shown column.
pub proof fn law_toggle_keeps_a_shown_column(items: Seq<ColumnSettingItem>, selected: usize)
    requires
        selected < items.len(),
        shown_count(items) >= 1,
        !(items[selected as int].selected && shown_count(items) == 1),
    ensures
        shown_count(
            items.update(
                selected as int,
                with_selected(items[selected as int], !items[selected as int].selected),
            ),
        ) >= 1,
{
    lemma_shown_count_update(items, selected as int, !items[selected as int].selected);
}

/// Moving the focused column one place right and then one place left
/// restores the items and the focus.
pub proof fn law_reorder_next_then_prev(items: Seq<ColumnSettingItem>, selected: usize)
    requires
        selected + 1 < items.len() <= usize::MAX,
    ensures
        ({
            let n = reorder_target(items.len(), selected, Direction::Next);
            let once = items.update(selected as int, items[n as int]).update(n as int, items[selected as int]);
            let back = reorder_target(once.len(), n, Direction::Prev);
            &&& back == selected
            &&& once.update(n as int, once[back as int]).update(back as int, once[n as int]) == items
        }),
{
    let n = reorder_target(items.len(), selected, Direction::Next);
    assert(n == selected + 1);
    let once = items.update(selected as int, items[n as int]).update(n as int, items[selected as int]);
    assert(once.update(n as int, once[selected as int]).update(selected as int, once[n as int]) =~= items);
}

/// The footer labels of the columns pane: navigation, moving, toggle, all and invert.
pub open spec fn columns_shortcut_labels() -> Seq<Seq<(bool, Seq<char>)>> {
    seq![
        seq![(true, "←"@), (false, "/"@), (true, "PgUp"@), (false, "/"@), (true, "g"@), (false, " nav "@), (true, "G"@), (false, "/"@), (true, "PgDn"@), (false, "/"@), (true, "→"@)],
        seq![(true, "C-←"@), (false, " move "@), (true, "C-→"@)],
        seq![(false, "toggle "@), (true, "Space"@)],
        split_at_highlight("all"@, 0),
        split_at_highlight("invert"@, 0),
    ]
}

impl ColumnsSettingPane {
    /// The footer labels.
    pub fn shortcuts(&self) -> (r: Vec<Shortcut>)
        ensures
            shortcuts_match(r@, columns_shortcut_labels()),
    {
        let s0 = Shortcut::new(vec![Fragment::hl("←"), Fragment::raw("/"), Fragment::hl("PgUp"), Fragment::raw("/"), Fragment::hl("g"), Fragment::raw(" nav "), Fragment::hl("G"), Fragment::raw("/"), Fragment::hl("PgDn"), Fragment::raw("/"), Fragment::hl("→")]);
        let s1 = Shortcut::new(vec![Fragment::hl("C-←"), Fragment::raw(" move "), Fragment::hl("C-→")]);
        let s2 = Shortcut::new(vec![Fragment::raw("toggle "), Fragment::hl("Space")]);
        let s3 = Shortcut::new(vec![Fragment::hl("a"), Fragment::raw("ll")]);
        let s4 = Shortcut::new(vec![Fragment::hl("i"), Fragment::raw("nvert")]);
        proof {
            assert(parts_view(s0.parts@) =~= seq![(true, "←"@), (false, "/"@), (true, "PgUp"@), (false, "/"@), (true, "g"@), (false, " nav "@), (true, "G"@), (false, "/"@), (true, "PgDn"@), (false, "/"@), (true, "→"@)]);
            assert(parts_view(s1.parts@) =~= seq![(true, "C-←"@), (false, " move "@), (true, "C-→"@)]);
            assert(parts_view(s2.parts@) =~= seq![(false, "toggle "@), (true, "Space"@)]);
            reveal_strlit("all");
            reveal_strlit("a");
            reveal_strlit("ll");
            assert("all"@.subrange(0, 1) =~= "a"@);
            assert("all"@.subrange(1, 3) =~= "ll"@);
            assert(parts_view(s3.parts@) =~= seq![fragment_view(s3.parts@[0]), fragment_view(s3.parts@[1])]);
            assert(parts_view(s3.parts@) =~= split_at_highlight("all"@, 0));
            reveal_strlit("invert");
            reveal_strlit("i");
            reveal_strlit("nvert");
            assert("invert"@.subrange(0, 1) =~= "i"@);
            assert("invert"@.subrange(1, 6) =~= "nvert"@);
            assert(parts_view(s4.parts@) =~= seq![fragment_view(s4.parts@[0]), fragment_view(s4.parts@[1])]);
            assert(parts_view(s4.parts@) =~= split_at_highlight("invert"@, 0));
        }
        let r = vec![s0, s1, s2, s3, s4];
        assert(shortcuts_match(r@, columns_shortcut_labels()));
        r
    }
}

} // verus!
