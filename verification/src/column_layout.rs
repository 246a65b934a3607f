//! Resizing the columns of the connections table, and saving the layout a
//! little after the last change.
use vstd::prelude::*;
use std::collections::HashMap;
use crate::columns::ALIVE_COLUMN_INDEX;
use crate::connections_setting::{ConnectionsSetting, position, position_of};

verus! {

broadcast use vstd::std_specs::hash::group_hash_axioms;

/// Ticks to wait after a layout change before saving it.
pub const LAYOUT_SAVE_TICKS: u8 = 4;

/// `a + b` held within the range of `i16`.
pub open spec fn sat_add_i16(a: i16, b: i16) -> i16 {
    if a + b > i16::MAX {
        i16::MAX
    } else if a + b < i16::MIN {
        i16::MIN
    } else {
        (a + b) as i16
    }
}

/// A width moved by `delta`, held within `1..=u16::MAX`.
pub open spec fn moved_width(current: u16, delta: i16) -> u16 {
    if current + delta > u16::MAX {
        u16::MAX
    } else if current + delta < 1 {
        1
    } else {
        (current + delta) as u16
    }
}

/// The pending change of a column: that of its last entry.
pub open spec fn pending_lookup(v: Seq<(usize, i16)>, k: usize) -> Option<i16>
    decreases v.len(),
{
    if v.len() == 0 {
        None
    } else if v.last().0 == k {
        Some(v.last().1)
    } else {
        pending_lookup(v.drop_last(), k)
    }
}

/// The width updates for pending changes `p`: for each change that is not
/// zero, of a visible column whose width changes, the column, its position
/// among the visible columns, and its new width (from its fixed width, or
/// else from the width it was drawn with).
pub open spec fn width_updates(
    p: Seq<(usize, i16)>,
    columns: Seq<usize>,
    fixed: Map<usize, u16>,
    rendered: Seq<u16>,
) -> Seq<(usize, usize, u16)>
    decreases p.len(),
{
    if p.len() == 0 {
        Seq::empty()
    } else {
        let prev = width_updates(p.drop_last(), columns, fixed, rendered);
        let (index, delta) = p.last();
        match position_of(columns, index) {
            Some(v) => if delta != 0 && v < rendered.len() {
                let current = if fixed.contains_key(index) {
                    fixed[index]
                } else {
                    rendered[v as int]
                };
                let next = moved_width(current, delta);
                if next != current {
                    prev.push((index, v, next))
                } else {
                    prev
                }
            } else {
                prev
            },
            None => prev,
        }
    }
}

/// The column whose width the keys change: the sorted column, unless it is
/// `Alive`.
pub open spec fn selected_column(s: ConnectionsSetting) -> Option<usize> {
    match s.query_state.sort {
        Some(sort) => if sort.col < s.columns@.len() && s.columns@[sort.col as int] != ALIVE_COLUMN_INDEX {
            Some(s.columns@[sort.col as int])
        } else {
            None
        },
        None => None,
    }
}

/// Width changes not yet drawn, and the countdown to saving the layout.
#[derive(Debug)]
pub struct ColumnLayout {
    /// Changes of columns that have no fixed width yet, by column; no
    /// column occurs twice.
    pub pending_column_width_deltas: Vec<(usize, i16)>,
    /// Ticks until the layout is saved; 0 when nothing is to be saved.
    pub layout_save_ticks_remaining: u8,
}

/// No column occurs twice.
pub open spec fn columns_unique(v: Seq<(usize, i16)>) -> bool {
    forall|i: int, j: int| 0 <= i < j < v.len() ==> #[trigger] v[i].0 != #[trigger] v[j].0
}

/// `l1` and `s1` are `l0` and `s0` after the width of the selected column
/// was changed by `delta`.
pub open spec fn width_adjusted(l0: ColumnLayout, s0: ConnectionsSetting, l1: ColumnLayout, s1: ConnectionsSetting, delta: i16) -> bool {
    &&& (s1.columns == s0.columns)
    &&& (s1.query_state == s0.query_state)
    &&& (s1.source_ip_alias == s0.source_ip_alias)
    &&& (selected_column(s0) is None ==> l1 == l0 && s1.column_widths
        == s0.column_widths)
    &&& (selected_column(s0) matches Some(index) ==> {
        if s0.column_widths@.contains_key(index) {
            let current = s0.column_widths@[index];
            let total = match pending_lookup(l0.pending_column_width_deltas@, index) {
                Some(p) => sat_add_i16(p, delta),
                None => delta,
            };
            let next = moved_width(current, total);
            &&& pending_lookup(l1.pending_column_width_deltas@, index) is None
            &&& forall|o: usize| o != index ==> #[trigger] pending_lookup(l1.pending_column_width_deltas@, o)
                == pending_lookup(l0.pending_column_width_deltas@, o)
            &&& next == current ==> s1.column_widths == s0.column_widths
                && l1.layout_save_ticks_remaining == l0.layout_save_ticks_remaining
            &&& next != current ==> s1.column_widths@ == s0.column_widths@.insert(index, next)
                && l1.layout_save_ticks_remaining == LAYOUT_SAVE_TICKS
        } else {
            &&& s1.column_widths == s0.column_widths
            &&& l1.layout_save_ticks_remaining == l0.layout_save_ticks_remaining
            &&& delta != 0 ==> {
                let next = match pending_lookup(l0.pending_column_width_deltas@, index) {
                    Some(c) => sat_add_i16(c, delta),
                    None => delta,
                };
                &&& next == 0 ==> pending_lookup(l1.pending_column_width_deltas@, index) is None
                &&& next != 0 ==> pending_lookup(l1.pending_column_width_deltas@, index) == Some(next)
            }
        }
    })
}

/// `l1` and `s1` are `l0` and `s0` after the width of the selected column
/// was reset.
pub open spec fn width_reset(l0: ColumnLayout, s0: ConnectionsSetting, l1: ColumnLayout, s1: ConnectionsSetting) -> bool {
    &&& (s1.columns == s0.columns)
    &&& (s1.query_state == s0.query_state)
    &&& (s1.source_ip_alias == s0.source_ip_alias)
    &&& (selected_column(s0) is None ==> l1 == l0 && s1.column_widths
        == s0.column_widths)
    &&& (selected_column(s0) matches Some(index) ==> {
        &&& pending_lookup(l1.pending_column_width_deltas@, index) is None
        &&& forall|o: usize| o != index ==> #[trigger] pending_lookup(l1.pending_column_width_deltas@, o)
            == pending_lookup(l0.pending_column_width_deltas@, o)
        &&& s1.column_widths@ == s0.column_widths@.remove(index)
        &&& l1.layout_save_ticks_remaining == if s0.column_widths@.contains_key(index) {
            LAYOUT_SAVE_TICKS
        } else {
            l0.layout_save_ticks_remaining
        }
    })
}

impl ColumnLayout {
    /// No pending change and nothing to save.
    pub fn new() -> (r: Self)
        ensures
            r.pending_column_width_deltas@.len() == 0,
            r.layout_save_ticks_remaining == 0,
    {
        ColumnLayout { pending_column_width_deltas: Vec::new(), layout_save_ticks_remaining: 0 }
    }

    /// The pending change of a column, if any.
    pub fn pending(&self, index: usize) -> (r: Option<i16>)
        ensures
            r == pending_lookup(self.pending_column_width_deltas@, index),
    {
        let v = &self.pending_column_width_deltas;
        let mut i: usize = v.len();
        assert(v@.take(i as int) =~= v@);
        while i > 0
            invariant
                i <= v@.len(),
                v@ == self.pending_column_width_deltas@,
                pending_lookup(v@, index) == pending_lookup(v@.take(i as int), index),
            decreases i,
        {
            assert(v@.take(i as int).drop_last() =~= v@.take(i - 1));
            assert(v@.take(i as int).last() == v@[i - 1]);
            if v[i - 1].0 == index {
                return Some(v[i - 1].1);
            }
            i = i - 1;
        }
        None
    }

    /// Drops the pending change of a column.
    pub fn remove_pending(&mut self, index: usize)
        requires
            columns_unique(old(self).pending_column_width_deltas@),
        ensures
            columns_unique(final(self).pending_column_width_deltas@),
            pending_lookup(final(self).pending_column_width_deltas@, index) is None,
            forall|o: usize| o != index ==> #[trigger] pending_lookup(final(self).pending_column_width_deltas@, o)
                == pending_lookup(old(self).pending_column_width_deltas@, o),
            final(self).layout_save_ticks_remaining == old(self).layout_save_ticks_remaining,
    {
        let v = &self.pending_column_width_deltas;
        let mut kept: Vec<(usize, i16)> = Vec::new();
        let mut i: usize = 0;
        while i < v.len()
            invariant
                i <= v@.len(),
                columns_unique(v@),
                columns_unique(kept@),
                forall|a: int| 0 <= a < kept@.len() ==> exists|b: int| 0 <= b < i && #[trigger] kept@[a] == v@[b],
                pending_lookup(kept@, index) is None,
                forall|o: usize| o != index ==> #[trigger] pending_lookup(kept@, o) == pending_lookup(
                    v@.take(i as int),
                    o,
                ),
            decreases v.len() - i,
        {
            let ghost before = kept@;
            assert(v@.take(i + 1).drop_last() =~= v@.take(i as int));
            assert(v@.take(i + 1).last() == v@[i as int]);
            if v[i].0 != index {
                kept.push(v[i]);
                proof {
                    assert(kept@.drop_last() =~= before);
                    assert forall|a: int, b: int| 0 <= a < b < kept@.len() implies #[trigger] kept@[a].0
                        != #[trigger] kept@[b].0 by {
                        if b == kept@.len() - 1 {
                            let w = choose|w: int| 0 <= w < i && #[trigger] before[a] == v@[w];
                            assert(kept@[a] == before[a]);
                        } else {
                            assert(kept@[a] == before[a] && kept@[b] == before[b]);
                        }
                    }
                    assert forall|a: int| 0 <= a < kept@.len() implies exists|b: int| 0 <= b < i + 1
                        && #[trigger] kept@[a] == v@[b] by {
                        if a == kept@.len() - 1 {
                            assert(kept@[a] == v@[i as int]);
                        } else {
                            assert(kept@[a] == before[a]);
                            let w = choose|w: int| 0 <= w < i && #[trigger] before[a] == v@[w];
                            assert(kept@[a] == v@[w]);
                        }
                    }
                    assert forall|o: usize| o != index implies #[trigger] pending_lookup(kept@, o) == pending_lookup(
                        v@.take(i + 1),
                        o,
                    ) by {
                        assert(pending_lookup(before, o) == pending_lookup(v@.take(i as int), o));
                    }
                }
            } else {
                proof {
                    assert forall|o: usize| o != index implies #[trigger] pending_lookup(kept@, o) == pending_lookup(
                        v@.take(i + 1),
                        o,
                    ) by {}
                }
            }
            i = i + 1;
        }
        assert(v@.take(v@.len() as int) =~= v@);
        self.pending_column_width_deltas = kept;
    }

    /// Adds `delta` to the pending change of a column (held within `i16`); a
    /// change that comes back to zero is dropped.
    pub fn queue_column_width_delta(&mut self, index: usize, delta: i16)
        requires
            columns_unique(old(self).pending_column_width_deltas@),
        ensures
            columns_unique(final(self).pending_column_width_deltas@),
            final(self).layout_save_ticks_remaining == old(self).layout_save_ticks_remaining,
            delta == 0 ==> final(self).pending_column_width_deltas == old(self).pending_column_width_deltas,
            delta != 0 ==> {
                let next = match pending_lookup(old(self).pending_column_width_deltas@, index) {
                    Some(c) => sat_add_i16(c, delta),
                    None => delta,
                };
                &&& next == 0 ==> pending_lookup(final(self).pending_column_width_deltas@, index) is None
                &&& next != 0 ==> pending_lookup(final(self).pending_column_width_deltas@, index) == Some(next)
                &&& forall|o: usize| o != index ==> #[trigger] pending_lookup(final(self).pending_column_width_deltas@, o)
                    == pending_lookup(old(self).pending_column_width_deltas@, o)
            },
    {
        if delta == 0 {
            return;
        }
        let next: i16 = match self.pending(index) {
            Some(c) => {
                let s: i32 = c as i32 + delta as i32;
                if s > 32767 {
                    32767
                } else if s < -32768 {
                    -32768
                } else {
                    s as i16
                }
            },
            None => delta,
        };
        self.remove_pending(index);
        if next != 0 {
            let ghost before = self.pending_column_width_deltas@;
            self.pending_column_width_deltas.push((index, next));
            proof {
                assert(self.pending_column_width_deltas@.drop_last() =~= before);
                assert(self.pending_column_width_deltas@.last() == (index, next));
                assert forall|o: usize| o != index implies #[trigger] pending_lookup(
                    self.pending_column_width_deltas@,
                    o,
                ) == pending_lookup(before, o) by {}
                assert forall|a: int, b: int| 0 <= a < b < self.pending_column_width_deltas@.len() implies
                    #[trigger] self.pending_column_width_deltas@[a].0 != #[trigger] self.pending_column_width_deltas@[b].0 by {
                    if b == self.pending_column_width_deltas@.len() - 1 {
                        assert(self.pending_column_width_deltas@[a] == before[a]);
                        if before[a].0 == index {
                            assert(pending_lookup(before, index) is Some) by {
                                lemma_pending_present(before, a);
                            }
                        }
                    } else {
                        assert(self.pending_column_width_deltas@[a] == before[a]);
                        assert(self.pending_column_width_deltas@[b] == before[b]);
                    }
                }
            }
        }
    }

    /// Turns the pending changes into width updates for the table as it was
    /// drawn (`rendered_widths`, by visible column); all pending changes are
    /// used up. Nothing when no width changes.
    pub fn resolve_pending_column_widths(
        &mut self,
        setting: &ConnectionsSetting,
        rendered_widths: &Vec<u16>,
    ) -> (r: Option<Vec<(usize, usize, u16)>>)
        ensures
            final(self).pending_column_width_deltas@.len() == 0,
            final(self).layout_save_ticks_remaining == old(self).layout_save_ticks_remaining,
            ({
                let u = width_updates(
                    old(self).pending_column_width_deltas@,
                    setting.columns@,
                    setting.column_widths@,
                    rendered_widths@,
                );
                &&& u.len() == 0 ==> r is None
                &&& u.len() > 0 ==> (r matches Some(v) && v@ == u)
            }),
    {
        let mut pending: Vec<(usize, i16)> = Vec::new();
        std::mem::swap(&mut pending, &mut self.pending_column_width_deltas);
        let mut updates: Vec<(usize, usize, u16)> = Vec::new();
        let mut i: usize = 0;
        while i < pending.len()
            invariant
                i <= pending@.len(),
                updates@ == width_updates(
                    pending@.take(i as int),
                    setting.columns@,
                    setting.column_widths@,
                    rendered_widths@,
                ),
            decreases pending.len() - i,
        {
            assert(pending@.take(i + 1).drop_last() =~= pending@.take(i as int));
            assert(pending@.take(i + 1).last() == pending@[i as int]);
            let (index, delta) = pending[i];
            if delta != 0 {
                match position(&setting.columns, index) {
                    Some(v) => {
                        if v < rendered_widths.len() {
                            let current: u16 = match setting.column_widths.get(&index) {
                                Some(w) => *w,
                                None => rendered_widths[v],
                            };
                            let next = moved(current, delta);
                            if next != current {
                                updates.push((index, v, next));
                            }
                        }
                    },
                    None => {},
                }
            }
            i = i + 1;
        }
        assert(pending@.take(pending@.len() as int) =~= pending@);
        if updates.len() == 0 {
            None
        } else {
            Some(updates)
        }
    }

    /// Applies the pending changes to the table as it was drawn: the new
    /// widths become fixed widths, the layout is to be saved, and the updates
    /// (visible column, width) are returned for the table being drawn.
    pub fn apply_pending_column_width_deltas(
        &mut self,
        setting: &mut ConnectionsSetting,
        rendered_widths: &Vec<u16>,
    ) -> (r: Vec<(usize, u16)>)
        ensures
            final(self).pending_column_width_deltas@.len() == 0,
            ({
                let u = width_updates(
                    old(self).pending_column_width_deltas@,
                    old(setting).columns@,
                    old(setting).column_widths@,
                    rendered_widths@,
                );
                &&& r@ == u.map_values(|e: (usize, usize, u16)| (e.1, e.2))
                &&& final(setting).column_widths@ == fixed_after(old(setting).column_widths@, u)
                &&& final(self).layout_save_ticks_remaining == if u.len() > 0 {
                    LAYOUT_SAVE_TICKS
                } else {
                    old(self).layout_save_ticks_remaining
                }
            }),
            final(setting).columns == old(setting).columns,
            final(setting).query_state == old(setting).query_state,
            final(setting).source_ip_alias == old(setting).source_ip_alias,
    {
        let ghost u0 = width_updates(
            self.pending_column_width_deltas@,
            setting.columns@,
            setting.column_widths@,
            rendered_widths@,
        );
        let updates = match self.resolve_pending_column_widths(setting, rendered_widths) {
            Some(u) => u,
            None => {
                assert(fixed_after(setting.column_widths@, u0) == setting.column_widths@);
                assert(Seq::<(usize, usize, u16)>::empty().map_values(|e: (usize, usize, u16)| (e.1, e.2))
                    =~= Seq::<(usize, u16)>::empty());
                return Vec::new();
            },
        };
        let ghost start = setting.column_widths@;
        let mut out: Vec<(usize, u16)> = Vec::new();
        let mut i: usize = 0;
        while i < updates.len()
            invariant
                i <= updates@.len(),
                updates@ == u0,
                out@ == updates@.take(i as int).map_values(|e: (usize, usize, u16)| (e.1, e.2)),
                setting.column_widths@ == fixed_after(start, updates@.take(i as int)),
                setting.columns == old(setting).columns,
                setting.query_state == old(setting).query_state,
                setting.source_ip_alias == old(setting).source_ip_alias,
            decreases updates.len() - i,
        {
            assert(updates@.take(i + 1).drop_last() =~= updates@.take(i as int));
            let (index, visible, width) = updates[i];
            out.push((visible, width));
            setting.column_widths.insert(index, width);
            proof {
                assert(out@ =~= updates@.take(i + 1).map_values(|e: (usize, usize, u16)| (e.1, e.2)));
            }
            i = i + 1;
        }
        assert(updates@.take(updates@.len() as int) =~= updates@);
        self.schedule_layout_save();
        out
    }

    /// Changes the width of the selected column by `delta`: at once when it
    /// has a fixed width (together with any pending change), else as a
    /// pending change applied when the table is next drawn.
    pub fn adjust_column_width(&mut self, setting: &mut ConnectionsSetting, delta: i16)
        requires
            columns_unique(old(self).pending_column_width_deltas@),
        ensures
            columns_unique(final(self).pending_column_width_deltas@),
            final(setting).columns == old(setting).columns,
            width_adjusted(*old(self), *old(setting), *final(self), *final(setting), delta),
    {
        let index = match selected_column_index(setting) {
            Some(i) => i,
            None => {
                return;
            },
        };
        match setting.column_widths.get(&index) {
            Some(c) => {
                let current = *c;
                let pending: i16 = match self.pending(index) {
                    Some(p) => p,
                    None => 0,
                };
                self.remove_pending(index);
                let total: i16 = {
                    let s: i32 = pending as i32 + delta as i32;
                    if s > 32767 {
                        32767
                    } else if s < -32768 {
                        -32768
                    } else {
                        s as i16
                    }
                };
                let next = moved(current, total);
                if next == current {
                    return;
                }
                setting.column_widths.insert(index, next);
                self.schedule_layout_save();
            },
            None => {
                self.queue_column_width_delta(index, delta);
            },
        }
    }

    /// Drops the fixed width and any pending change of the selected column;
    /// the layout is to be saved when a fixed width was dropped.
    pub fn reset_column_width(&mut self, setting: &mut ConnectionsSetting)
        requires
            columns_unique(old(self).pending_column_width_deltas@),
        ensures
            columns_unique(final(self).pending_column_width_deltas@),
            final(setting).columns == old(setting).columns,
            width_reset(*old(self), *old(setting), *final(self), *final(setting)),
    {
        let index = match selected_column_index(setting) {
            Some(i) => i,
            None => {
                return;
            },
        };
        self.remove_pending(index);
        if !setting.column_widths.contains_key(&index) {
            assert(setting.column_widths@.remove(index) =~= setting.column_widths@);
            return;
        }
        setting.column_widths.remove(&index);
        self.schedule_layout_save();
    }

    /// Starts the countdown to saving the layout.
    pub fn schedule_layout_save(&mut self)
        ensures
            final(self).layout_save_ticks_remaining == LAYOUT_SAVE_TICKS,
            final(self).pending_column_width_deltas == old(self).pending_column_width_deltas,
    {
        self.layout_save_ticks_remaining = LAYOUT_SAVE_TICKS;
    }

    /// One tick of the countdown; tells whether the layout is to be saved
    /// now.
    pub fn tick_layout_save(&mut self) -> (save: bool)
        ensures
            old(self).layout_save_ticks_remaining == 0 ==> !save && final(self).layout_save_ticks_remaining == 0,
            old(self).layout_save_ticks_remaining > 0 ==> final(self).layout_save_ticks_remaining
                == old(self).layout_save_ticks_remaining - 1 && save == (final(self).layout_save_ticks_remaining
                == 0),
            final(self).pending_column_width_deltas == old(self).pending_column_width_deltas,
    {
        if self.layout_save_ticks_remaining == 0 {
            return false;
        }
        self.layout_save_ticks_remaining = self.layout_save_ticks_remaining - 1;
        self.layout_save_ticks_remaining == 0
    }

    /// Ends the countdown at once; tells whether the layout is to be saved.
    pub fn flush_layout_save(&mut self) -> (save: bool)
        ensures
            save == (old(self).layout_save_ticks_remaining > 0),
            final(self).layout_save_ticks_remaining == 0,
            final(self).pending_column_width_deltas == old(self).pending_column_width_deltas,
    {
        if self.layout_save_ticks_remaining == 0 {
            return false;
        }
        self.layout_save_ticks_remaining = 0;
        true
    }
}

/// The fixed widths after the updates.
pub open spec fn fixed_after(fixed: Map<usize, u16>, u: Seq<(usize, usize, u16)>) -> Map<usize, u16>
    decreases u.len(),
{
    if u.len() == 0 {
        fixed
    } else {
        fixed_after(fixed, u.drop_last()).insert(u.last().0, u.last().2)
    }
}

/// A width moved by `delta`, held within `1..=u16::MAX`.
fn moved(current: u16, delta: i16) -> (r: u16)
    ensures
        r == moved_width(current, delta),
{
    let s: i32 = current as i32 + delta as i32;
    if s > 65535 {
        65535
    } else if s < 1 {
        1
    } else {
        s as u16
    }
}

/// The column whose width the keys change.
fn selected_column_index(setting: &ConnectionsSetting) -> (r: Option<usize>)
    ensures
        r == selected_column(*setting),
{
    match setting.query_state.sort {
        Some(sort) => if sort.col < setting.columns.len() && setting.columns[sort.col] != ALIVE_COLUMN_INDEX {
            Some(setting.columns[sort.col])
        } else {
            None
        },
        None => None,
    }
}

proof fn lemma_pending_present(v: Seq<(usize, i16)>, a: int)
    requires
        0 <= a < v.len(),
    ensures
        pending_lookup(v, v[a].0) is Some,
    decreases v.len(),
{
    if v.last().0 != v[a].0 {
        assert(a < v.len() - 1);
        assert(v.drop_last()[a] == v[a]);
        lemma_pending_present(v.drop_last(), a);
    }
}

/// The countdown after `k` ticks from `start`.
pub open spec fn ticks_left(start: u8, k: nat) -> u8
    decreases k,
{
    if k == 0 {
        start
    } else {
        let t = ticks_left(start, (k - 1) as nat);
        if t > 0 {
            (t - 1) as u8
        } else {
            0
        }
    }
}

proof fn lemma_ticks_left(k: nat)
    ensures
        ticks_left(LAYOUT_SAVE_TICKS, k) == if k < 4 { (4 - k) as u8 } else { 0u8 },
    decreases k,
{
    if k > 0 {
        lemma_ticks_left((k - 1) as nat);
    }
}

/// After a change starts the countdown, the tick that saves the layout (the
/// one that brings the countdown from above zero to zero) is the fourth, and
/// no other, as long as no new change restarts it.
pub proof fn law_layout_saved_on_fourth_tick(k: nat)
    requires
        k >= 1,
    ensures
        (ticks_left(LAYOUT_SAVE_TICKS, (k - 1) as nat) > 0 && ticks_left(LAYOUT_SAVE_TICKS, k) == 0) <==> k == 4,
{
    lemma_ticks_left(k);
    lemma_ticks_left((k - 1) as nat);
}

} // verus!
