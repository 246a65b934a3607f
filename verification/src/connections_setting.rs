//! The runtime settings of the connections table: visible columns, sort,
//! column widths and source-IP aliases.
use vstd::prelude::*;
use std::collections::HashMap;
use crate::columns::{
    ALIVE_COLUMN_INDEX, CONNECTION_COL_COUNT, connection_col, default_connection_col_indices,
    spec_connection_col, spec_default_col_indices, spec_with_alive_column, with_alive_column,
};
use crate::config::{
    ConfigError, ConnectionsSortConfig, ConnectionsUiConfig, columns_prefix, find_col,
    sortable_cols, spec_parse_columns, widths_prefix,
};
use crate::sort::{SearchState, SortDir, SortSpec};

verus! {

broadcast use vstd::std_specs::hash::group_hash_axioms;

/// The runtime settings of the connections table.
#[derive(Debug)]
pub struct ConnectionsSetting {
    pub query_state: SearchState,
    /// Visible columns, `Alive` first.
    pub columns: Vec<usize>,
    /// Fixed widths by column index.
    pub column_widths: HashMap<usize, u16>,
    /// Aliases by source IP; no source IP occurs twice.
    pub source_ip_alias: Vec<(String, String)>,
}

/// Position of the first `x` in `s`, if any.
pub open spec fn position_of(s: Seq<usize>, x: usize) -> Option<usize>
    decreases s.len(),
{
    if s.len() == 0 {
        None
    } else if s[0] == x {
        Some(0)
    } else {
        match position_of(s.drop_first(), x) {
            Some(i) => Some((i + 1) as usize),
            None => None,
        }
    }
}

pub proof fn lemma_position_of(s: Seq<usize>, x: usize)
    requires
        s.len() <= usize::MAX,
    ensures
        position_of(s, x) matches Some(i) ==> i < s.len() && s[i as int] == x && forall|j: int|
            0 <= j < i ==> s[j] != x,
        position_of(s, x) is None ==> !s.contains(x),
    decreases s.len(),
{
    if s.len() > 0 && s[0] != x {
        lemma_position_of(s.drop_first(), x);
        if position_of(s.drop_first(), x) is None {
            if s.contains(x) {
                let w = choose|w: int| 0 <= w < s.len() && s[w] == x;
                assert(s.drop_first()[w - 1] == x);
            }
        } else {
            let i = position_of(s, x)->0;
            assert forall|j: int| 0 <= j < i implies s[j] != x by {
                if j > 0 {
                    assert(s[j] == s.drop_first()[j - 1]);
                }
            }
        }
    }
}

/// Finds the first position of `x` in `v`.
pub fn position(v: &Vec<usize>, x: usize) -> (r: Option<usize>)
    ensures
        r == position_of(v@, x),
{
    let n = v.len();
    proof {
        lemma_position_of(v@, x);
    }
    let mut i: usize = 0;
    while i < v.len()
        invariant
            i <= v@.len(),
            forall|j: int| 0 <= j < i ==> v@[j] != x,
            position_of(v@, x) is Some ==> v@[position_of(v@, x)->0 as int] == x,
            position_of(v@, x) is Some ==> i <= position_of(v@, x)->0 < v@.len() && forall|j: int|
                0 <= j < position_of(v@, x)->0 ==> v@[j] != x,
            position_of(v@, x) is None ==> !v@.contains(x),
        decreases v.len() - i,
    {
        if v[i] == x {
            return Some(i);
        }
        i = i + 1;
    }
    None
}

/// Copies a list of string pairs.
pub fn clone_pairs(v: &Vec<(String, String)>) -> (r: Vec<(String, String)>)
    ensures
        r@ == v@,
{
    let mut r: Vec<(String, String)> = Vec::new();
    let mut i: usize = 0;
    while i < v.len()
        invariant
            i <= v@.len(),
            r@ == v@.take(i as int),
        decreases v.len() - i,
    {
        let a = v[i].0.clone();
        let b = v[i].1.clone();
        r.push((a, b));
        assert(v@.take(i + 1) == v@.take(i as int).push(v@[i as int]));
        i = i + 1;
    }
    assert(v@.take(v@.len() as int) == v@);
    r
}

/// The visible columns that a connections UI configuration gives.
pub open spec fn config_columns(c: &ConnectionsUiConfig) -> Seq<usize> {
    match c.columns {
        Some(raw) => spec_with_alive_column(spec_parse_columns(raw@)->Ok_0),
        None => spec_default_col_indices(),
    }
}

/// The sort that a connections UI configuration gives, as a position among
/// the visible columns; none when the sorted column is not visible.
pub open spec fn config_sort(c: &ConnectionsUiConfig) -> Option<SortSpec> {
    match c.sort {
        Some(s) => match position_of(config_columns(c), find_col(sortable_cols(), s.field@)->0) {
            Some(i) => Some(SortSpec { col: i, dir: s.dir }),
            None => None,
        },
        None => None,
    }
}

impl ConnectionsSetting {
    /// The runtime settings given by a connections UI configuration, or the
    /// first error: a zero column width, then the column list, the sort and
    /// the column widths.
    pub fn try_from(c: &ConnectionsUiConfig) -> (r: Result<ConnectionsSetting, ConfigError>)
        ensures
            r is Ok <==> crate::config::ui_validate_outcome(c, Ok(())),
            crate::config::ui_validate_outcome(c, crate::config::drop_ok(r)),
            r matches Ok(s) ==> {
                &&& s.columns@ == config_columns(c)
                &&& s.query_state.sort == config_sort(c)
                &&& s.query_state.pattern is None
                &&& s.query_state.max_cols == s.columns@.len()
                &&& s.column_widths@ == widths_prefix(c.column_widths@, c.column_widths@.len())->Ok_0
                &&& s.source_ip_alias@ == c.source_ip_alias@
            },
    {
        match crate::config::check_column_widths_positive(&c.column_widths) {
            Ok(_) => {},
            Err(e) => {
                return Err(e);
            },
        }
        let columns = match &c.columns {
            Some(raw) => match ConnectionsUiConfig::parse_connections_columns(raw.as_slice()) {
                Ok(cols) => with_alive_column(cols),
                Err(e) => {
                    return Err(e);
                },
            },
            None => default_connection_col_indices(),
        };
        let sort = match &c.sort {
            Some(s) => match ConnectionsUiConfig::parse_connections_sort(s) {
                Ok(spec) => match position(&columns, spec.col) {
                    Some(i) => Some(SortSpec { col: i, dir: spec.dir }),
                    None => None,
                },
                Err(e) => {
                    return Err(e);
                },
            },
            None => None,
        };
        let widths = match ConnectionsUiConfig::parse_connections_column_widths(&c.column_widths) {
            Ok(w) => w,
            Err(e) => {
                return Err(e);
            },
        };
        let n = columns.len();
        Ok(ConnectionsSetting {
            query_state: SearchState { pattern: None, sort, max_cols: n },
            columns,
            column_widths: widths,
            source_ip_alias: clone_pairs(&c.source_ip_alias),
        })
    }
}

/// The sort after the visible columns change from `old_cols` to `new_cols`:
/// it stays on the same column wherever that column now stands, and is
/// dropped when that column is no longer visible.
pub open spec fn remapped_sort(sort: Option<SortSpec>, old_cols: Seq<usize>, new_cols: Seq<usize>) -> Option<SortSpec> {
    match sort {
        Some(s) => if s.col < old_cols.len() {
            match position_of(new_cols, old_cols[s.col as int]) {
                Some(i) => Some(SortSpec { col: i, dir: s.dir }),
                None => None,
            }
        } else {
            None
        },
        None => None,
    }
}

/// Why applying a settings dialog was refused.
#[derive(Debug, Clone, Copy, PartialEq, Eq, Structural)]
pub enum SettingsRefusal {
    /// At least one column must be selected.
    NoColumnSelected,
}

impl ConnectionsSetting {
    /// Applies a new choice of columns (without `Alive`) and of source-IP
    /// aliases, keeping the sort on its column; an empty choice is refused and
    /// changes nothing.
    pub fn apply_settings(
        &mut self,
        chosen: Vec<usize>,
        source_ip_alias: Vec<(String, String)>,
    ) -> (r: Result<(), SettingsRefusal>)
        ensures
            chosen@.len() == 0 ==> r == Err::<(), SettingsRefusal>(SettingsRefusal::NoColumnSelected)
                && final(self).columns == old(self).columns
                && final(self).query_state == old(self).query_state
                && final(self).source_ip_alias == old(self).source_ip_alias
                && final(self).column_widths == old(self).column_widths,
            chosen@.len() > 0 ==> {
                &&& r is Ok
                &&& final(self).columns@ == spec_with_alive_column(chosen@)
                &&& final(self).query_state.sort == remapped_sort(
                    old(self).query_state.sort,
                    old(self).columns@,
                    final(self).columns@,
                )
                &&& final(self).query_state.max_cols == final(self).columns@.len()
                &&& final(self).query_state.pattern == old(self).query_state.pattern
                &&& final(self).source_ip_alias == source_ip_alias
                &&& final(self).column_widths == old(self).column_widths
            },
    {
        if chosen.len() == 0 {
            return Err(SettingsRefusal::NoColumnSelected);
        }
        let columns = with_alive_column(chosen);
        let sort = match self.query_state.sort {
            Some(s) => if s.col < self.columns.len() {
                match position(&columns, self.columns[s.col]) {
                    Some(i) => Some(SortSpec { col: i, dir: s.dir }),
                    None => None,
                }
            } else {
                None
            },
            None => None,
        };
        self.source_ip_alias = source_ip_alias;
        self.query_state.sort = sort;
        self.query_state.max_cols = columns.len();
        self.columns = columns;
        Ok(())
    }
}

/// When the sorted column stays visible after a change of columns, the sort
/// still names it, in the same direction.
pub proof fn law_sort_follows_its_column(sort: SortSpec, old_cols: Seq<usize>, new_cols: Seq<usize>)
    requires
        sort.col < old_cols.len(),
        new_cols.contains(old_cols[sort.col as int]),
        new_cols.len() <= usize::MAX,
    ensures
        remapped_sort(Some(sort), old_cols, new_cols) matches Some(n) && n.col < new_cols.len()
            && new_cols[n.col as int] == old_cols[sort.col as int] && n.dir == sort.dir,
{
    lemma_position_of(new_cols, old_cols[sort.col as int]);
}

/// The titles of the configurable columns among `cols`, in order.
pub open spec fn visible_titles(cols: Seq<usize>) -> Seq<Seq<char>>
    decreases cols.len(),
{
    if cols.len() == 0 {
        Seq::empty()
    } else {
        let prev = visible_titles(cols.drop_last());
        let c = cols.last();
        if c != ALIVE_COLUMN_INDEX && c < CONNECTION_COL_COUNT {
            prev.push(spec_connection_col(c as int)->0.title@)
        } else {
            prev
        }
    }
}

/// The width entries, by title, of the configurable columns below `n` that
/// have a width.
pub open spec fn width_entries(m: Map<usize, u16>, n: nat) -> Seq<(Seq<char>, u16)>
    decreases n,
{
    if n == 0 {
        Seq::empty()
    } else {
        let c = (n - 1) as usize;
        let prev = width_entries(m, (n - 1) as nat);
        if c != ALIVE_COLUMN_INDEX && m.contains_key(c) {
            prev.push((spec_connection_col(c as int)->0.title@, m[c]))
        } else {
            prev
        }
    }
}

pub proof fn lemma_width_entries_positive(m: Map<usize, u16>, n: nat)
    requires
        forall|k: usize| #[trigger] m.contains_key(k) ==> m[k] > 0,
    ensures
        forall|i: int| 0 <= i < width_entries(m, n).len() ==> #[trigger] width_entries(m, n)[i].1 > 0,
    decreases n,
{
    if n > 0 {
        lemma_width_entries_positive(m, (n - 1) as nat);
        let c = (n - 1) as usize;
        let prev = width_entries(m, (n - 1) as nat);
        if c != ALIVE_COLUMN_INDEX && m.contains_key(c) {
            let e = (spec_connection_col(c as int)->0.title@, m[c]);
            assert forall|i: int| 0 <= i < prev.push(e).len() implies #[trigger] prev.push(e)[i].1 > 0 by {
                if i < prev.len() {
                    assert(prev.push(e)[i] == prev[i]);
                }
            }
        }
    }
}

/// The configured sort that a runtime sort stands for: the title of the
/// sorted column, if that column is a configurable one.
pub open spec fn sort_field_of(sort: Option<SortSpec>, cols: Seq<usize>) -> Option<(Seq<char>, SortDir)> {
    match sort {
        Some(s) => if s.col < cols.len() && cols[s.col as int] != ALIVE_COLUMN_INDEX
            && cols[s.col as int] < CONNECTION_COL_COUNT {
            Some((spec_connection_col(cols[s.col as int] as int)->0.title@, s.dir))
        } else {
            None
        },
        None => None,
    }
}

/// Whether `r` is the configuration that stands for the settings `s`: the
/// titles of the visible columns (without `Alive`), the sort by column title,
/// the widths by column title and the aliases.
pub open spec fn ui_config_of(s: ConnectionsSetting, r: ConnectionsUiConfig) -> bool {
    &&& r.columns matches Some(v) && v@.map_values(|t: String| t@) == visible_titles(s.columns@)
    &&& match sort_field_of(s.query_state.sort, s.columns@) {
        Some((f, d)) => r.sort matches Some(x) && x.field@ == f && x.dir == d,
        None => r.sort is None,
    }
    &&& r.column_widths@.map_values(|e: (String, u16)| (e.0@, e.1)) == width_entries(
        s.column_widths@,
        CONNECTION_COL_COUNT as nat,
    )
    &&& r.source_ip_alias@ == s.source_ip_alias@
}

impl ConnectionsSetting {
    /// The configuration that stands for these settings.
    pub fn to_ui_config(&self) -> (r: ConnectionsUiConfig)
        ensures
            ui_config_of(*self, r),
    {
        let mut titles: Vec<String> = Vec::new();
        let mut i: usize = 0;
        while i < self.columns.len()
            invariant
                i <= self.columns@.len(),
                titles@.map_values(|s: String| s@) == visible_titles(self.columns@.take(i as int)),
            decreases self.columns.len() - i,
        {
            assert(self.columns@.take(i + 1).drop_last() == self.columns@.take(i as int));
            let c = self.columns[i];
            if c != ALIVE_COLUMN_INDEX {
                match connection_col(c) {
                    Some(def) => {
                        let ghost before = titles@;
                        titles.push(def.title.to_string());
                        assert(titles@.map_values(|s: String| s@) == before.map_values(|s: String| s@).push(def.title@));
                    },
                    None => {},
                }
            }
            i = i + 1;
        }
        assert(self.columns@.take(self.columns@.len() as int) == self.columns@);
        let sort = match self.query_state.sort {
            Some(s) => if s.col < self.columns.len() && self.columns[s.col] != ALIVE_COLUMN_INDEX {
                match connection_col(self.columns[s.col]) {
                    Some(def) => Some(ConnectionsSortConfig { field: def.title.to_string(), dir: s.dir }),
                    None => None,
                }
            } else {
                None
            },
            None => None,
        };
        let mut widths: Vec<(String, u16)> = Vec::new();
        let mut c: usize = 0;
        while c < CONNECTION_COL_COUNT
            invariant
                c <= CONNECTION_COL_COUNT,
                widths@.map_values(|e: (String, u16)| (e.0@, e.1)) == width_entries(self.column_widths@, c as nat),
            decreases CONNECTION_COL_COUNT - c,
        {
            if c != ALIVE_COLUMN_INDEX {
                match self.column_widths.get(&c) {
                    Some(w) => {
                        match connection_col(c) {
                            Some(def) => {
                                let ghost before = widths@;
                                widths.push((def.title.to_string(), *w));
                                assert(widths@.map_values(|e: (String, u16)| (e.0@, e.1)) == before.map_values(
                                    |e: (String, u16)| (e.0@, e.1),
                                ).push((def.title@, *w)));
                            },
                            None => {},
                        }
                    },
                    None => {},
                }
            }
            c = c + 1;
        }
        ConnectionsUiConfig {
            columns: Some(titles),
            sort,
            column_widths: widths,
            source_ip_alias: clone_pairs(&self.source_ip_alias),
        }
    }
}

} // verus!
