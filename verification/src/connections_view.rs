//! The connections table's keys: moving the selection, live and capture
//! modes, the sort, column widths, and the requests to the application.
use vstd::prelude::*;
use crate::action::Action;
use crate::column_layout::{columns_unique, width_adjusted, width_reset, ColumnLayout};
use crate::connections_setting::ConnectionsSetting;
use crate::key::{Key, KeyInput, MOD_NONE, MOD_SHIFT};
use crate::navigator::{is_navigation_key, nav_after, ScrollableNavigator};
use crate::sort::{next_sort, prev_sort, reversed_sort, sort_in_range, SearchState, SortDir, SortSpec};
use crate::columns::{col_title, connection_col, CONNECTION_COL_COUNT};
use crate::text::{append_str, decimal_text, u64_text};
use crate::tabs::ComponentId;

use crate::shortcut::{fragment_view, parts_view, shortcuts_match, split_at_highlight, Fragment, Shortcut};
verus! {

/// What a key press on the connections table asks of the application.
#[derive(Debug, Clone, Copy, PartialEq, Eq, Structural)]
pub enum ConnectionsCommand {
    Nothing,
    /// The sort changed: recompute the view unless live, and announce it.
    SortChanged,
    /// Terminate the connection on this row.
    Terminate(usize),
    /// Terminate every active connection the filter shows (see
    /// `batch_terminate_request`).
    TerminateFiltered,
    /// Show the connection on this row.
    Detail(usize),
    /// Move the focus to a component.
    Focus(ComponentId),
    /// Open the connection settings.
    OpenSettings,
}

/// The table's selection and modes, and its column layout.
#[derive(Debug)]
pub struct ConnectionsView {
    pub navigator: ScrollableNavigator,
    /// New connections are shown as they come, with no row selected.
    pub live: bool,
    /// Closed connections stay, with the `Alive` column shown.
    pub capture: bool,
    pub layout: ColumnLayout,
}

/// The sort after a sort key (Left, Right or r). From no sort, Right skips
/// the hidden `Alive` column when capture mode is off.
pub open spec fn sort_after(code: Key, sort: Option<SortSpec>, max_cols: usize, capture: bool) -> Option<SortSpec> {
    match code {
        Key::Left => prev_sort(sort, max_cols),
        Key::Right => if sort is None && !capture {
            next_sort(next_sort(sort, max_cols), max_cols)
        } else {
            next_sort(sort, max_cols)
        },
        _ => reversed_sort(sort),
    }
}

/// The change of column width a key asks for, if any.
pub open spec fn width_delta(key: KeyInput) -> Option<i16> {
    let m = key.mods.bits;
    match key.code {
        Key::Char('-') => if m == MOD_NONE { Some(-1i16) } else { None },
        Key::Char('=') => if m == MOD_NONE { Some(1i16) } else { None },
        Key::Char('+') => if m == MOD_NONE || m == MOD_SHIFT { Some(1i16) } else { None },
        _ => None,
    }
}

/// The change of column width a key asks for, if any.
pub fn delta_of(key: KeyInput) -> (r: Option<i16>)
    ensures
        r == width_delta(key),
{
    let m = key.mods.bits;
    match key.code {
        Key::Char('-') => if m == MOD_NONE { Some(-1i16) } else { None },
        Key::Char('=') => if m == MOD_NONE { Some(1i16) } else { None },
        Key::Char('+') => if m == MOD_NONE || m == MOD_SHIFT { Some(1i16) } else { None },
        _ => None,
    }
}

impl ConnectionsView {
    pub open spec fn wf(&self) -> bool {
        &&& self.navigator.wf()
        &&& columns_unique(self.layout.pending_column_width_deltas@)
    }

    /// A live view with nothing selected and capture mode off.
    pub fn new() -> (r: Self)
        ensures
            r.wf(),
            r.navigator == ScrollableNavigator::new_spec(),
            r.live,
            !r.capture,
            r.layout.pending_column_width_deltas@.len() == 0,
            r.layout.layout_save_ticks_remaining == 0,
    {
        ConnectionsView {
            navigator: ScrollableNavigator::new(),
            live: true,
            capture: false,
            layout: ColumnLayout::new(),
        }
    }

    /// Turns live mode on or off; turning it on drops the selection and
    /// scrolls to the top.
    pub fn live_mode(&mut self, live: bool)
        requires
            old(self).wf(),
        ensures
            final(self).wf(),
            final(self).live == live,
            final(self).capture == old(self).capture,
            final(self).layout == old(self).layout,
            live ==> final(self).navigator == (ScrollableNavigator {
                focused: None,
                pos: 0,
                ..old(self).navigator
            }),
            !live ==> final(self).navigator == old(self).navigator,
    {
        self.live = live;
        if live {
            self.navigator.focused = None;
            self.navigator.pos = 0;
        }
    }

    /// Handles a key: the navigation keys move the selection and pause; Esc
    /// goes live; Left, Right and r change the sort; -, = and + change the
    /// selected column's width and Delete resets it; t, T and Enter ask to
    /// terminate or show connections; c flips capture mode; f opens the
    /// filter; s opens the settings.
    pub fn handle_key_event(&mut self, key: KeyInput, setting: &mut ConnectionsSetting) -> (r:
        ConnectionsCommand)
        requires
            old(self).wf(),
            key.code == Key::Left ==> (old(setting).query_state.sort matches Some(s) ==> s.col
                + old(setting).query_state.max_cols <= usize::MAX),
            key.code == Key::Right ==> (old(setting).query_state.max_cols > 0 ==> (
            old(setting).query_state.sort matches Some(s) ==> s.col < usize::MAX)),
        ensures
            final(self).wf(),
            sort_in_range(old(setting).query_state.sort, old(setting).query_state.max_cols) ==> sort_in_range(
                final(setting).query_state.sort,
                final(setting).query_state.max_cols,
            ),
            final(setting).columns == old(setting).columns,
            final(setting).source_ip_alias == old(setting).source_ip_alias,
            final(setting).query_state.pattern == old(setting).query_state.pattern,
            final(setting).query_state.max_cols == old(setting).query_state.max_cols,
            is_navigation_key(key) && old(self).navigator.content_length > 0 ==> {
                &&& r == ConnectionsCommand::Nothing
                &&& final(self).navigator == nav_after(old(self).navigator, key)
                &&& !final(self).live
                &&& final(self).capture == old(self).capture
                &&& final(self).layout == old(self).layout
                &&& final(setting).query_state == old(setting).query_state
                &&& final(setting).column_widths == old(setting).column_widths
            },
            !(is_navigation_key(key) && old(self).navigator.content_length > 0) ==> {
                &&& final(setting).query_state.sort == if key.code == Key::Left || key.code == Key::Right
                    || key.code == Key::Char('r') {
                    sort_after(
                        key.code,
                        old(setting).query_state.sort,
                        old(setting).query_state.max_cols,
                        old(self).capture,
                    )
                } else {
                    old(setting).query_state.sort
                }
                &&& final(self).live == if key.code == Key::Esc {
                    true
                } else {
                    old(self).live
                }
                &&& final(self).navigator == if key.code == Key::Esc {
                    ScrollableNavigator { focused: None, pos: 0, ..old(self).navigator }
                } else {
                    old(self).navigator
                }
                &&& final(self).capture == if key.code == Key::Char('c') {
                    !old(self).capture
                } else {
                    old(self).capture
                }
                &&& match width_delta(key) {
                    Some(d) => width_adjusted(old(self).layout, *old(setting), final(self).layout, *final(setting), d),
                    None => if key.code == Key::Delete && key.mods.bits == MOD_NONE {
                        width_reset(old(self).layout, *old(setting), final(self).layout, *final(setting))
                    } else {
                        &&& final(self).layout == old(self).layout
                        &&& final(setting).column_widths == old(setting).column_widths
                    },
                }
                &&& r == match key.code {
                    Key::Left | Key::Right | Key::Char('r') => ConnectionsCommand::SortChanged,
                    Key::Char('t') => match old(self).navigator.focused {
                        Some(i) => ConnectionsCommand::Terminate(i),
                        None => ConnectionsCommand::Nothing,
                    },
                    Key::Char('T') => ConnectionsCommand::TerminateFiltered,
                    Key::Enter => match old(self).navigator.focused {
                        Some(i) => ConnectionsCommand::Detail(i),
                        None => ConnectionsCommand::Nothing,
                    },
                    Key::Char('f') => ConnectionsCommand::Focus(ComponentId::Filter),
                    Key::Char('s') => ConnectionsCommand::OpenSettings,
                    _ => ConnectionsCommand::Nothing,
                }
            },
    {
        if self.navigator.handle_key_event(key) {
            self.live_mode(false);
            return ConnectionsCommand::Nothing;
        }
        match delta_of(key) {
            Some(d) => {
                self.layout.adjust_column_width(setting, d);
                return ConnectionsCommand::Nothing;
            },
            None => {},
        }
        if key.code == Key::Delete && key.mods.bits == MOD_NONE {
            self.layout.reset_column_width(setting);
            return ConnectionsCommand::Nothing;
        }
        match key.code {
            Key::Esc => {
                self.live_mode(true);
                ConnectionsCommand::Nothing
            },
            Key::Left => {
                setting.query_state.sort_prev();
                ConnectionsCommand::SortChanged
            },
            Key::Right => {
                if setting.query_state.sort.is_none() && !self.capture {
                    setting.query_state.sort_next();
                }
                setting.query_state.sort_next();
                ConnectionsCommand::SortChanged
            },
            Key::Char('r') => {
                setting.query_state.sort_rev();
                ConnectionsCommand::SortChanged
            },
            Key::Char('t') => match self.navigator.focused {
                Some(i) => ConnectionsCommand::Terminate(i),
                None => ConnectionsCommand::Nothing,
            },
            Key::Char('T') => ConnectionsCommand::TerminateFiltered,
            Key::Char('c') => {
                self.capture = !self.capture;
                ConnectionsCommand::Nothing
            },
            Key::Char('f') => ConnectionsCommand::Focus(ComponentId::Filter),
            Key::Enter => match self.navigator.focused {
                Some(i) => ConnectionsCommand::Detail(i),
                None => ConnectionsCommand::Nothing,
            },
            Key::Char('s') => ConnectionsCommand::OpenSettings,
            _ => ConnectionsCommand::Nothing,
        }
    }
}

/// The footer labels of the connections table: navigation, sort, width, reset, terminate, capture, detail, live and setting.
pub open spec fn connections_shortcut_labels() -> Seq<Seq<(bool, Seq<char>)>> {
    seq![
        seq![(true, "↑"@), (false, "/"@), (true, "PgUp"@), (false, "/"@), (true, "g"@), (false, " nav "@), (true, "G"@), (false, "/"@), (true, "PgDn"@), (false, "/"@), (true, "↓"@)],
        seq![(true, "←"@), (false, "/"@), (true, "→"@), (false, " sort "@), (true, "r"@)],
        seq![(true, "-/+"@), (false, " width"@)],
        seq![(true, "Del"@), (false, " reset"@)],
        seq![(true, "t"@), (false, "/"@), (true, "T"@), (false, "erm"@)],
        split_at_highlight("capture"@, 0),
        seq![(false, "detail "@), (true, "↵"@)],
        seq![(false, "live "@), (true, "Esc"@)],
        split_at_highlight("setting"@, 0),
    ]
}

impl ConnectionsView {
    /// The footer labels.
    pub fn shortcuts(&self) -> (r: Vec<Shortcut>)
        ensures
            shortcuts_match(r@, connections_shortcut_labels()),
    {
        let s0 = Shortcut::new(vec![Fragment::hl("↑"), Fragment::raw("/"), Fragment::hl("PgUp"), Fragment::raw("/"), Fragment::hl("g"), Fragment::raw(" nav "), Fragment::hl("G"), Fragment::raw("/"), Fragment::hl("PgDn"), Fragment::raw("/"), Fragment::hl("↓")]);
        let s1 = Shortcut::new(vec![Fragment::hl("←"), Fragment::raw("/"), Fragment::hl("→"), Fragment::raw(" sort "), Fragment::hl("r")]);
        let s2 = Shortcut::new(vec![Fragment::hl("-/+"), Fragment::raw(" width")]);
        let s3 = Shortcut::new(vec![Fragment::hl("Del"), Fragment::raw(" reset")]);
        let s4 = Shortcut::new(vec![Fragment::hl("t"), Fragment::raw("/"), Fragment::hl("T"), Fragment::raw("erm")]);
        let s5 = Shortcut::new(vec![Fragment::hl("c"), Fragment::raw("apture")]);
        let s6 = Shortcut::new(vec![Fragment::raw("detail "), Fragment::hl("↵")]);
        let s7 = Shortcut::new(vec![Fragment::raw("live "), Fragment::hl("Esc")]);
        let s8 = Shortcut::new(vec![Fragment::hl("s"), Fragment::raw("etting")]);
        proof {
            assert(parts_view(s0.parts@) =~= seq![(true, "↑"@), (false, "/"@), (true, "PgUp"@), (false, "/"@), (true, "g"@), (false, " nav "@), (true, "G"@), (false, "/"@), (true, "PgDn"@), (false, "/"@), (true, "↓"@)]);
            assert(parts_view(s1.parts@) =~= seq![(true, "←"@), (false, "/"@), (true, "→"@), (false, " sort "@), (true, "r"@)]);
            assert(parts_view(s2.parts@) =~= seq![(true, "-/+"@), (false, " width"@)]);
            assert(parts_view(s3.parts@) =~= seq![(true, "Del"@), (false, " reset"@)]);
            assert(parts_view(s4.parts@) =~= seq![(true, "t"@), (false, "/"@), (true, "T"@), (false, "erm"@)]);
            reveal_strlit("capture");
            reveal_strlit("c");
            reveal_strlit("apture");
            assert("capture"@.subrange(0, 1) =~= "c"@);
            assert("capture"@.subrange(1, 7) =~= "apture"@);
            assert(parts_view(s5.parts@) =~= seq![fragment_view(s5.parts@[0]), fragment_view(s5.parts@[1])]);
            assert(parts_view(s5.parts@) =~= split_at_highlight("capture"@, 0));
            assert(parts_view(s6.parts@) =~= seq![(false, "detail "@), (true, "↵"@)]);
            assert(parts_view(s7.parts@) =~= seq![(false, "live "@), (true, "Esc"@)]);
            reveal_strlit("setting");
            reveal_strlit("s");
            reveal_strlit("etting");
            assert("setting"@.subrange(0, 1) =~= "s"@);
            assert("setting"@.subrange(1, 7) =~= "etting"@);
            assert(parts_view(s8.parts@) =~= seq![fragment_view(s8.parts@[0]), fragment_view(s8.parts@[1])]);
            assert(parts_view(s8.parts@) =~= split_at_highlight("setting"@, 0));
        }
        let r = vec![s0, s1, s2, s3, s4, s5, s6, s7, s8];
        assert(shortcuts_match(r@, connections_shortcut_labels()));
        r
    }
}

/// The title of a table: its label, then the focused row counted from 1 (or
/// `-`) and the number of rows, as `label (i/n)`.
pub open spec fn table_title_text(label: Seq<char>, focused: Option<usize>, len: usize) -> Seq<char> {
    let pos = match focused {
        Some(i) => decimal_text((i + 1) as nat),
        None => "-"@,
    };
    label + " ("@ + pos + "/"@ + decimal_text(len as nat) + ")"@
}

/// The title of a table, as `label (i/n)`.
pub fn table_title(label: &str, focused: Option<usize>, len: usize) -> (r: String)
    requires
        focused matches Some(i) ==> i < usize::MAX,
    ensures
        r@ == table_title_text(label@, focused, len),
{
    let mut s = String::new();
    append_str(&mut s, label);
    append_str(&mut s, " (");
    match focused {
        Some(i) => {
            let n = u64_text((i + 1) as u64);
            append_str(&mut s, n.as_str());
        },
        None => append_str(&mut s, "-"),
    }
    append_str(&mut s, "/");
    let n = u64_text(len as u64);
    append_str(&mut s, n.as_str());
    append_str(&mut s, ")");
    assert(s@ =~= table_title_text(label@, focused, len));
    s
}

/// The columns of `cols` that exist, in order.
pub open spec fn shown_cols(cols: Seq<usize>) -> Seq<usize>
    decreases cols.len(),
{
    if cols.len() == 0 {
        Seq::empty()
    } else {
        let rest = shown_cols(cols.drop_last());
        if cols.last() < CONNECTION_COL_COUNT {
            rest.push(cols.last())
        } else {
            rest
        }
    }
}

/// The mark of a sort direction in a column head: up for ascending, down
/// for descending.
pub open spec fn dir_mark(dir: SortDir) -> Seq<char> {
    match dir {
        SortDir::Asc => "▲"@,
        SortDir::Desc => "▼"@,
    }
}

/// The head of the `i`-th shown column: its title, with the direction mark
/// when the sort is on it.
pub open spec fn header_label(index: usize, i: int, sort: Option<SortSpec>) -> Seq<char> {
    match sort {
        Some(s) => if s.col == i {
            col_title(index as int) + dir_mark(s.dir)
        } else {
            col_title(index as int)
        },
        None => col_title(index as int),
    }
}

/// The heads of the shown columns of the connections table.
pub fn header_labels(cols: &[usize], sort: Option<SortSpec>) -> (r: Vec<String>)
    ensures
        r@.len() == shown_cols(cols@).len(),
        forall|i: int| 0 <= i < r@.len() ==> #[trigger] r@[i]@ == header_label(shown_cols(cols@)[i], i, sort),
{
    let mut r: Vec<String> = Vec::new();
    let mut i: usize = 0;
    while i < cols.len()
        invariant
            i <= cols@.len(),
            r@.len() == shown_cols(cols@.take(i as int)).len(),
            forall|k: int| 0 <= k < r@.len() ==> #[trigger] r@[k]@ == header_label(
                shown_cols(cols@.take(i as int))[k],
                k,
                sort,
            ),
        decreases cols.len() - i,
    {
        assert(cols@.take(i + 1).drop_last() =~= cols@.take(i as int));
        match connection_col(cols[i]) {
            Some(def) => {
                let k = r.len();
                let mut label = String::new();
                append_str(&mut label, def.title);
                match sort {
                    Some(sp) => {
                        if sp.col == k {
                            match sp.dir {
                                SortDir::Asc => append_str(&mut label, "▲"),
                                SortDir::Desc => append_str(&mut label, "▼"),
                            }
                        }
                    },
                    None => {},
                }
                assert(label@ =~= header_label(cols@[i as int], k as int, sort));
                r.push(label);
            },
            None => {},
        }
        i = i + 1;
    }
    assert(cols@.take(cols@.len() as int) =~= cols@);
    r
}

/// A connection as the table shows it: its id and whether it has closed.
#[derive(Debug, Clone)]
pub struct ShownConnection {
    pub id: String,
    pub inactive: bool,
}

/// The ids of the connections shown that are still active, in order.
pub open spec fn active_ids(rows: Seq<ShownConnection>) -> Seq<Seq<char>>
    decreases rows.len(),
{
    if rows.len() == 0 {
        Seq::empty()
    } else {
        let rest = active_ids(rows.drop_last());
        if rows.last().inactive {
            rest
        } else {
            rest.push(rows.last().id@)
        }
    }
}

/// The texts of a list of strings.
pub open spec fn texts(v: Seq<String>) -> Seq<Seq<char>> {
    v.map_values(|s: String| s@)
}

/// The ids of the connections shown that are still active, in order.
pub fn filtered_active_connection_ids(rows: &Vec<ShownConnection>) -> (r: Vec<String>)
    ensures
        texts(r@) == active_ids(rows@),
{
    let mut r: Vec<String> = Vec::new();
    let mut i: usize = 0;
    while i < rows.len()
        invariant
            i <= rows@.len(),
            texts(r@) == active_ids(rows@.take(i as int)),
        decreases rows.len() - i,
    {
        assert(rows@.take(i + 1).drop_last() =~= rows@.take(i as int));
        let ghost before = r@;
        if !rows[i].inactive {
            r.push(rows[i].id.clone());
            assert(texts(r@) =~= texts(before).push(rows@[i as int].id@));
        }
        i = i + 1;
    }
    assert(rows@.take(rows@.len() as int) =~= rows@);
    r
}

/// What `T` asks for: terminating the active connections shown, or nothing
/// when none is active.
pub fn batch_terminate_request(rows: &Vec<ShownConnection>) -> (r: Option<Action>)
    ensures
        active_ids(rows@).len() == 0 ==> r is None,
        active_ids(rows@).len() > 0 ==> (r matches Some(Action::ConnectionBatchTerminateRequest(ids)) && texts(
            ids@,
        ) == active_ids(rows@)),
{
    let ids = filtered_active_connection_ids(rows);
    if ids.len() == 0 {
        None
    } else {
        Some(Action::ConnectionBatchTerminateRequest(ids))
    }
}

/// What the application is to do after the connections view took an action.
#[derive(Debug, Clone)]
pub struct ConnectionsUpdate {
    /// Save the column layout now.
    pub save_layout: bool,
    /// Compute the rows shown again.
    pub recompute: bool,
    /// Send the filter placeholder of the visible columns.
    pub send_placeholder: bool,
    /// The action handed back.
    pub reply: Option<Action>,
}

/// Nothing to do.
pub open spec fn no_update(r: ConnectionsUpdate) -> bool {
    !r.save_layout && !r.recompute && !r.send_placeholder && r.reply is None
}

impl ConnectionsView {
    /// Takes an action. Quit saves a layout whose save is pending; a tick
    /// counts the pending save down and saves when it runs out; a changed
    /// filter becomes the connections' pattern; switching to this tab sets
    /// the filter box to that pattern and its placeholder; a change of the
    /// connections settings recomputes the rows and the placeholder.
    pub fn update(&mut self, action: Action, setting: &mut ConnectionsSetting) -> (r: ConnectionsUpdate)
        requires
            old(self).wf(),
        ensures
            final(self).wf(),
            final(self).navigator == old(self).navigator,
            final(self).live == old(self).live,
            final(self).capture == old(self).capture,
            final(self).layout.pending_column_width_deltas == old(self).layout.pending_column_width_deltas,
            match action {
                Action::Quit => {
                    &&& r.save_layout == (old(self).layout.layout_save_ticks_remaining > 0)
                    &&& !r.recompute && !r.send_placeholder && r.reply is None
                    &&& final(self).layout.layout_save_ticks_remaining == 0
                    &&& *final(setting) == *old(setting)
                },
                Action::Tick => {
                    &&& !r.recompute && !r.send_placeholder && r.reply is None
                    &&& if old(self).layout.layout_save_ticks_remaining == 0 {
                        !r.save_layout && final(self).layout.layout_save_ticks_remaining == 0
                    } else {
                        &&& final(self).layout.layout_save_ticks_remaining
                            == old(self).layout.layout_save_ticks_remaining - 1
                        &&& r.save_layout == (final(self).layout.layout_save_ticks_remaining == 0)
                    }
                    &&& *final(setting) == *old(setting)
                },
                Action::FilterChanged(p) => {
                    &&& no_update(r)
                    &&& final(self).layout == old(self).layout
                    &&& *final(setting) == (ConnectionsSetting {
                        query_state: SearchState { pattern: p, ..old(setting).query_state },
                        ..*old(setting)
                    })
                },
                Action::TabSwitch(to) => {
                    &&& final(self).layout == old(self).layout
                    &&& *final(setting) == *old(setting)
                    &&& if to == ComponentId::Connections {
                        &&& !r.save_layout && !r.recompute && r.send_placeholder
                        &&& r.reply == Some(Action::FilterSet(old(setting).query_state.pattern))
                    } else {
                        no_update(r)
                    }
                },
                Action::ConnectionsSettingChanged => {
                    &&& !r.save_layout && r.recompute && r.send_placeholder && r.reply is None
                    &&& final(self).layout == old(self).layout
                    &&& *final(setting) == *old(setting)
                },
                _ => {
                    &&& no_update(r)
                    &&& final(self).layout == old(self).layout
                    &&& *final(setting) == *old(setting)
                },
            },
    {
        let nothing = ConnectionsUpdate { save_layout: false, recompute: false, send_placeholder: false, reply: None };
        match action {
            Action::Quit => {
                let save = self.layout.flush_layout_save();
                ConnectionsUpdate { save_layout: save, ..nothing }
            },
            Action::Tick => {
                let save = self.layout.tick_layout_save();
                ConnectionsUpdate { save_layout: save, ..nothing }
            },
            Action::FilterChanged(p) => {
                setting.query_state.pattern = p;
                nothing
            },
            Action::TabSwitch(to) => {
                if to == ComponentId::Connections {
                    let pattern = setting.query_state.pattern.clone();
                    ConnectionsUpdate { send_placeholder: true, reply: Some(Action::FilterSet(pattern)), ..nothing }
                } else {
                    nothing
                }
            },
            Action::ConnectionsSettingChanged => ConnectionsUpdate { recompute: true, send_placeholder: true, ..nothing },
            _ => nothing,
        }
    }
}

} // verus!
