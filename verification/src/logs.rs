//! The log view: a selection that wraps around the list, a live mode that
//! follows new records, and the level of records asked for.
use vstd::prelude::*;
use crate::action::Action;
use crate::key::{Key, KeyInput};
use crate::tabs::ComponentId;

use crate::shortcut::{parts_view, shortcuts_match, Fragment, Shortcut};
verus! {

/// Rows a log record takes.
pub const ROW_HEIGHT: usize = 1;

/// The level of log records to ask the core for.
#[derive(Debug, Clone, Copy, PartialEq, Eq, Structural)]
pub enum LogLevel {
    Error,
    Warning,
    Info,
    Debug,
}

/// The row selected after moving down from `sel` in a list of `n > 0` rows:
/// the first row when nothing was selected or the last row was.
pub open spec fn next_index(sel: Option<usize>, n: usize) -> usize {
    match sel {
        None => 0,
        Some(i) => if i + 1 >= n {
            0
        } else {
            (i + 1) as usize
        },
    }
}

/// The row selected after moving up from `sel` in a list of `n > 0` rows:
/// the first row when nothing was selected, the last row from the first.
pub open spec fn prev_index(sel: Option<usize>, n: usize) -> usize {
    match sel {
        None => 0,
        Some(i) => if i == 0 {
            (n - 1) as usize
        } else {
            (i - 1) as usize
        },
    }
}

/// What the application does on a tick of the log view.
#[derive(Debug, Clone, Copy, PartialEq, Eq, Structural)]
pub struct LogsTick {
    /// Advance the live indicator.
    pub animate: bool,
    /// Filter the stored records again with the current pattern.
    pub recompute_view: bool,
    /// Restart the log stream with the current level.
    pub reload: bool,
}

/// The log view's state.
#[derive(Debug)]
pub struct LogsComponent {
    pub level: Option<LogLevel>,
    /// New records are shown as they come, with no row selected.
    pub live: bool,
    pub filter_pattern: Option<String>,
    pub level_changed: bool,
    pub filter_pattern_changed: bool,
    /// Rows that fit in the list.
    pub viewport: u16,
    /// Records in the list.
    pub item_size: usize,
    pub selected: Option<usize>,
    /// The scroll bar's position, in rows.
    pub scroll_position: usize,
}

impl LogsComponent {
    /// A live view of all levels with an empty list.
    pub fn new() -> (r: Self)
        ensures
            r.level is None,
            r.live,
            r.filter_pattern is None,
            !r.level_changed,
            !r.filter_pattern_changed,
            r.viewport == 0,
            r.item_size == 0,
            r.selected is None,
            r.scroll_position == 0,
    {
        LogsComponent {
            level: None,
            live: true,
            filter_pattern: None,
            level_changed: false,
            filter_pattern_changed: false,
            viewport: 0,
            item_size: 0,
            selected: None,
            scroll_position: 0,
        }
    }

    /// The list now holds `n` records, `viewport` of which fit.
    pub fn set_list_size(&mut self, n: usize, viewport: u16)
        ensures
            final(self).item_size == n,
            final(self).viewport == viewport,
            final(self).selected == old(self).selected,
            final(self).scroll_position == old(self).scroll_position,
            final(self).live == old(self).live,
            final(self).level == old(self).level,
            final(self).level_changed == old(self).level_changed,
            final(self).filter_pattern == old(self).filter_pattern,
            final(self).filter_pattern_changed == old(self).filter_pattern_changed,
    {
        self.item_size = n;
        self.viewport = viewport;
    }

    /// Selects the next row, wrapping to the first; nothing on an empty list.
    pub fn next_row(&mut self)
        ensures
            old(self).item_size == 0 ==> final(self).selected == old(self).selected
                && final(self).scroll_position == old(self).scroll_position,
            old(self).item_size > 0 ==> final(self).selected == Some(
                next_index(old(self).selected, old(self).item_size),
            ) && final(self).scroll_position == next_index(old(self).selected, old(self).item_size)
                * ROW_HEIGHT,
            final(self).item_size == old(self).item_size,
            final(self).viewport == old(self).viewport,
            final(self).live == old(self).live,
            final(self).level == old(self).level,
            final(self).level_changed == old(self).level_changed,
            final(self).filter_pattern == old(self).filter_pattern,
            final(self).filter_pattern_changed == old(self).filter_pattern_changed,
    {
        let n = self.item_size;
        if n == 0 {
            return;
        }
        let i = match self.selected {
            None => 0,
            Some(i) => if i >= n - 1 {
                0
            } else {
                i + 1
            },
        };
        self.selected = Some(i);
        self.scroll_position = i * ROW_HEIGHT;
    }

    /// Selects the previous row, wrapping to the last; nothing on an empty list.
    pub fn prev_row(&mut self)
        ensures
            old(self).item_size == 0 ==> final(self).selected == old(self).selected
                && final(self).scroll_position == old(self).scroll_position,
            old(self).item_size > 0 ==> final(self).selected == Some(
                prev_index(old(self).selected, old(self).item_size),
            ) && final(self).scroll_position == prev_index(old(self).selected, old(self).item_size)
                * ROW_HEIGHT,
            final(self).item_size == old(self).item_size,
            final(self).viewport == old(self).viewport,
            final(self).live == old(self).live,
            final(self).level == old(self).level,
            final(self).level_changed == old(self).level_changed,
            final(self).filter_pattern == old(self).filter_pattern,
            final(self).filter_pattern_changed == old(self).filter_pattern_changed,
    {
        let n = self.item_size;
        if n == 0 {
            return;
        }
        let i = match self.selected {
            None => 0,
            Some(i) => if i == 0 {
                n - 1
            } else {
                i - 1
            },
        };
        self.selected = Some(i);
        self.scroll_position = i * ROW_HEIGHT;
    }

    /// Selects the first row; nothing on an empty list.
    pub fn first_row(&mut self)
        ensures
            old(self).item_size == 0 ==> final(self).selected == old(self).selected
                && final(self).scroll_position == old(self).scroll_position,
            old(self).item_size > 0 ==> final(self).selected == Some(0usize) && final(self).scroll_position
                == 0,
            final(self).item_size == old(self).item_size,
            final(self).viewport == old(self).viewport,
            final(self).live == old(self).live,
            final(self).level == old(self).level,
            final(self).level_changed == old(self).level_changed,
            final(self).filter_pattern == old(self).filter_pattern,
            final(self).filter_pattern_changed == old(self).filter_pattern_changed,
    {
        if self.item_size == 0 {
            return;
        }
        self.selected = Some(0);
        self.scroll_position = 0;
    }

    /// Selects the last row; nothing on an empty list.
    pub fn last_row(&mut self)
        ensures
            old(self).item_size == 0 ==> final(self).selected == old(self).selected
                && final(self).scroll_position == old(self).scroll_position,
            old(self).item_size > 0 ==> final(self).selected == Some((old(self).item_size - 1) as usize)
                && final(self).scroll_position == (old(self).item_size - 1) * ROW_HEIGHT,
            final(self).item_size == old(self).item_size,
            final(self).viewport == old(self).viewport,
            final(self).live == old(self).live,
            final(self).level == old(self).level,
            final(self).level_changed == old(self).level_changed,
            final(self).filter_pattern == old(self).filter_pattern,
            final(self).filter_pattern_changed == old(self).filter_pattern_changed,
    {
        if self.item_size == 0 {
            return;
        }
        let i = self.item_size - 1;
        self.selected = Some(i);
        self.scroll_position = i * ROW_HEIGHT;
    }

    /// Turns live mode on or off; turning it on drops the selection and
    /// scrolls to the top.
    pub fn live_mode(&mut self, live: bool)
        ensures
            final(self).live == live,
            live ==> final(self).selected is None && final(self).scroll_position == 0,
            !live ==> final(self).selected == old(self).selected && final(self).scroll_position == old(
                self,
            ).scroll_position,
            final(self).item_size == old(self).item_size,
            final(self).viewport == old(self).viewport,
            final(self).level == old(self).level,
            final(self).level_changed == old(self).level_changed,
            final(self).filter_pattern == old(self).filter_pattern,
            final(self).filter_pattern_changed == old(self).filter_pattern_changed,
    {
        self.live = live;
        if live {
            self.selected = None;
            self.scroll_position = 0;
        }
    }

    /// Asks for records of `level`; marks a reload only when the level changes.
    pub fn set_level(&mut self, level: LogLevel)
        ensures
            final(self).level == Some(level),
            final(self).level_changed == (old(self).level_changed || old(self).level != Some(level)),
            final(self).live == old(self).live,
            final(self).selected == old(self).selected,
            final(self).scroll_position == old(self).scroll_position,
            final(self).item_size == old(self).item_size,
            final(self).viewport == old(self).viewport,
            final(self).filter_pattern == old(self).filter_pattern,
            final(self).filter_pattern_changed == old(self).filter_pattern_changed,
    {
        if let Some(lv) = self.level {
            if lv == level {
                return;
            }
        }
        self.level = Some(level);
        self.level_changed = true;
    }

    /// Takes a new filter pattern, to be applied on the next tick.
    pub fn set_filter_pattern(&mut self, pattern: Option<String>)
        ensures
            final(self).filter_pattern == pattern,
            final(self).filter_pattern_changed,
            final(self).live == old(self).live,
            final(self).selected == old(self).selected,
            final(self).scroll_position == old(self).scroll_position,
            final(self).item_size == old(self).item_size,
            final(self).viewport == old(self).viewport,
            final(self).level == old(self).level,
            final(self).level_changed == old(self).level_changed,
    {
        self.filter_pattern = pattern;
        self.filter_pattern_changed = true;
    }

    /// A tick: reports what is pending and clears the marks.
    pub fn on_tick(&mut self) -> (r: LogsTick)
        ensures
            r == (LogsTick {
                animate: old(self).live,
                recompute_view: old(self).filter_pattern_changed,
                reload: old(self).level_changed,
            }),
            !final(self).level_changed,
            !final(self).filter_pattern_changed,
            final(self).live == old(self).live,
            final(self).selected == old(self).selected,
            final(self).scroll_position == old(self).scroll_position,
            final(self).item_size == old(self).item_size,
            final(self).viewport == old(self).viewport,
            final(self).level == old(self).level,
            final(self).filter_pattern == old(self).filter_pattern,
    {
        let r = LogsTick {
            animate: self.live,
            recompute_view: self.filter_pattern_changed,
            reload: self.level_changed,
        };
        self.filter_pattern_changed = false;
        self.level_changed = false;
        r
    }

    /// Handles a key: Esc goes live; g, G, j/Down and k/Up select a row and
    /// pause; f opens the search; e, w, i and d pick a level.
    pub fn handle_key_event(&mut self, key: KeyInput) -> (r: Option<Action>)
        ensures
            r == if key.code == Key::Char('f') {
                Some(Action::Focus(ComponentId::Search))
            } else {
                None
            },
            final(self).item_size == old(self).item_size,
            final(self).viewport == old(self).viewport,
            final(self).filter_pattern == old(self).filter_pattern,
            final(self).filter_pattern_changed == old(self).filter_pattern_changed,
            key.code == Key::Esc ==> final(self).live && final(self).selected is None
                && final(self).scroll_position == 0,
            (key.code == Key::Char('g') || key.code == Key::Char('G') || key.code == Key::Char('j')
                || key.code == Key::Down || key.code == Key::Char('k') || key.code == Key::Up) ==> {
                &&& !final(self).live
                &&& old(self).item_size == 0 ==> final(self).selected == old(self).selected
                    && final(self).scroll_position == old(self).scroll_position
                &&& old(self).item_size > 0 ==> final(self).selected == Some(
                    if key.code == Key::Char('g') {
                        0usize
                    } else if key.code == Key::Char('G') {
                        (old(self).item_size - 1) as usize
                    } else if key.code == Key::Char('j') || key.code == Key::Down {
                        next_index(old(self).selected, old(self).item_size)
                    } else {
                        prev_index(old(self).selected, old(self).item_size)
                    },
                ) && final(self).scroll_position == final(self).selected->0 * ROW_HEIGHT
            },
            !(key.code == Key::Esc || key.code == Key::Char('g') || key.code == Key::Char('G')
                || key.code == Key::Char('j') || key.code == Key::Down || key.code == Key::Char('k')
                || key.code == Key::Up) ==> final(self).live == old(self).live && final(self).selected
                == old(self).selected && final(self).scroll_position == old(self).scroll_position,
            final(self).level == match key.code {
                Key::Char('e') => Some(LogLevel::Error),
                Key::Char('w') => Some(LogLevel::Warning),
                Key::Char('i') => Some(LogLevel::Info),
                Key::Char('d') => Some(LogLevel::Debug),
                _ => old(self).level,
            },
            final(self).level_changed == (old(self).level_changed || old(self).level != final(self).level),
    {
        match key.code {
            Key::Esc => self.live_mode(true),
            Key::Char('g') => {
                self.first_row();
                self.live_mode(false);
            },
            Key::Char('G') => {
                self.last_row();
                self.live_mode(false);
            },
            Key::Char('j') | Key::Down => {
                self.next_row();
                self.live_mode(false);
            },
            Key::Char('k') | Key::Up => {
                self.prev_row();
                self.live_mode(false);
            },
            Key::Char('f') => {
                return Some(Action::Focus(ComponentId::Search));
            },
            Key::Char('e') => self.set_level(LogLevel::Error),
            Key::Char('w') => self.set_level(LogLevel::Warning),
            Key::Char('i') => self.set_level(LogLevel::Info),
            Key::Char('d') => self.set_level(LogLevel::Debug),
            _ => {},
        }
        None
    }
}

/// Moving up after moving down selects the row that was selected before,
/// in a list of `n` rows with a row `i` selected.
pub proof fn law_prev_row_undoes_next_row(i: usize, n: usize)
    requires
        i < n,
    ensures
        prev_index(Some(next_index(Some(i), n)), n) == i,
        next_index(Some(prev_index(Some(i), n)), n) == i,
{
}

/// The footer labels of the logs view: select, first, last and live.
pub open spec fn logs_shortcut_labels() -> Seq<Seq<(bool, Seq<char>)>> {
    seq![
        seq![(true, "↑"@), (false, " select "@), (true, "↓"@)],
        seq![(false, "first "@), (true, "g"@)],
        seq![(false, "last "@), (true, "G"@)],
        seq![(false, "live "@), (true, "Esc"@)],
    ]
}

impl LogsComponent {
    /// The footer labels.
    pub fn shortcuts(&self) -> (r: Vec<Shortcut>)
        ensures
            shortcuts_match(r@, logs_shortcut_labels()),
    {
        let s0 = Shortcut::new(vec![Fragment::hl("↑"), Fragment::raw(" select "), Fragment::hl("↓")]);
        let s1 = Shortcut::new(vec![Fragment::raw("first "), Fragment::hl("g")]);
        let s2 = Shortcut::new(vec![Fragment::raw("last "), Fragment::hl("G")]);
        let s3 = Shortcut::new(vec![Fragment::raw("live "), Fragment::hl("Esc")]);
        proof {
            assert(parts_view(s0.parts@) =~= seq![(true, "↑"@), (false, " select "@), (true, "↓"@)]);
            assert(parts_view(s1.parts@) =~= seq![(false, "first "@), (true, "g"@)]);
            assert(parts_view(s2.parts@) =~= seq![(false, "last "@), (true, "G"@)]);
            assert(parts_view(s3.parts@) =~= seq![(false, "live "@), (true, "Esc"@)]);
        }
        let r = vec![s0, s1, s2, s3];
        assert(shortcuts_match(r@, logs_shortcut_labels()));
        r
    }
}

} // verus!
