//! A focus that moves through a list, with the window of rows shown
//! following it.
use vstd::prelude::*;
use crate::key::{Key, KeyInput};

verus! {

/// The furthest the window can be scrolled.
pub open spec fn max_pos(len: nat, viewport: nat) -> nat {
    if len > viewport {
        (len - viewport) as nat
    } else {
        0
    }
}

/// The focused row of a list and the window of rows shown.
#[derive(Debug, Clone, Copy, PartialEq, Eq, Structural)]
pub struct ScrollableNavigator {
    pub focused: Option<usize>,
    /// The first row shown.
    pub pos: usize,
    /// The number of rows.
    pub content_length: usize,
    /// The number of rows that fit.
    pub viewport: usize,
}

/// The window after making row `idx` visible.
pub open spec fn pos_showing(pos: usize, viewport: usize, idx: usize) -> usize {
    if idx < pos {
        idx
    } else if viewport > 0 && idx >= pos + viewport {
        (idx + 1 - viewport) as usize
    } else {
        pos
    }
}

/// Whether a key moves the focus: Up or k, Down or j, PageUp, PageDown or
/// Space, Home or g, End or G.
pub open spec fn is_navigation_key(key: KeyInput) -> bool {
    match key.code {
        Key::Up | Key::Down | Key::PageUp | Key::PageDown | Key::Home | Key::End => true,
        Key::Char(c) => c == 'k' || c == 'j' || c == ' ' || c == 'g' || c == 'G',
        _ => false,
    }
}

impl ScrollableNavigator {
    /// The focus is on a row, and the window does not scroll past the end.
    pub open spec fn wf(&self) -> bool {
        &&& self.focused matches Some(f) ==> f < self.content_length
        &&& self.pos <= max_pos(self.content_length as nat, self.viewport as nat)
    }

    /// One past the last row shown.
    pub open spec fn spec_end_pos(&self) -> usize {
        if self.pos + self.viewport < self.content_length {
            (self.pos + self.viewport) as usize
        } else {
            self.content_length
        }
    }

    /// The navigator of an empty list.
    pub open spec fn new_spec() -> Self {
        ScrollableNavigator { focused: None, pos: 0, content_length: 0, viewport: 0 }
    }

    /// An empty list.
    pub fn new() -> (r: Self)
        ensures
            r.wf(),
            r == Self::new_spec(),
    {
        ScrollableNavigator { focused: None, pos: 0, content_length: 0, viewport: 0 }
    }

    /// The first row shown.
    pub fn pos(&self) -> (r: usize)
        ensures
            r == self.pos,
    {
        self.pos
    }

    /// One past the last row shown.
    pub fn end_pos(&self) -> (r: usize)
        ensures
            r == self.spec_end_pos(),
    {
        if self.pos < self.content_length && self.viewport < self.content_length - self.pos {
            self.pos + self.viewport
        } else {
            self.content_length
        }
    }

    /// Sets the number of rows and how many fit; the window and the focus
    /// are pulled back into range.
    pub fn length(&mut self, content_length: usize, viewport: usize)
        ensures
            final(self).wf(),
            final(self).content_length == content_length,
            final(self).viewport == viewport,
            final(self).pos == if old(self).pos <= max_pos(content_length as nat, viewport as nat) {
                old(self).pos as nat
            } else {
                max_pos(content_length as nat, viewport as nat)
            },
            final(self).focused == match old(self).focused {
                Some(f) => if f < content_length {
                    Some(f)
                } else if content_length > 0 {
                    Some((content_length - 1) as usize)
                } else {
                    None
                },
                None => None,
            },
    {
        self.content_length = content_length;
        self.viewport = viewport;
        let max: usize = if content_length > viewport {
            content_length - viewport
        } else {
            0
        };
        if self.pos > max {
            self.pos = max;
        }
        self.focused = match self.focused {
            Some(f) => if f < content_length {
                Some(f)
            } else if content_length > 0 {
                Some(content_length - 1)
            } else {
                None
            },
            None => None,
        };
    }

    /// Focuses row `idx` and scrolls the window just enough to show it.
    pub fn focus(&mut self, idx: usize)
        requires
            old(self).wf(),
            idx < old(self).content_length,
        ensures
            final(self).wf(),
            final(self).focused == Some(idx),
            final(self).pos == pos_showing(old(self).pos, old(self).viewport, idx),
            final(self).content_length == old(self).content_length,
            final(self).viewport == old(self).viewport,
    {
        self.focused = Some(idx);
        if idx < self.pos {
            self.pos = idx;
        } else if self.viewport > 0 && idx >= self.pos + self.viewport {
            self.pos = idx + 1 - self.viewport;
        }
    }

    /// Moves the focus: Down (j) and Up (k) by one row, PageDown (Space)
    /// and PageUp by a window (scrolling the window along), Home (g) and End
    /// (G) to the first and last row; with no focus, one row keys and page
    /// keys focus the first row. Tells whether the key was used: any of
    /// these keys on a list with rows.
    pub fn handle_key_event(&mut self, key: KeyInput) -> (r: bool)
        requires
            old(self).wf(),
        ensures
            final(self).wf(),
            r == (is_navigation_key(key) && old(self).content_length > 0),
            !r ==> *final(self) == *old(self),
            final(self).content_length == old(self).content_length,
            final(self).viewport == old(self).viewport,
            r ==> final(self).focused == Some(nav_target(*old(self), key.code)),
            r ==> final(self).pos == pos_showing(
                nav_pos(*old(self), key.code),
                old(self).viewport,
                nav_target(*old(self), key.code),
            ),
    {
        let len = self.content_length;
        if len == 0 {
            return false;
        }
        let vp = self.viewport;
        let max: usize = if len > vp {
            len - vp
        } else {
            0
        };
        let (target, pos) = match key.code {
            Key::Down | Key::Char('j') => (
                match self.focused {
                    Some(f) => if f + 1 < len {
                        f + 1
                    } else {
                        len - 1
                    },
                    None => 0,
                },
                self.pos,
            ),
            Key::Up | Key::Char('k') => (
                match self.focused {
                    Some(f) => if f > 0 {
                        f - 1
                    } else {
                        0
                    },
                    None => 0,
                },
                self.pos,
            ),
            Key::PageDown | Key::Char(' ') => (
                match self.focused {
                    Some(f) => if vp < len - 1 && f < len - 1 - vp {
                        f + vp
                    } else {
                        len - 1
                    },
                    None => 0,
                },
                if vp < max && self.pos < max - vp {
                    self.pos + vp
                } else {
                    max
                },
            ),
            Key::PageUp => (
                match self.focused {
                    Some(f) => if f > vp {
                        f - vp
                    } else {
                        0
                    },
                    None => 0,
                },
                if self.pos > vp {
                    self.pos - vp
                } else {
                    0
                },
            ),
            Key::Home | Key::Char('g') => (0, self.pos),
            Key::End | Key::Char('G') => (len - 1, self.pos),
            _ => {
                return false;
            },
        };
        self.pos = pos;
        self.focus(target);
        true
    }
}

/// The row a navigation key moves the focus to.
pub open spec fn nav_target(n: ScrollableNavigator, code: Key) -> usize {
    let len = n.content_length;
    let vp = n.viewport;
    match code {
        Key::Down | Key::Char('j') => match n.focused {
            Some(f) => if f + 1 < len {
                (f + 1) as usize
            } else {
                (len - 1) as usize
            },
            None => 0,
        },
        Key::Up | Key::Char('k') => match n.focused {
            Some(f) => if f > 0 {
                (f - 1) as usize
            } else {
                0
            },
            None => 0,
        },
        Key::PageDown | Key::Char(' ') => match n.focused {
            Some(f) => if f + vp < len - 1 {
                (f + vp) as usize
            } else {
                (len - 1) as usize
            },
            None => 0,
        },
        Key::Home | Key::Char('g') => 0,
        Key::End | Key::Char('G') => (len - 1) as usize,
        _ => match n.focused {
            Some(f) => if f > vp {
                (f - vp) as usize
            } else {
                0
            },
            None => 0,
        },
    }
}

/// The window a navigation key scrolls to, before the focus is made visible.
pub open spec fn nav_pos(n: ScrollableNavigator, code: Key) -> usize {
    let m = max_pos(n.content_length as nat, n.viewport as nat);
    match code {
        Key::PageDown | Key::Char(' ') => if n.pos + n.viewport < m {
            (n.pos + n.viewport) as usize
        } else {
            m as usize
        },
        Key::PageUp => if n.pos > n.viewport {
            (n.pos - n.viewport) as usize
        } else {
            0
        },
        _ => n.pos,
    }
}

/// The navigator after a key: moved by a navigation key on a list with
/// rows, unchanged otherwise.
pub open spec fn nav_after(n: ScrollableNavigator, key: KeyInput) -> ScrollableNavigator {
    if is_navigation_key(key) && n.content_length > 0 {
        ScrollableNavigator {
            focused: Some(nav_target(n, key.code)),
            pos: pos_showing(nav_pos(n, key.code), n.viewport, nav_target(n, key.code)),
            content_length: n.content_length,
            viewport: n.viewport,
        }
    } else {
        n
    }
}

} // verus!
