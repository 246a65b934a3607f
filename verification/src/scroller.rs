//! A scroll position over lines of text, moved by the keyboard.
use vstd::prelude::*;
use crate::key::{Key, KeyInput};
use crate::navigator::max_pos;

verus! {

/// The first line shown of a text, with the number of lines and how many fit.
#[derive(Debug, Clone, Copy, PartialEq, Eq, Structural)]
pub struct Scroller {
    pub pos: usize,
    pub content_length: usize,
    pub viewport: usize,
}

/// Where a key moves the first shown line, or `None` for a key that does not scroll.
pub open spec fn scroll_target(s: Scroller, code: Key) -> Option<usize> {
    let max = max_pos(s.content_length as nat, s.viewport as nat);
    match code {
        Key::Up | Key::Char('k') => Some(if s.pos > 0 { (s.pos - 1) as usize } else { 0 }),
        Key::Down | Key::Char('j') => Some(if s.pos < max { (s.pos + 1) as usize } else { max as usize }),
        Key::PageUp => Some(if s.pos > s.viewport { (s.pos - s.viewport) as usize } else { 0 }),
        Key::PageDown | Key::Char(' ') => Some(
            if s.pos + s.viewport < max { (s.pos + s.viewport) as usize } else { max as usize },
        ),
        Key::Home | Key::Char('g') => Some(0),
        Key::End | Key::Char('G') => Some(max as usize),
        _ => None,
    }
}

impl Scroller {
    /// The window does not scroll past the last line.
    pub open spec fn wf(&self) -> bool {
        self.pos <= max_pos(self.content_length as nat, self.viewport as nat)
    }

    /// The scroller of an empty text.
    pub open spec fn new_spec() -> Self {
        Scroller { pos: 0, content_length: 0, viewport: 0 }
    }

    /// At the top of an empty text.
    pub fn new() -> (r: Self)
        ensures
            r.wf(),
            r == Self::new_spec(),
    {
        Scroller { pos: 0, content_length: 0, viewport: 0 }
    }

    /// The first line shown.
    pub fn pos(&self) -> (r: usize)
        ensures
            r == self.pos,
    {
        self.pos
    }

    fn max(&self) -> (r: usize)
        ensures
            r == max_pos(self.content_length as nat, self.viewport as nat),
    {
        if self.content_length > self.viewport {
            self.content_length - self.viewport
        } else {
            0
        }
    }

    /// Scrolls to line `pos`, or as far as the text allows.
    pub fn position(&mut self, pos: usize)
        ensures
            final(self).wf(),
            final(self).content_length == old(self).content_length,
            final(self).viewport == old(self).viewport,
            final(self).pos == if pos <= max_pos(old(self).content_length as nat, old(self).viewport as nat) {
                pos as nat
            } else {
                max_pos(old(self).content_length as nat, old(self).viewport as nat)
            },
    {
        let max = self.max();
        self.pos = if pos <= max { pos } else { max };
    }

    /// Sets the number of lines and how many fit; the window is pulled back into range.
    pub fn length(&mut self, content_length: usize, viewport: usize)
        ensures
            final(self).wf(),
            final(self).content_length == content_length,
            final(self).viewport == viewport,
            final(self).pos == if old(self).pos <= max_pos(content_length as nat, viewport as nat) {
                old(self).pos as nat
            } else {
                max_pos(content_length as nat, viewport as nat)
            },
    {
        self.content_length = content_length;
        self.viewport = viewport;
        let p = self.pos;
        self.position(p);
    }

    /// Scrolls by a key; true when the key was a scrolling key.
    pub fn handle_key_event(&mut self, key: KeyInput) -> (r: bool)
        requires
            old(self).wf(),
        ensures
            final(self).wf(),
            r == scroll_target(*old(self), key.code) is Some,
            final(self).content_length == old(self).content_length,
            final(self).viewport == old(self).viewport,
            final(self).pos == match scroll_target(*old(self), key.code) {
                Some(p) => p,
                None => old(self).pos,
            },
    {
        let max = self.max();
        let target: Option<usize> = match key.code {
            Key::Up | Key::Char('k') => Some(if self.pos > 0 { self.pos - 1 } else { 0 }),
            Key::Down | Key::Char('j') => Some(if self.pos < max { self.pos + 1 } else { max }),
            Key::PageUp => Some(if self.pos > self.viewport { self.pos - self.viewport } else { 0 }),
            Key::PageDown | Key::Char(' ') => Some(
                if self.viewport < max - self.pos { self.pos + self.viewport } else { max },
            ),
            Key::Home | Key::Char('g') => Some(0),
            Key::End | Key::Char('G') => Some(max),
            _ => None,
        };
        match target {
            Some(p) => {
                self.pos = p;
                true
            },
            None => false,
        }
    }
}

} // verus!
