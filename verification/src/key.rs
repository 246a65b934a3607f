//! Keyboard input as the panes and components of the library see it.
use vstd::prelude::*;

verus! {

/// The key that was pressed.
#[derive(Debug, Clone, Copy, PartialEq, Eq, Structural)]
pub enum Key {
    Char(char),
    Left,
    Right,
    Up,
    Down,
    PageUp,
    PageDown,
    Home,
    End,
    Tab,
    BackTab,
    Enter,
    Esc,
    Backspace,
    Delete,
    Other,
}

/// Modifier keys held with a key, as a bit set.
#[derive(Debug, Clone, Copy, PartialEq, Eq, Structural)]
pub struct KeyMods {
    pub bits: u8,
}

pub const MOD_NONE: u8 = 0;
pub const MOD_SHIFT: u8 = 1;
pub const MOD_CONTROL: u8 = 2;
pub const MOD_ALT: u8 = 4;
pub const MOD_SUPER: u8 = 8;
pub const MOD_HYPER: u8 = 16;
pub const MOD_META: u8 = 32;

impl KeyMods {
    /// Whether every modifier of `m` is held.
    pub fn contains(self, m: u8) -> (r: bool)
        ensures
            r == (self.bits & m == m),
    {
        self.bits & m == m
    }
}

/// A key press with its modifiers.
#[derive(Debug, Clone, Copy, PartialEq, Eq, Structural)]
pub struct KeyInput {
    pub code: Key,
    pub mods: KeyMods,
}

impl KeyInput {
    /// A key press without modifiers.
    pub fn plain(code: Key) -> (r: Self)
        ensures
            r.code == code,
            r.mods.bits == MOD_NONE,
    {
        KeyInput { code, mods: KeyMods { bits: MOD_NONE } }
    }

    /// A key press with the given modifier bits.
    pub fn with_mods(code: Key, bits: u8) -> (r: Self)
        ensures
            r.code == code,
            r.mods.bits == bits,
    {
        KeyInput { code, mods: KeyMods { bits } }
    }
}

/// Whether a pane used a key press or left it to its parent.
#[derive(Debug, Clone, Copy, PartialEq, Eq, Structural)]
pub enum KeyOutcome {
    Consumed,
    Ignored,
}

impl KeyOutcome {
    pub fn is_consumed(self) -> (r: bool)
        ensures
            r == (self == KeyOutcome::Consumed),
    {
        match self {
            KeyOutcome::Consumed => true,
            KeyOutcome::Ignored => false,
        }
    }
}

} // verus!
