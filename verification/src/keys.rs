//! Key events as the board reads them: a key code and its modifiers. The
//! terminal layer converts its own events into these.

use vstd::prelude::*;

verus! {

#[derive(Debug, Clone, Copy, PartialEq, Eq, Structural)]
pub enum KeyCode {
    Char(char),
    Enter,
    Tab,
    BackTab,
    Backspace,
    Esc,
    Up,
    Down,
    Left,
    Right,
    Home,
    End,
    PageUp,
    PageDown,
    Delete,
    /// Any other key (function keys, Insert, media keys, ...).
    Other,
}

/// The modifier keys held with a key. `other` covers Super, Hyper and Meta.
#[derive(Debug, Clone, Copy, PartialEq, Eq, Structural)]
pub struct KeyModifiers {
    pub shift: bool,
    pub control: bool,
    pub alt: bool,
    pub other: bool,
}

pub open spec fn no_mods() -> KeyModifiers {
    KeyModifiers { shift: false, control: false, alt: false, other: false }
}

/// Control and nothing else.
pub open spec fn control_only() -> KeyModifiers {
    KeyModifiers { shift: false, control: true, alt: false, other: false }
}

impl KeyModifiers {
    pub fn none() -> (r: Self)
        ensures
            r == no_mods(),
    {
        KeyModifiers { shift: false, control: false, alt: false, other: false }
    }

    pub fn shift() -> (r: Self)
        ensures
            r == (KeyModifiers { shift: true, ..no_mods() }),
    {
        KeyModifiers { shift: true, control: false, alt: false, other: false }
    }

    pub fn control() -> (r: Self)
        ensures
            r == control_only(),
    {
        KeyModifiers { shift: false, control: true, alt: false, other: false }
    }

    pub fn alt() -> (r: Self)
        ensures
            r == (KeyModifiers { alt: true, ..no_mods() }),
    {
        KeyModifiers { shift: false, control: false, alt: true, other: false }
    }

    /// No modifier at all.
    pub fn is_none(&self) -> (r: bool)
        ensures
            r == (*self == no_mods()),
    {
        !self.shift && !self.control && !self.alt && !self.other
    }

    /// Exactly Control.
    pub fn is_control_only(&self) -> (r: bool)
        ensures
            r == (*self == control_only()),
    {
        !self.shift && self.control && !self.alt && !self.other
    }
}

#[derive(Debug, Clone, Copy, PartialEq, Eq, Structural)]
pub struct KeyEvent {
    pub code: KeyCode,
    pub modifiers: KeyModifiers,
}

impl KeyEvent {
    pub fn new(code: KeyCode, modifiers: KeyModifiers) -> (r: Self)
        ensures
            r == (KeyEvent { code, modifiers }),
    {
        KeyEvent { code, modifiers }
    }
}

} // verus!
