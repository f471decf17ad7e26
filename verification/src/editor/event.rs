//! Input events, reduced to what the editor reads of them.

use vstd::prelude::*;

verus! {

/// No modifier key.
pub const NONE: u8 = 0b0000_0000;

/// The modifier bit of the shift key.
pub const SHIFT: u8 = 0b0000_0001;

/// The modifier bit of the control key.
pub const CONTROL: u8 = 0b0000_0010;

/// The modifier bit of the alt key.
pub const ALT: u8 = 0b0000_0100;

/// The modifier bit of the super key.
pub const SUPER: u8 = 0b0000_1000;

/// The modifier bit of the hyper key.
pub const HYPER: u8 = 0b0001_0000;

/// The modifier bit of the meta key.
pub const META: u8 = 0b0010_0000;

/// The modifier keys held with a key, one bit each.
#[derive(Clone, Copy, Debug, PartialEq, Eq, Structural)]
pub struct KeyModifiers {
    pub bits: u8,
}

/// Which key an event is about.
#[derive(Clone, Copy, Debug, PartialEq, Eq, Structural)]
pub enum KeyCode {
    /// A key that gives a character.
    Char(char),
    Up,
    Down,
    Left,
    Right,
    /// Any other key.
    Other,
}

/// What happened to the key.
#[derive(Clone, Copy, Debug, PartialEq, Eq, Structural)]
pub enum KeyEventKind {
    Press,
    Repeat,
    Release,
}

/// A key, the modifiers held with it, and what happened to it.
#[derive(Clone, Copy, Debug, PartialEq, Eq, Structural)]
pub struct KeyEvent {
    pub code: KeyCode,
    pub modifiers: KeyModifiers,
    pub kind: KeyEventKind,
}

/// One input event.
#[derive(Clone, Copy, Debug, PartialEq, Eq, Structural)]
pub enum Event {
    /// A keyboard event.
    Key(KeyEvent),
    /// Anything that is no keyboard event: focus, mouse, paste, resize.
    Other,
}

impl KeyEvent {
    /// Whether the key went up.
    pub open spec fn released(self) -> bool {
        self.kind == KeyEventKind::Release
    }

    /// Whether this is `q` with control held, whatever else is held with it.
    pub open spec fn asks_to_quit(self) -> bool {
        self.code == KeyCode::Char('q') && self.modifiers.bits & CONTROL == CONTROL
    }

    /// Whether the key went up.
    pub fn is_release(&self) -> (released: bool)
        ensures
            released == self.released(),
    {
        match self.kind {
            KeyEventKind::Release => true,
            _ => false,
        }
    }
}

impl Event {
    /// Whether this is the release of a key.
    pub open spec fn released(self) -> bool {
        match self {
            Event::Key(key) => key.released(),
            Event::Other => false,
        }
    }

    /// Whether this is the release of that key.
    pub open spec fn releases(self, code: KeyCode) -> bool {
        match self {
            Event::Key(key) => key.code == code && key.released(),
            Event::Other => false,
        }
    }

    /// Whether this is the key event that asks to quit, in any of its kinds.
    pub open spec fn asks_to_quit(self) -> bool {
        match self {
            Event::Key(key) => key.asks_to_quit(),
            Event::Other => false,
        }
    }
}

} // verus!
