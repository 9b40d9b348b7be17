//! Terminal input events, reduced to what the widgets read.

use vstd::prelude::*;

verus! {

/// No modifier key is held.
pub const MOD_NONE: u8 = 0;

/// The shift key.
pub const MOD_SHIFT: u8 = 1;

/// The control key.
pub const MOD_CONTROL: u8 = 2;

/// The alt key.
pub const MOD_ALT: u8 = 4;

/// Any other modifier key.
pub const MOD_OTHER: u8 = 8;

/// The key of a keyboard event.
#[derive(Debug, Clone, Copy, PartialEq, Eq)]
pub enum KeyCode {
    Enter,
    Esc,
    Backspace,
    Delete,
    Left,
    Right,
    Up,
    Down,
    Home,
    End,
    Tab,
    Char(char),
    /// Any key that no widget reacts to.
    Other,
}

/// A key with the modifier keys held with it, as a set of `MOD_` bits.
#[derive(Debug, Clone, Copy, PartialEq, Eq)]
pub struct KeyEvent {
    pub code: KeyCode,
    pub modifiers: u8,
}

/// One event from the terminal.
#[derive(Debug, Clone, Copy, PartialEq, Eq)]
pub enum Event {
    Key(KeyEvent),
    /// Mouse, resize, focus and paste events: no widget reacts to them.
    Other,
}

impl Event {
    /// The event is the hard interrupt: control, and nothing else, with `c`.
    pub open spec fn is_interrupt(&self) -> bool {
        match self {
            Event::Key(k) => k.modifiers == MOD_CONTROL && k.code == KeyCode::Char('c'),
            Event::Other => false,
        }
    }

    /// The key of a keyboard event that is not the hard interrupt.
    pub open spec fn key(&self) -> Option<KeyCode> {
        match self {
            Event::Key(k) => if self.is_interrupt() {
                None
            } else {
                Some(k.code)
            },
            Event::Other => None,
        }
    }

    /// Whether the event is the hard interrupt.
    pub fn interrupts(&self) -> (b: bool)
        ensures
            b == self.is_interrupt(),
    {
        match self {
            Event::Key(k) => {
                if k.modifiers == MOD_CONTROL {
                    match k.code {
                        KeyCode::Char(c) => c == 'c',
                        _ => false,
                    }
                } else {
                    false
                }
            },
            Event::Other => false,
        }
    }

    /// A key press without modifiers.
    pub fn press(code: KeyCode) -> (e: Event)
        ensures
            e == Event::Key(KeyEvent { code, modifiers: MOD_NONE }),
    {
        Event::Key(KeyEvent { code, modifiers: MOD_NONE })
    }
}

} // verus!
