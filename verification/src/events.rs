//! Raw input events as plain values: what the input backend decodes is handed
//! to the core in this form and routed to the focused component.

use vstd::prelude::*;

verus! {

/// A key on the keyboard.
#[derive(Clone, Copy, PartialEq, Eq, Structural, Debug)]
pub enum KeyCode {
    Char(char),
    Enter,
    Esc,
    Backspace,
    Tab,
    Left,
    Right,
    Up,
    Down,
    Home,
    End,
    PageUp,
    PageDown,
    Delete,
}

/// One key press, together with the modifier keys held down.
#[derive(Clone, Copy, PartialEq, Eq, Structural, Debug)]
pub struct KeyEvent {
    pub code: KeyCode,
    pub shift: bool,
    pub ctrl: bool,
    pub alt: bool,
}

impl KeyEvent {
    /// A plain press of `code`, with no modifier key held.
    pub fn plain(code: KeyCode) -> (e: KeyEvent)
        ensures
            e == (KeyEvent { code, shift: false, ctrl: false, alt: false }),
    {
        KeyEvent { code, shift: false, ctrl: false, alt: false }
    }
}

/// One raw event from the input backend.
#[derive(Clone, PartialEq, Debug)]
pub enum Event {
    Key(KeyEvent),
    Resize(u16, u16),
    Paste(String),
}

} // verus!
