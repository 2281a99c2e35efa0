//! Keys.

use vstd::prelude::*;

verus! {

/// The keys that the program knows.
#[derive(Debug, Clone, Copy, PartialEq, Eq, Structural)]
pub enum KeyCode {
    Char(char),
    Enter,
    Esc,
    Tab,
    BackTab,
    Backspace,
    Up,
    Down,
    PageUp,
    PageDown,
    Home,
    End,
    Other,
}

/// The modifiers held with a key: none, Control alone, or anything else.
#[derive(Debug, Clone, Copy, PartialEq, Eq, Structural)]
pub enum KeyModifiers {
    NONE,
    CONTROL,
    Other,
}

/// A key was pressed, or released or repeated.
#[derive(Debug, Clone, Copy, PartialEq, Eq, Structural)]
pub struct KeyEvent {
    pub code: KeyCode,
    pub modifiers: KeyModifiers,
    pub pressed: bool,
}

/// Control and `c`.
pub open spec fn is_interrupt(key: KeyEvent) -> bool {
    key.code == KeyCode::Char('c') && key.modifiers == KeyModifiers::CONTROL
}

/// A plain `c`, for any `c`.
pub open spec fn is_plain(key: KeyEvent, c: char) -> bool {
    key.code == KeyCode::Char(c) && key.modifiers == KeyModifiers::NONE
}

/// Whether the key is Control and `c`, or a plain `q`.
pub fn is_quit(key: &KeyEvent) -> (r: bool)
    ensures
        r == (is_interrupt(*key) || is_plain(*key, 'q')),
{
    match (key.code, key.modifiers) {
        (KeyCode::Char('c'), KeyModifiers::CONTROL) => true,
        (KeyCode::Char('q'), KeyModifiers::NONE) => true,
        _ => false,
    }
}

} // verus!
