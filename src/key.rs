//! Keyboard input as the application sees it.
//!
//! The terminal layer reports many kinds of keys and events; the application
//! reacts to a handful of them, so only those are told apart here.
use vstd::prelude::*;

verus! {

/// Identity of a key: a character key, one of the two vertical arrows, or
/// any other key.
#[derive(Clone, Copy, Debug, PartialEq, Eq, Structural)]
pub enum KeyCode {
    Char(char),
    Up,
    Down,
    Other,
}

/// Whether a key went down, repeated while held, or was let go.
#[derive(Clone, Copy, Debug, PartialEq, Eq, Structural)]
pub enum KeyEventKind {
    Press,
    Repeat,
    Release,
}

/// A key event: which key, and what happened to it.
#[derive(Clone, Copy, Debug, PartialEq, Eq, Structural)]
pub struct KeyEvent {
    pub code: KeyCode,
    pub kind: KeyEventKind,
}

/// An input event, as read from the terminal.
#[derive(Clone, Copy, Debug, PartialEq, Eq, Structural)]
pub enum Event {
    Key(KeyEvent),
    /// Resize, mouse, focus and paste events, which the application ignores.
    Other,
}

impl KeyEvent {
    /// A press of the given key.
    pub fn press(code: KeyCode) -> (r: KeyEvent)
        ensures
            r == (KeyEvent { code, kind: KeyEventKind::Press }),
    {
        KeyEvent { code, kind: KeyEventKind::Press }
    }

    /// A release of the given key.
    pub fn release(code: KeyCode) -> (r: KeyEvent)
        ensures
            r == (KeyEvent { code, kind: KeyEventKind::Release }),
    {
        KeyEvent { code, kind: KeyEventKind::Release }
    }
}

/// A bare key code stands for a press of that key.
impl From<KeyCode> for KeyEvent {
    fn from(code: KeyCode) -> (r: KeyEvent) {
        KeyEvent::press(code)
    }
}

impl vstd::std_specs::convert::FromSpecImpl<KeyCode> for KeyEvent {
    open spec fn obeys_from_spec() -> bool {
        true
    }

    open spec fn from_spec(code: KeyCode) -> KeyEvent {
        KeyEvent { code, kind: KeyEventKind::Press }
    }
}

} // verus!
