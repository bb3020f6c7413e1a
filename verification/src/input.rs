//! Keyboard input as plain values. The host reads the terminal and turns what
//! it reads into these.

use vstd::prelude::*;

verus! {

/// The key of a key event.
#[derive(Clone, Copy, Debug, PartialEq, Eq, Structural)]
pub enum KeyCode {
    Char(char),
    Up,
    Down,
    Left,
    Right,
    Enter,
    Tab,
    Backspace,
    Esc,
    /// Any key that no window binds.
    Other,
}

/// Whether a key went down, is held, or came up.
#[derive(Clone, Copy, Debug, PartialEq, Eq, Structural)]
pub enum KeyEventKind {
    Press,
    Repeat,
    Release,
}

/// One event of the keyboard.
#[derive(Clone, Copy, Debug, PartialEq, Eq, Structural)]
pub struct KeyEvent {
    pub code: KeyCode,
    pub kind: KeyEventKind,
}

/// One event of the terminal.
#[derive(Clone, Copy, Debug, PartialEq, Eq, Structural)]
pub enum Event {
    Key(KeyEvent),
    /// A resize, the mouse, focus, pasted text: nothing that a window reacts to.
    Other,
}

impl Event {
    /// The key of a genuine key press. Repeats and releases, which some
    /// terminals report, are no presses, and neither is any other event.
    pub open spec fn pressed(self) -> Option<KeyCode> {
        match self {
            Event::Key(key_event) => if key_event.kind == KeyEventKind::Press {
                Some(key_event.code)
            } else {
                None
            },
            Event::Other => None,
        }
    }
}

} // verus!
