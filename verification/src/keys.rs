use vstd::prelude::*;

verus! {

/// A key as the user interface reads it: the keys that its dialogs react to, every other key
/// as `Other`.
#[derive(Debug, Clone, Copy, PartialEq, Eq, Structural)]
pub enum KeyCode {
    Char(char),
    Up,
    Down,
    Left,
    Right,
    Home,
    End,
    PageUp,
    PageDown,
    Tab,
    BackTab,
    Enter,
    Esc,
    Backspace,
    Delete,
    Insert,
    Other,
}

/// A key press together with the modifier keys that were held.
#[derive(Debug, Clone, Copy, PartialEq, Eq, Structural)]
pub struct KeyEvent {
    pub code: KeyCode,
    pub shift: bool,
    pub control: bool,
}

impl KeyEvent {
    pub fn plain(code: KeyCode) -> (r: KeyEvent)
        ensures
            r.code == code,
            !r.shift,
            !r.control,
    {
        KeyEvent { code, shift: false, control: false }
    }
}

} // verus!
