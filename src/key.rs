use vstd::prelude::*;

verus! {

/// A key press as the session's panels read it.
#[derive(Debug, Clone, Copy, PartialEq, Eq, Structural)]
pub enum Key {
    Char(char),
    Backspace,
    Delete,
    Left,
    Right,
    Up,
    Down,
    Home,
    End,
    Esc,
    Enter,
    Other,
}

} // verus!
