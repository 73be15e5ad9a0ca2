//! Keys as the interface logic sees them.

use vstd::prelude::*;

verus! {

/// A key press, reduced to what the interface reacts to.
#[derive(Debug, Clone, Copy, PartialEq, Eq, Structural)]
pub enum Key {
    /// A printable character.
    Char(char),
    Backspace,
    Delete,
    Left,
    Right,
    Up,
    Down,
    Home,
    End,
    Enter,
    Esc,
    Tab,
    /// A function key, by its number (`F(5)` is F5).
    F(u8),
    /// Any other key.
    Other,
}

} // verus!
