//! The keys the terminal interface reacts to.

use vstd::prelude::*;

verus! {

/// A key press, as the terminal interface sees it.
#[derive(Debug, Clone, Copy, PartialEq, Eq, Structural)]
pub enum Key {
    Up,
    Down,
    Left,
    Right,
    Enter,
    Esc,
    Backspace,
    PageUp,
    PageDown,
    Char(char),
    /// Any other key.
    Other,
}

} // verus!
