//! The colours the terminal interface draws in.

use vstd::prelude::*;

verus! {

/// A colour of the terminal interface.
#[derive(Debug, Clone, Copy, PartialEq, Eq, Structural)]
pub enum Tint {
    Gray,
    DarkGray,
    Yellow,
    Green,
    Red,
    White,
    Cyan,
    Blue,
    Magenta,
}

} // verus!
