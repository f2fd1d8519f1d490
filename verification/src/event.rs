//! The normalized keyboard event that the controller and the widgets consume.

use vstd::prelude::*;

verus! {

/// A key press, already normalized by the input layer. `Other` stands for
/// every key the core does not interpret.
#[derive(Clone, Copy, PartialEq, Eq, Structural, Debug)]
pub enum Key {
    Char(char),
    Left,
    Right,
    Up,
    Down,
    Enter,
    Backspace,
    Delete,
    Esc,
    Other,
}

} // verus!
