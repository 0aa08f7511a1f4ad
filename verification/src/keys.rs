//! The keyboard surface: the single key presses the state machine routes.
//! The caller translates raw terminal events into these before handing
//! them in; keys outside this set arrive as `Other`.

use vstd::prelude::*;

verus! {

/// One key press.
#[derive(Debug, Clone, Copy, PartialEq, Eq, Structural)]
pub enum InputKey {
    Esc,
    Enter,
    Tab,
    Backspace,
    Left,
    Right,
    Home,
    End,
    Up,
    Down,
    Char(char),
    Other,
}

} // verus!
