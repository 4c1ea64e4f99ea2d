//! Input events as the screens see them, already decoded from the terminal
//! by the host binary.

use vstd::prelude::*;

verus! {

/// One input event. Only pressed keys reach the screens with a meaning of
/// their own; every other terminal event (released keys, mouse movement,
/// resizes, keys no screen reacts to) arrives as `Other` and leaves every
/// screen unchanged.
#[derive(Clone, Copy, Debug, PartialEq, Eq, Structural)]
pub enum InputEvent {
    Up,
    Down,
    Enter,
    Esc,
    Tab,
    Backspace,
    Char(char),
    Other,
}

} // verus!
