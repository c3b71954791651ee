//! Key events as the engine sees them.

use vstd::prelude::*;
use crate::keycode::KeyCode;

verus! {

/// Whether a key went down or came up.
#[derive(Clone, Copy, Debug, PartialEq, Eq, Structural)]
pub enum Direction {
    Down,
    Up,
}

/// Where an event came from: the keyboard, or an injection into the input
/// stream (this engine's own, or another process's).
#[derive(Clone, Copy, Debug, PartialEq, Eq, Structural)]
pub enum Origin {
    Hardware,
    Synthetic,
}

/// One key transition.
#[derive(Clone, Copy, Debug, PartialEq, Eq, Structural)]
pub struct KeyEvent {
    pub code: KeyCode,
    pub direction: Direction,
    pub origin: Origin,
}

/// The event the engine injects for `code` going in `direction`.
pub open spec fn synthetic(code: KeyCode, direction: Direction) -> KeyEvent {
    KeyEvent { code, direction, origin: Origin::Synthetic }
}

/// The event a physical key produces for `code` going in `direction`.
pub open spec fn hardware(code: KeyCode, direction: Direction) -> KeyEvent {
    KeyEvent { code, direction, origin: Origin::Hardware }
}

impl KeyEvent {
    /// An event from the physical keyboard.
    pub fn hardware(code: KeyCode, direction: Direction) -> (e: KeyEvent)
        ensures
            e == hardware(code, direction),
    {
        KeyEvent { code, direction, origin: Origin::Hardware }
    }

    /// An event as the engine injects it.
    pub fn synthetic(code: KeyCode, direction: Direction) -> (e: KeyEvent)
        ensures
            e == synthetic(code, direction),
    {
        KeyEvent { code, direction, origin: Origin::Synthetic }
    }
}

} // verus!
