//! What a low-level keyboard hook is handed, and what the input queue takes.
//!
//! The hook gets a code, a window message that tells a press from a release,
//! the virtual-key number, and flags of which one bit says that the event was
//! injected. [`decode_hook_event`] turns the four into a [`KeyEvent`], or says
//! why the event is not one for the engine. Such an event is forwarded as it
//! came: a keystroke is never swallowed because it could not be read.
//!
//! In the other direction [`keyboard_input`] gives the record to submit for
//! an event that the engine wants injected.

use vstd::prelude::*;
use crate::event::{Direction, KeyEvent, Origin};

verus! {

/// The message of a key press.
pub const MSG_KEY_DOWN: usize = 0x0100;

/// The message of a key release.
pub const MSG_KEY_UP: usize = 0x0101;

/// The message of a key press while Alt is held.
pub const MSG_SYS_KEY_DOWN: usize = 0x0104;

/// The message of a key release while Alt is held.
pub const MSG_SYS_KEY_UP: usize = 0x0105;

/// The bit of the flags that is set on an injected event.
pub const FLAG_INJECTED: u32 = 0x10;

/// Why a hook call carries no event for the engine.
#[derive(Clone, Copy, Debug, PartialEq, Eq, Structural)]
pub enum DecodeError {
    /// The hook code is negative: the call is not for this hook.
    NotApplicable,
    /// The message is neither a press nor a release.
    MalformedEvent,
}

/// The direction that `message` stands for, if it is a key message.
pub open spec fn message_direction(message: usize) -> Option<Direction> {
    if message == MSG_KEY_DOWN || message == MSG_SYS_KEY_DOWN {
        Some(Direction::Down)
    } else if message == MSG_KEY_UP || message == MSG_SYS_KEY_UP {
        Some(Direction::Up)
    } else {
        None
    }
}

/// The origin that `flags` stand for.
pub open spec fn flags_origin(flags: u32) -> Origin {
    if flags & FLAG_INJECTED != 0 {
        Origin::Synthetic
    } else {
        Origin::Hardware
    }
}

/// The event that a hook call stands for.
pub open spec fn decode_spec(code: i32, message: usize, vk_code: u32, flags: u32) -> Result<
    KeyEvent,
    DecodeError,
> {
    if code < 0 {
        Err(DecodeError::NotApplicable)
    } else {
        match message_direction(message) {
            None => Err(DecodeError::MalformedEvent),
            Some(direction) => Ok(
                KeyEvent { code: vk_code, direction, origin: flags_origin(flags) },
            ),
        }
    }
}

/// Decodes one call of the hook.
pub fn decode_hook_event(code: i32, message: usize, vk_code: u32, flags: u32) -> (r: Result<
    KeyEvent,
    DecodeError,
>)
    ensures
        r == decode_spec(code, message, vk_code, flags),
{
    if code < 0 {
        return Err(DecodeError::NotApplicable);
    }
    let direction = if message == MSG_KEY_DOWN || message == MSG_SYS_KEY_DOWN {
        Direction::Down
    } else if message == MSG_KEY_UP || message == MSG_SYS_KEY_UP {
        Direction::Up
    } else {
        return Err(DecodeError::MalformedEvent);
    };
    let origin = if flags & FLAG_INJECTED != 0 {
        Origin::Synthetic
    } else {
        Origin::Hardware
    };
    Ok(KeyEvent { code: vk_code, direction, origin })
}

/// The flag of a submitted record that makes it a release.
pub const INPUT_FLAG_KEY_UP: u32 = 0x0002;

/// An event could not be put into the input queue. The engine goes on; the
/// latch then records no modifier as pressed or released that the system
/// did not see.
#[derive(Clone, Copy, Debug, PartialEq, Eq, Structural)]
pub struct InjectionFailure;

/// The record that the input queue takes for one key transition.
#[derive(Clone, Copy, Debug, PartialEq, Eq, Structural)]
pub struct KeyboardInput {
    /// The virtual-key number.
    pub virtual_key: u16,
    /// Zero for a press, [`INPUT_FLAG_KEY_UP`] for a release.
    pub flags: u32,
}

/// The record for `event`, where its key number fits the record's sixteen
/// bits.
pub open spec fn keyboard_input_spec(event: KeyEvent) -> Result<KeyboardInput, InjectionFailure> {
    if event.code <= 0xFFFF {
        Ok(
            KeyboardInput {
                virtual_key: event.code as u16,
                flags: match event.direction {
                    Direction::Down => 0,
                    Direction::Up => INPUT_FLAG_KEY_UP,
                },
            },
        )
    } else {
        Err(InjectionFailure)
    }
}

/// Builds the record to submit for `event`. A key number beyond sixteen
/// bits names no key that can be injected.
pub fn keyboard_input(event: KeyEvent) -> (r: Result<KeyboardInput, InjectionFailure>)
    ensures
        r == keyboard_input_spec(event),
{
    if event.code > 0xFFFF {
        return Err(InjectionFailure);
    }
    let flags = match event.direction {
        Direction::Down => 0,
        Direction::Up => INPUT_FLAG_KEY_UP,
    };
    Ok(KeyboardInput { virtual_key: event.code as u16, flags })
}

} // verus!
