//! Key codes and the closed set of keys the engine knows by name.
//!
//! A key is identified by its virtual-key number. Back ends that see keys in
//! another numbering convert at their edge, so that one remap table serves
//! every platform.

use vstd::prelude::*;

verus! {

/// Identifies a key by its virtual-key number. Two codes name the same key
/// exactly when the numbers are equal.
pub type KeyCode = u32;

pub const KEY_BACKSPACE: KeyCode = 0x08;

pub const KEY_TAB: KeyCode = 0x09;

pub const KEY_SHIFT: KeyCode = 0x10;

pub const KEY_CTRL: KeyCode = 0x11;

/// Alt, reported without a side.
pub const KEY_ALT: KeyCode = 0x12;

/// CapsLock, the layer key.
pub const KEY_CAPS_LOCK: KeyCode = 0x14;

pub const KEY_END: KeyCode = 0x23;

pub const KEY_HOME: KeyCode = 0x24;

pub const KEY_LEFT: KeyCode = 0x25;

pub const KEY_UP: KeyCode = 0x26;

pub const KEY_RIGHT: KeyCode = 0x27;

pub const KEY_DOWN: KeyCode = 0x28;

pub const KEY_DELETE: KeyCode = 0x2E;

pub const KEY_A: KeyCode = 0x41;

pub const KEY_E: KeyCode = 0x45;

pub const KEY_H: KeyCode = 0x48;

pub const KEY_I: KeyCode = 0x49;

pub const KEY_J: KeyCode = 0x4A;

pub const KEY_K: KeyCode = 0x4B;

pub const KEY_L: KeyCode = 0x4C;

pub const KEY_O: KeyCode = 0x4F;

pub const KEY_Q: KeyCode = 0x51;

pub const KEY_R: KeyCode = 0x52;

pub const KEY_S: KeyCode = 0x53;

pub const KEY_T: KeyCode = 0x54;

pub const KEY_U: KeyCode = 0x55;

pub const KEY_W: KeyCode = 0x57;

pub const KEY_LEFT_ALT: KeyCode = 0xA4;

pub const KEY_RIGHT_ALT: KeyCode = 0xA5;

pub const KEY_VOLUME_MUTE: KeyCode = 0xAD;

pub const KEY_VOLUME_DOWN: KeyCode = 0xAE;

pub const KEY_VOLUME_UP: KeyCode = 0xAF;

pub const KEY_MEDIA_NEXT: KeyCode = 0xB0;

pub const KEY_MEDIA_PREVIOUS: KeyCode = 0xB1;

pub const KEY_MEDIA_PLAY_PAUSE: KeyCode = 0xB3;

pub const KEY_SEMICOLON: KeyCode = 0xBA;

/// The layer key is CapsLock and nothing else.
pub open spec fn is_layer_key(code: KeyCode) -> bool {
    code == KEY_CAPS_LOCK
}

/// The keys that pass under all conditions: Alt, with or without a side.
/// Swallowing one of them would break the system's accelerators.
pub open spec fn is_pass_key(code: KeyCode) -> bool {
    code == KEY_ALT || code == KEY_LEFT_ALT || code == KEY_RIGHT_ALT
}

/// Tells whether `code` is the layer key.
pub fn layer_key(code: KeyCode) -> (b: bool)
    ensures
        b == is_layer_key(code),
{
    code == KEY_CAPS_LOCK
}

/// Tells whether `code` is one of the keys that always pass.
pub fn pass_key(code: KeyCode) -> (b: bool)
    ensures
        b == is_pass_key(code),
{
    code == KEY_ALT || code == KEY_LEFT_ALT || code == KEY_RIGHT_ALT
}

} // verus!
