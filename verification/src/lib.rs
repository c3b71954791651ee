//! Keyboard layer engine: CapsLock held as a transient modifier that remaps
//! a fixed set of keys to arrows, Ctrl and Shift, media controls and editing
//! keys.
//!
//! The engine is the part of a keyboard interceptor that decides. It is fed
//! one key event at a time, says whether the event goes on to the rest of
//! the system and which events to inject in its place, and keeps track of the
//! modifiers it holds down on the user's behalf. Installing the hook and
//! submitting the injected events is left to the caller.
//!
//! - [`keycode`], [`event`]: keys and key events.
//! - [`latch`]: the record of what is held.
//! - [`table`]: what each key does inside the layer.
//! - [`classify`]: the decision for one event.
//! - [`keyboard`]: the interceptor's state, and its reactions.
//! - [`hook`]: the hook's payload and the input queue's record.
//! - [`lifecycle`]: the hook handle and the servicing loop.
//! - [`trace`], [`laws`]: the engine as a machine, and what holds of it.
//! - [`wide`]: text for wide-character interfaces.

pub mod classify;
pub mod event;
pub mod hook;
pub mod keyboard;
pub mod keycode;
pub mod latch;
pub mod laws;
pub mod lifecycle;
pub mod table;
pub mod trace;
pub mod wide;
