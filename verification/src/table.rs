//! The remap table: what each key does while the layer is held.

use std::collections::HashMap;
use vstd::prelude::*;
use crate::keycode::{
    KeyCode, KEY_A, KEY_BACKSPACE, KEY_DELETE, KEY_DOWN, KEY_E, KEY_END, KEY_H, KEY_HOME, KEY_I,
    KEY_J, KEY_K, KEY_L, KEY_LEFT, KEY_MEDIA_NEXT, KEY_MEDIA_PLAY_PAUSE, KEY_MEDIA_PREVIOUS, KEY_O,
    KEY_Q, KEY_R, KEY_RIGHT, KEY_S, KEY_SEMICOLON, KEY_T, KEY_TAB, KEY_U, KEY_UP, KEY_VOLUME_DOWN,
    KEY_VOLUME_MUTE, KEY_VOLUME_UP, KEY_W,
};
use crate::latch::Modifier;

verus! {

broadcast use vstd::std_specs::hash::group_hash_axioms;

/// What the engine does with a key event.
#[allow(inconsistent_fields)]
#[derive(Clone, Copy, Debug, PartialEq, Eq, Structural)]
pub enum Action {
    /// The event goes on to the rest of the system as it came.
    PassThrough,
    /// The event is swallowed and nothing takes its place.
    Suppress,
    /// The event is swallowed and `target` goes the same way in its place.
    /// With `tracks_latch` the engine also records the modifier as held
    /// from the press to the release.
    EmitModifier { target: Modifier, tracks_latch: bool },
    /// The event is swallowed and `target` goes the same way in its place.
    EmitKey { target: KeyCode },
    /// The event is swallowed. A press gives one press of `target`. A release
    /// gives nothing with `fire_on_down_only`, and a release of `target`
    /// without it.
    EmitMediaKey { target: KeyCode, fire_on_down_only: bool },
}

/// The table as a mathematical map, and what it says of a key: outside the
/// layer, and for a key without an entry, the event passes through.
pub open spec fn lookup(table: Map<KeyCode, Action>, code: KeyCode, layer_held: bool) -> Action {
    if layer_held && table.contains_key(code) {
        table[code]
    } else {
        Action::PassThrough
    }
}

/// The table the engine is built with.
pub open spec fn standard_remap() -> Map<KeyCode, Action> {
    map![
        KEY_A => Action::EmitModifier { target: Modifier::Ctrl, tracks_latch: true },
        KEY_S => Action::EmitModifier { target: Modifier::Shift, tracks_latch: true },
        KEY_I => Action::EmitKey { target: KEY_UP },
        KEY_K => Action::EmitKey { target: KEY_DOWN },
        KEY_J => Action::EmitKey { target: KEY_LEFT },
        KEY_L => Action::EmitKey { target: KEY_RIGHT },
        KEY_H => Action::EmitKey { target: KEY_HOME },
        KEY_SEMICOLON => Action::EmitKey { target: KEY_END },
        KEY_W => Action::EmitMediaKey { target: KEY_VOLUME_UP, fire_on_down_only: true },
        KEY_Q => Action::EmitMediaKey { target: KEY_VOLUME_DOWN, fire_on_down_only: true },
        KEY_TAB => Action::EmitMediaKey { target: KEY_VOLUME_MUTE, fire_on_down_only: true },
        KEY_E => Action::EmitMediaKey { target: KEY_MEDIA_PREVIOUS, fire_on_down_only: true },
        KEY_R => Action::EmitMediaKey { target: KEY_MEDIA_PLAY_PAUSE, fire_on_down_only: true },
        KEY_T => Action::EmitMediaKey { target: KEY_MEDIA_NEXT, fire_on_down_only: true },
        KEY_O => Action::EmitKey { target: KEY_DELETE },
        KEY_U => Action::EmitKey { target: KEY_BACKSPACE },
    ]
}

/// Maps a key, while the layer is held, to what the engine does with it.
pub struct RemapTable {
    entries: HashMap<KeyCode, Action>,
}

impl RemapTable {
    /// The entries of the table.
    pub closed spec fn view(&self) -> Map<KeyCode, Action> {
        self.entries@
    }

    /// A table without entries: every key passes through.
    pub fn empty() -> (table: Self)
        ensures
            table@ == Map::<KeyCode, Action>::empty(),
    {
        RemapTable { entries: HashMap::new() }
    }

    /// Gives `code` the entry `action`, in place of the one it had.
    pub fn insert(&mut self, code: KeyCode, action: Action)
        ensures
            final(self)@ == old(self)@.insert(code, action),
    {
        self.entries.insert(code, action);
    }

    /// The table the engine is built with.
    pub fn standard() -> (table: Self)
        ensures
            table@ == standard_remap(),
    {
        let mut table = RemapTable::empty();
        table.insert(KEY_A, Action::EmitModifier { target: Modifier::Ctrl, tracks_latch: true });
        table.insert(KEY_S, Action::EmitModifier { target: Modifier::Shift, tracks_latch: true });
        table.insert(KEY_I, Action::EmitKey { target: KEY_UP });
        table.insert(KEY_K, Action::EmitKey { target: KEY_DOWN });
        table.insert(KEY_J, Action::EmitKey { target: KEY_LEFT });
        table.insert(KEY_L, Action::EmitKey { target: KEY_RIGHT });
        table.insert(KEY_H, Action::EmitKey { target: KEY_HOME });
        table.insert(KEY_SEMICOLON, Action::EmitKey { target: KEY_END });
        table.insert(KEY_W, Action::EmitMediaKey { target: KEY_VOLUME_UP, fire_on_down_only: true });
        table.insert(
            KEY_Q,
            Action::EmitMediaKey { target: KEY_VOLUME_DOWN, fire_on_down_only: true },
        );
        table.insert(
            KEY_TAB,
            Action::EmitMediaKey { target: KEY_VOLUME_MUTE, fire_on_down_only: true },
        );
        table.insert(
            KEY_E,
            Action::EmitMediaKey { target: KEY_MEDIA_PREVIOUS, fire_on_down_only: true },
        );
        table.insert(
            KEY_R,
            Action::EmitMediaKey { target: KEY_MEDIA_PLAY_PAUSE, fire_on_down_only: true },
        );
        table.insert(
            KEY_T,
            Action::EmitMediaKey { target: KEY_MEDIA_NEXT, fire_on_down_only: true },
        );
        table.insert(KEY_O, Action::EmitKey { target: KEY_DELETE });
        table.insert(KEY_U, Action::EmitKey { target: KEY_BACKSPACE });
        table
    }

    /// What the table says of `code`: its entry while the layer is held, and
    /// pass-through outside the layer or without an entry.
    pub fn lookup(&self, code: KeyCode, layer_held: bool) -> (action: Action)
        ensures
            action == lookup(self@, code, layer_held),
    {
        if !layer_held {
            return Action::PassThrough;
        }
        match self.entries.get(&code) {
            Some(action) => *action,
            None => Action::PassThrough,
        }
    }
}

} // verus!
