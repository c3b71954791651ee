use keys::keycode::{
    KEY_A, KEY_ALT, KEY_BACKSPACE, KEY_CAPS_LOCK, KEY_DELETE, KEY_DOWN, KEY_E, KEY_END, KEY_H,
    KEY_HOME, KEY_I, KEY_J, KEY_K, KEY_L, KEY_LEFT, KEY_LEFT_ALT, KEY_MEDIA_NEXT,
    KEY_MEDIA_PLAY_PAUSE, KEY_MEDIA_PREVIOUS, KEY_O, KEY_Q, KEY_R, KEY_RIGHT, KEY_RIGHT_ALT, KEY_S,
    KEY_SEMICOLON, KEY_T, KEY_TAB, KEY_U, KEY_UP, KEY_VOLUME_DOWN, KEY_VOLUME_MUTE, KEY_VOLUME_UP,
    KEY_W,
};
use keys::keycode::{layer_key, pass_key, KEY_CTRL, KEY_SHIFT};
use keys::latch::{Modifier, ModifierLatchState, StateUpdate};
use keys::table::{Action, RemapTable};

#[test]
fn standard_table_has_the_sixteen_entries() {
    let table = RemapTable::standard();
    let expected = [
        (KEY_A, Action::EmitModifier { target: Modifier::Ctrl, tracks_latch: true }),
        (KEY_S, Action::EmitModifier { target: Modifier::Shift, tracks_latch: true }),
        (KEY_I, Action::EmitKey { target: KEY_UP }),
        (KEY_K, Action::EmitKey { target: KEY_DOWN }),
        (KEY_J, Action::EmitKey { target: KEY_LEFT }),
        (KEY_L, Action::EmitKey { target: KEY_RIGHT }),
        (KEY_H, Action::EmitKey { target: KEY_HOME }),
        (KEY_SEMICOLON, Action::EmitKey { target: KEY_END }),
        (KEY_W, Action::EmitMediaKey { target: KEY_VOLUME_UP, fire_on_down_only: true }),
        (KEY_Q, Action::EmitMediaKey { target: KEY_VOLUME_DOWN, fire_on_down_only: true }),
        (KEY_TAB, Action::EmitMediaKey { target: KEY_VOLUME_MUTE, fire_on_down_only: true }),
        (KEY_E, Action::EmitMediaKey { target: KEY_MEDIA_PREVIOUS, fire_on_down_only: true }),
        (KEY_R, Action::EmitMediaKey { target: KEY_MEDIA_PLAY_PAUSE, fire_on_down_only: true }),
        (KEY_T, Action::EmitMediaKey { target: KEY_MEDIA_NEXT, fire_on_down_only: true }),
        (KEY_O, Action::EmitKey { target: KEY_DELETE }),
        (KEY_U, Action::EmitKey { target: KEY_BACKSPACE }),
    ];
    for (code, action) in expected {
        assert_eq!(table.lookup(code, true), action);
        assert_eq!(table.lookup(code, false), Action::PassThrough);
    }
    let mut mapped = 0;
    let mut code: u32 = 0;
    while code < 0x200 {
        if table.lookup(code, true) != Action::PassThrough {
            mapped += 1;
        }
        code += 1;
    }
    assert_eq!(mapped, 16);
}

#[test]
fn standard_table_uses_the_platform_key_numbers() {
    assert_eq!(KEY_CAPS_LOCK, 0x14);
    assert_eq!((KEY_A, KEY_S, KEY_I, KEY_K, KEY_J, KEY_L), (0x41, 0x53, 0x49, 0x4B, 0x4A, 0x4C));
    assert_eq!((KEY_H, KEY_SEMICOLON, KEY_W, KEY_Q, KEY_TAB), (0x48, 0xBA, 0x57, 0x51, 0x09));
    assert_eq!((KEY_E, KEY_R, KEY_T, KEY_O, KEY_U), (0x45, 0x52, 0x54, 0x4F, 0x55));
    assert_eq!((KEY_CTRL, KEY_SHIFT), (0x11, 0x10));
    assert_eq!((KEY_UP, KEY_DOWN, KEY_LEFT, KEY_RIGHT), (0x26, 0x28, 0x25, 0x27));
    assert_eq!((KEY_HOME, KEY_END, KEY_DELETE, KEY_BACKSPACE), (0x24, 0x23, 0x2E, 0x08));
    assert_eq!((KEY_VOLUME_UP, KEY_VOLUME_DOWN, KEY_VOLUME_MUTE), (0xAF, 0xAE, 0xAD));
    assert_eq!((KEY_MEDIA_PREVIOUS, KEY_MEDIA_PLAY_PAUSE, KEY_MEDIA_NEXT), (0xB1, 0xB3, 0xB0));
    assert_eq!((KEY_ALT, KEY_LEFT_ALT, KEY_RIGHT_ALT), (0x12, 0xA4, 0xA5));
}

#[test]
fn unmapped_keys_pass_in_the_standard_table() {
    let table = RemapTable::standard();
    for code in [0x5A, 0x20, 0x0D, KEY_CAPS_LOCK, KEY_ALT, KEY_UP, KEY_CTRL, 0, u32::MAX] {
        assert_eq!(table.lookup(code, true), Action::PassThrough);
        assert_eq!(table.lookup(code, false), Action::PassThrough);
    }
}

#[test]
fn empty_table_passes_everything() {
    let table = RemapTable::empty();
    assert_eq!(table.lookup(KEY_A, true), Action::PassThrough);
    assert_eq!(table.lookup(KEY_A, false), Action::PassThrough);
}

#[test]
fn insert_replaces_the_entry_of_a_key() {
    let mut table = RemapTable::empty();
    table.insert(KEY_A, Action::EmitKey { target: KEY_UP });
    table.insert(KEY_S, Action::Suppress);
    assert_eq!(table.lookup(KEY_A, true), Action::EmitKey { target: KEY_UP });
    table.insert(KEY_A, Action::EmitKey { target: KEY_DOWN });
    assert_eq!(table.lookup(KEY_A, true), Action::EmitKey { target: KEY_DOWN });
    assert_eq!(table.lookup(KEY_S, true), Action::Suppress);
    assert_eq!(table.lookup(KEY_A, false), Action::PassThrough);
}

#[test]
fn layer_key_is_caps_lock_only() {
    assert!(layer_key(KEY_CAPS_LOCK));
    assert!(layer_key(0x14));
    assert!(!layer_key(KEY_A));
    assert!(!layer_key(KEY_ALT));
    assert!(!layer_key(0));
}

#[test]
fn pass_keys_are_the_three_alt_keys() {
    assert!(pass_key(KEY_ALT));
    assert!(pass_key(KEY_LEFT_ALT));
    assert!(pass_key(KEY_RIGHT_ALT));
    assert!(!pass_key(KEY_CAPS_LOCK));
    assert!(!pass_key(KEY_CTRL));
    assert!(!pass_key(0xA3));
    assert!(!pass_key(0xA6));
}

#[test]
fn modifiers_have_their_keys() {
    assert_eq!(Modifier::Ctrl.key_code(), KEY_CTRL);
    assert_eq!(Modifier::Shift.key_code(), KEY_SHIFT);
}

#[test]
fn latch_starts_with_nothing_held() {
    let state = ModifierLatchState::new();
    assert!(!state.layer_held());
    assert!(!state.virtual_ctrl_held());
    assert!(!state.virtual_shift_held());
    assert!(!state.holds(Modifier::Ctrl));
    assert!(!state.holds(Modifier::Shift));
}

#[test]
fn latch_ignores_a_modifier_outside_the_layer() {
    let mut state = ModifierLatchState::new();
    state.set_virtual(Modifier::Ctrl, true);
    state.set_virtual(Modifier::Shift, true);
    assert!(!state.layer_held());
    assert!(!state.virtual_ctrl_held());
    assert!(!state.virtual_shift_held());
    state.apply(StateUpdate::SetVirtual { modifier: Modifier::Ctrl, held: true });
    assert!(!state.virtual_ctrl_held());
    state.commit(StateUpdate::SetVirtual { modifier: Modifier::Ctrl, held: true }, true);
    assert!(!state.virtual_ctrl_held());
}

#[test]
fn latch_holds_and_releases_inside_the_layer() {
    let mut state = ModifierLatchState::new();
    state.on_layer_down();
    assert!(state.layer_held());
    state.set_virtual(Modifier::Ctrl, true);
    assert!(state.virtual_ctrl_held());
    assert!(state.holds(Modifier::Ctrl));
    assert!(!state.holds(Modifier::Shift));
    state.set_virtual(Modifier::Shift, true);
    state.set_virtual(Modifier::Ctrl, false);
    assert!(!state.virtual_ctrl_held());
    assert!(state.virtual_shift_held());
    state.on_layer_down();
    assert!(state.virtual_shift_held());
}

#[test]
fn latch_returns_what_was_held_when_the_layer_ends() {
    let mut state = ModifierLatchState::new();
    assert_eq!(state.on_layer_up(), Vec::new());
    state.on_layer_down();
    assert_eq!(state.on_layer_up(), Vec::new());
    assert!(!state.layer_held());
    state.on_layer_down();
    state.set_virtual(Modifier::Shift, true);
    assert_eq!(state.on_layer_up(), vec![Modifier::Shift]);
    state.on_layer_down();
    state.set_virtual(Modifier::Shift, true);
    state.set_virtual(Modifier::Ctrl, true);
    assert_eq!(state.on_layer_up(), vec![Modifier::Ctrl, Modifier::Shift]);
    assert!(!state.layer_held());
    assert!(!state.virtual_ctrl_held());
    assert!(!state.virtual_shift_held());
}

#[test]
fn latch_applies_each_update() {
    let mut state = ModifierLatchState::new();
    state.apply(StateUpdate::Unchanged);
    assert!(!state.layer_held());
    state.apply(StateUpdate::LayerDown);
    assert!(state.layer_held());
    state.apply(StateUpdate::SetVirtual { modifier: Modifier::Shift, held: true });
    assert!(state.virtual_shift_held());
    state.apply(StateUpdate::Unchanged);
    assert!(state.virtual_shift_held());
    state.apply(StateUpdate::SetVirtual { modifier: Modifier::Shift, held: false });
    assert!(!state.virtual_shift_held());
    state.apply(StateUpdate::SetVirtual { modifier: Modifier::Ctrl, held: true });
    state.apply(StateUpdate::LayerUp);
    assert!(!state.layer_held());
    assert!(!state.virtual_ctrl_held());
}

#[test]
fn latch_commit_withholds_a_modifier_on_failure_only() {
    let mut state = ModifierLatchState::new();
    state.commit(StateUpdate::LayerDown, false);
    assert!(state.layer_held());
    state.commit(StateUpdate::SetVirtual { modifier: Modifier::Ctrl, held: true }, false);
    assert!(!state.virtual_ctrl_held());
    state.commit(StateUpdate::SetVirtual { modifier: Modifier::Ctrl, held: true }, true);
    assert!(state.virtual_ctrl_held());
    state.commit(StateUpdate::SetVirtual { modifier: Modifier::Ctrl, held: false }, false);
    assert!(state.virtual_ctrl_held());
    state.commit(StateUpdate::Unchanged, false);
    assert!(state.virtual_ctrl_held());
    state.commit(StateUpdate::LayerUp, false);
    assert!(!state.layer_held());
    assert!(!state.virtual_ctrl_held());
}
