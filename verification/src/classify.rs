//! The decision: what one key event calls for, given the latch and the table.
//!
//! Nothing here has an effect. [`classify`] names the action and the change
//! to the latch; [`plan`] spells the action out as the events to inject and
//! whether the event itself goes on. The caller injects, and then carries out the
//! change.

use vstd::prelude::*;
use crate::event::{synthetic, Direction, KeyEvent, Origin};
use crate::keycode::{is_layer_key, is_pass_key, layer_key, pass_key, KeyCode};
use crate::latch::{Latch, Modifier, ModifierLatchState, StateUpdate};
use crate::table::{lookup, Action, RemapTable};

verus! {

/// The change to the latch that goes with `action` for a key going in
/// `direction`: a modifier that tracks the latch is held from its press to
/// its release, and no other action touches the latch.
pub open spec fn update_for(action: Action, direction: Direction) -> StateUpdate {
    match action {
        Action::EmitModifier { target, tracks_latch } => if tracks_latch {
            StateUpdate::SetVirtual { modifier: target, held: direction == Direction::Down }
        } else {
            StateUpdate::Unchanged
        },
        _ => StateUpdate::Unchanged,
    }
}

/// The rules, in the order in which they apply:
/// an injected event passes; the layer key is swallowed, and starts or ends
/// the layer; a key that always passes, passes; outside the layer every key
/// passes; inside it the table decides, and a key without an entry passes.
pub open spec fn classify_spec(latch: Latch, table: Map<KeyCode, Action>, event: KeyEvent) -> (
    Action,
    StateUpdate,
) {
    if event.origin == Origin::Synthetic {
        (Action::PassThrough, StateUpdate::Unchanged)
    } else if is_layer_key(event.code) {
        match event.direction {
            Direction::Down => (Action::Suppress, StateUpdate::LayerDown),
            Direction::Up => (Action::Suppress, StateUpdate::LayerUp),
        }
    } else if is_pass_key(event.code) {
        (Action::PassThrough, StateUpdate::Unchanged)
    } else if !latch.layer_held {
        (Action::PassThrough, StateUpdate::Unchanged)
    } else {
        let action = lookup(table, event.code, true);
        (action, update_for(action, event.direction))
    }
}

/// The releases that end the layer: one for each modifier that is held, Ctrl
/// before Shift.
pub open spec fn releases(latch: Latch) -> Seq<KeyEvent> {
    let ctrl = if latch.virtual_ctrl_held {
        seq![synthetic(Modifier::Ctrl.code(), Direction::Up)]
    } else {
        Seq::empty()
    };
    let shift = if latch.virtual_shift_held {
        seq![synthetic(Modifier::Shift.code(), Direction::Up)]
    } else {
        Seq::empty()
    };
    ctrl + shift
}

/// The events to inject for `action` and `update`, in order, when the key
/// that was classified went in `direction`.
pub open spec fn injections(
    latch: Latch,
    action: Action,
    update: StateUpdate,
    direction: Direction,
) -> Seq<KeyEvent> {
    match action {
        Action::PassThrough => Seq::empty(),
        Action::Suppress => if update == StateUpdate::LayerUp {
            releases(latch)
        } else {
            Seq::empty()
        },
        Action::EmitModifier { target, tracks_latch } => seq![synthetic(target.code(), direction)],
        Action::EmitKey { target } => seq![synthetic(target, direction)],
        Action::EmitMediaKey { target, fire_on_down_only } => if direction == Direction::Up
            && fire_on_down_only {
            Seq::empty()
        } else {
            seq![synthetic(target, direction)]
        },
    }
}

/// What a [`Reaction`] stands for.
pub struct Plan {
    /// The event itself goes on to the rest of the system.
    pub forward: bool,
    /// The events to inject, in order.
    pub inject: Seq<KeyEvent>,
    /// The change to the latch, due once the injection was attempted.
    pub update: StateUpdate,
}

/// The plan for `event`: the event itself goes on exactly when the action is
/// pass-through, and then nothing is injected.
pub open spec fn plan_for(latch: Latch, table: Map<KeyCode, Action>, event: KeyEvent) -> Plan {
    let (action, update) = classify_spec(latch, table, event);
    Plan {
        forward: action == Action::PassThrough,
        inject: injections(latch, action, update, event.direction),
        update,
    }
}

/// What the caller is to do with one key event.
#[derive(Debug)]
pub struct Reaction {
    /// Let the event itself go on to the rest of the system.
    pub forward: bool,
    /// The events to inject, in order.
    pub inject: Vec<KeyEvent>,
    /// The change to the latch, due once the injection was attempted.
    pub update: StateUpdate,
}

impl Reaction {
    /// The plan this reaction stands for.
    pub open spec fn view(&self) -> Plan {
        Plan { forward: self.forward, inject: self.inject@, update: self.update }
    }
}

/// Classifies `event`: the action it calls for and the change to the latch.
pub fn classify(state: &ModifierLatchState, table: &RemapTable, event: KeyEvent) -> (r: (
    Action,
    StateUpdate,
))
    ensures
        r == classify_spec(state@, table@, event),
{
    match event.origin {
        Origin::Synthetic => {
            return (Action::PassThrough, StateUpdate::Unchanged);
        },
        Origin::Hardware => {},
    }
    if layer_key(event.code) {
        return match event.direction {
            Direction::Down => (Action::Suppress, StateUpdate::LayerDown),
            Direction::Up => (Action::Suppress, StateUpdate::LayerUp),
        };
    }
    if pass_key(event.code) {
        return (Action::PassThrough, StateUpdate::Unchanged);
    }
    if !state.layer_held() {
        return (Action::PassThrough, StateUpdate::Unchanged);
    }
    let action = table.lookup(event.code, true);
    let update = match action {
        Action::EmitModifier { target, tracks_latch } => {
            if tracks_latch {
                let held = match event.direction {
                    Direction::Down => true,
                    Direction::Up => false,
                };
                StateUpdate::SetVirtual { modifier: target, held }
            } else {
                StateUpdate::Unchanged
            }
        },
        _ => StateUpdate::Unchanged,
    };
    (action, update)
}

/// Spells out what `event` calls for: whether it goes on, the events to
/// inject in its place, and the change to the latch that is due afterwards.
pub fn plan(state: &ModifierLatchState, table: &RemapTable, event: KeyEvent) -> (reaction: Reaction)
    ensures
        reaction@ == plan_for(state@, table@, event),
{
    let (action, update) = classify(state, table, event);
    let mut inject: Vec<KeyEvent> = Vec::new();
    let mut forward = false;
    match action {
        Action::PassThrough => {
            forward = true;
        },
        Action::Suppress => {
            match update {
                StateUpdate::LayerUp => {
                    if state.holds(Modifier::Ctrl) {
                        inject.push(KeyEvent::synthetic(Modifier::Ctrl.key_code(), Direction::Up));
                    }
                    if state.holds(Modifier::Shift) {
                        inject.push(KeyEvent::synthetic(Modifier::Shift.key_code(), Direction::Up));
                    }
                },
                _ => {},
            }
        },
        Action::EmitModifier { target, tracks_latch: _ } => {
            inject.push(KeyEvent::synthetic(target.key_code(), event.direction));
        },
        Action::EmitKey { target } => {
            inject.push(KeyEvent::synthetic(target, event.direction));
        },
        Action::EmitMediaKey { target, fire_on_down_only } => {
            match event.direction {
                Direction::Down => {
                    inject.push(KeyEvent::synthetic(target, Direction::Down));
                },
                Direction::Up => {
                    if !fire_on_down_only {
                        inject.push(KeyEvent::synthetic(target, Direction::Up));
                    }
                },
            }
        },
    }
    assert(inject@ =~= injections(state@, action, update, event.direction));
    Reaction { forward, inject, update }
}

} // verus!
