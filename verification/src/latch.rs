//! The modifiers the engine holds down on the user's behalf.
//!
//! While the layer key is held, two keys of the layer stand for Ctrl and
//! Shift. The engine presses those modifiers by injection, so nothing but its
//! own record says that they are down. The record obeys one rule: a virtual
//! modifier is held only while the layer key is held. When the layer key
//! comes up, every modifier still held is released with it.

use vstd::prelude::*;
use crate::keycode::{KeyCode, KEY_CTRL, KEY_SHIFT};

verus! {

/// A modifier that the layer can hold down.
#[derive(Clone, Copy, Debug, PartialEq, Eq, Structural)]
pub enum Modifier {
    Ctrl,
    Shift,
}

impl Modifier {
    /// The key that is injected for this modifier.
    pub open spec fn code(self) -> KeyCode {
        match self {
            Modifier::Ctrl => KEY_CTRL,
            Modifier::Shift => KEY_SHIFT,
        }
    }

    /// The key that is injected for this modifier.
    pub fn key_code(self) -> (code: KeyCode)
        ensures
            code == self.code(),
    {
        match self {
            Modifier::Ctrl => KEY_CTRL,
            Modifier::Shift => KEY_SHIFT,
        }
    }
}

/// A change to the latch that a key event calls for.
#[derive(Clone, Copy, Debug, PartialEq, Eq, Structural)]
pub enum StateUpdate {
    /// Nothing changes.
    Unchanged,
    /// The layer key went down.
    LayerDown,
    /// The layer key came up: the layer ends and every virtual modifier with it.
    LayerUp,
    /// A virtual modifier was pressed (`held`) or released.
    SetVirtual { modifier: Modifier, held: bool },
}

/// The latch as a mathematical value: what [`ModifierLatchState`] stands for.
pub struct Latch {
    pub layer_held: bool,
    pub virtual_ctrl_held: bool,
    pub virtual_shift_held: bool,
}

impl Latch {
    /// Nothing is held.
    pub open spec fn idle() -> Latch {
        Latch { layer_held: false, virtual_ctrl_held: false, virtual_shift_held: false }
    }

    /// A virtual modifier is held only while the layer key is.
    pub open spec fn wf(self) -> bool {
        (self.virtual_ctrl_held || self.virtual_shift_held) ==> self.layer_held
    }

    /// Whether `modifier` is held.
    pub open spec fn holds(self, modifier: Modifier) -> bool {
        match modifier {
            Modifier::Ctrl => self.virtual_ctrl_held,
            Modifier::Shift => self.virtual_shift_held,
        }
    }

    /// The latch after the layer key went down.
    pub open spec fn layer_down(self) -> Latch {
        Latch { layer_held: true, ..self }
    }

    /// The modifiers that a release of the layer key lets go of: Ctrl before
    /// Shift, each only if it is held.
    pub open spec fn held_modifiers(self) -> Seq<Modifier> {
        let ctrl = if self.virtual_ctrl_held {
            seq![Modifier::Ctrl]
        } else {
            Seq::empty()
        };
        let shift = if self.virtual_shift_held {
            seq![Modifier::Shift]
        } else {
            Seq::empty()
        };
        ctrl + shift
    }

    /// The latch with `modifier` pressed or released. Outside the layer no
    /// modifier can be held, and the latch stays as it is.
    pub open spec fn with_virtual(self, modifier: Modifier, held: bool) -> Latch {
        if !self.layer_held {
            self
        } else {
            match modifier {
                Modifier::Ctrl => Latch { virtual_ctrl_held: held, ..self },
                Modifier::Shift => Latch { virtual_shift_held: held, ..self },
            }
        }
    }

    /// The latch after `update`.
    pub open spec fn apply(self, update: StateUpdate) -> Latch {
        match update {
            StateUpdate::Unchanged => self,
            StateUpdate::LayerDown => self.layer_down(),
            StateUpdate::LayerUp => Latch::idle(),
            StateUpdate::SetVirtual { modifier, held } => self.with_virtual(modifier, held),
        }
    }

    /// The latch after `update`, when the injection that goes with it was
    /// attempted and `injected` tells whether it succeeded.
    ///
    /// A virtual modifier changes only with a successful injection: the
    /// record then agrees with what the system saw. The layer key is
    /// physical, so its press and release are recorded in any case, and the
    /// release clears the modifiers even where their release could not be
    /// injected.
    pub open spec fn commit(self, update: StateUpdate, injected: bool) -> Latch {
        match update {
            StateUpdate::SetVirtual { modifier, held } => if injected {
                self.with_virtual(modifier, held)
            } else {
                self
            },
            _ => self.apply(update),
        }
    }

    /// The latch after each of `changes` was recorded in order, a change
    /// being an update and whether its injection succeeded.
    pub open spec fn commit_all(self, changes: Seq<(StateUpdate, bool)>) -> Latch
        decreases changes.len(),
    {
        if changes.len() == 0 {
            self
        } else {
            self.commit_all(changes.drop_last()).commit(changes.last().0, changes.last().1)
        }
    }
}

/// The engine's record of the layer key and of the modifiers it holds.
///
/// A value of this type always satisfies [`Latch::wf`]: no call can leave a
/// modifier held outside the layer.
#[derive(Clone, Copy, Debug)]
pub struct ModifierLatchState {
    layer_held: bool,
    virtual_ctrl_held: bool,
    virtual_shift_held: bool,
}

impl ModifierLatchState {
    /// The latch this record stands for.
    pub closed spec fn view(&self) -> Latch {
        Latch {
            layer_held: self.layer_held,
            virtual_ctrl_held: self.virtual_ctrl_held,
            virtual_shift_held: self.virtual_shift_held,
        }
    }

    /// The rule that every value of the type obeys.
    #[verifier::type_invariant]
    pub open spec fn well_formed(&self) -> bool {
        self@.wf()
    }

    /// The record at engine start: nothing is held.
    pub fn new() -> (state: Self)
        ensures
            state@ == Latch::idle(),
    {
        ModifierLatchState { layer_held: false, virtual_ctrl_held: false, virtual_shift_held: false }
    }

    /// Whether the layer key is held.
    pub fn layer_held(&self) -> (held: bool)
        ensures
            held == self@.layer_held,
            self@.wf(),
    {
        proof {
            use_type_invariant(self);
        }
        self.layer_held
    }

    /// Whether the engine holds Ctrl.
    pub fn virtual_ctrl_held(&self) -> (held: bool)
        ensures
            held == self@.virtual_ctrl_held,
            self@.wf(),
    {
        proof {
            use_type_invariant(self);
        }
        self.virtual_ctrl_held
    }

    /// Whether the engine holds Shift.
    pub fn virtual_shift_held(&self) -> (held: bool)
        ensures
            held == self@.virtual_shift_held,
            self@.wf(),
    {
        proof {
            use_type_invariant(self);
        }
        self.virtual_shift_held
    }

    /// Whether the engine holds `modifier`.
    pub fn holds(&self, modifier: Modifier) -> (held: bool)
        ensures
            held == self@.holds(modifier),
            self@.wf(),
    {
        match modifier {
            Modifier::Ctrl => self.virtual_ctrl_held(),
            Modifier::Shift => self.virtual_shift_held(),
        }
    }

    /// Records that the layer key went down. A repeat of the key while it is
    /// held changes nothing.
    pub fn on_layer_down(&mut self)
        ensures
            final(self)@ == old(self)@.layer_down(),
            final(self)@.wf(),
    {
        proof {
            use_type_invariant(&*self);
        }
        self.layer_held = true;
    }

    /// Records that the layer key came up. Returns the modifiers that were
    /// held, Ctrl before Shift, so that the caller can release each one; none
    /// is held afterwards.
    pub fn on_layer_up(&mut self) -> (released: Vec<Modifier>)
        ensures
            released@ == old(self)@.held_modifiers(),
            final(self)@ == Latch::idle(),
    {
        let mut released: Vec<Modifier> = Vec::new();
        if self.virtual_ctrl_held {
            released.push(Modifier::Ctrl);
        }
        if self.virtual_shift_held {
            released.push(Modifier::Shift);
        }
        *self = ModifierLatchState::new();
        released
    }

    /// Records that `modifier` was pressed (`held`) or released. Outside the
    /// layer the call is ignored, so that the record can never show a
    /// modifier held without the layer key.
    pub fn set_virtual(&mut self, modifier: Modifier, held: bool)
        ensures
            final(self)@ == old(self)@.with_virtual(modifier, held),
            final(self)@.wf(),
    {
        if self.layer_held {
            match modifier {
                Modifier::Ctrl => {
                    self.virtual_ctrl_held = held;
                },
                Modifier::Shift => {
                    self.virtual_shift_held = held;
                },
            }
        } else {
            proof {
                use_type_invariant(&*self);
            }
        }
    }

    /// Carries out `update`.
    pub fn apply(&mut self, update: StateUpdate)
        ensures
            final(self)@ == old(self)@.apply(update),
            final(self)@.wf(),
    {
        match update {
            StateUpdate::Unchanged => {
                proof {
                    use_type_invariant(&*self);
                }
            },
            StateUpdate::LayerDown => {
                self.on_layer_down();
            },
            StateUpdate::LayerUp => {
                *self = ModifierLatchState::new();
            },
            StateUpdate::SetVirtual { modifier, held } => {
                self.set_virtual(modifier, held);
            },
        }
    }

    /// Carries out `update` after the injection that goes with it was
    /// attempted; `injected` tells whether it succeeded. See
    /// [`Latch::commit`].
    pub fn commit(&mut self, update: StateUpdate, injected: bool)
        ensures
            final(self)@ == old(self)@.commit(update, injected),
            final(self)@.wf(),
    {
        match update {
            StateUpdate::SetVirtual { modifier, held } => {
                if injected {
                    self.set_virtual(modifier, held);
                } else {
                    proof {
                        use_type_invariant(&*self);
                    }
                }
            },
            _ => {
                self.apply(update);
            },
        }
    }
}

} // verus!
