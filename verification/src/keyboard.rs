//! The interceptor's state and decisions.
//!
//! A [`KeyboardManager`] owns the latch and the remap table. The back end
//! that owns the hook hands it every key event, in the order in which the
//! hardware delivered them, and does as it is told:
//!
//! 1. [`KeyboardManager::keyboard_hook_proc`] (or [`KeyboardManager::plan`],
//!    for a back end that has decoded the event itself) says whether the
//!    event goes on and which events to inject in its place;
//! 2. the back end injects them;
//! 3. [`KeyboardManager::commit`] records the change, given whether the
//!    injection succeeded.
//!
//! [`KeyboardManager::handle_event`] does the first and the last step in one
//! call, for a back end whose injection cannot be seen to fail.

use vstd::prelude::*;
use crate::classify::{plan, plan_for, Plan, Reaction};
use crate::event::KeyEvent;
use crate::hook::{decode_hook_event, decode_spec};
use crate::keycode::KeyCode;
use crate::latch::{Latch, ModifierLatchState, StateUpdate};
use crate::table::{standard_remap, Action, RemapTable};
use crate::trace::{run_output, run_state, step};

verus! {

/// The plan for one call of the hook: an event that cannot be decoded goes
/// on as it came, and any other is planned as [`plan_for`] says.
pub open spec fn hook_plan(
    latch: Latch,
    table: Map<KeyCode, Action>,
    code: i32,
    message: usize,
    vk_code: u32,
    flags: u32,
) -> Plan {
    match decode_spec(code, message, vk_code, flags) {
        Ok(event) => plan_for(latch, table, event),
        Err(_) => Plan { forward: true, inject: Seq::empty(), update: StateUpdate::Unchanged },
    }
}

/// The interceptor's state: the latch, and the table it was built with.
pub struct KeyboardManager {
    state: ModifierLatchState,
    table: RemapTable,
}

impl KeyboardManager {
    /// The latch as it stands.
    pub closed spec fn latch(&self) -> Latch {
        self.state@
    }

    /// The remap table. No call changes it.
    pub closed spec fn remap(&self) -> Map<KeyCode, Action> {
        self.table@
    }

    /// An interceptor with the standard table and nothing held.
    pub fn new() -> (manager: Self)
        ensures
            manager.latch() == Latch::idle(),
            manager.remap() == standard_remap(),
    {
        KeyboardManager { state: ModifierLatchState::new(), table: RemapTable::standard() }
    }

    /// An interceptor with `table` and nothing held.
    pub fn with_table(table: RemapTable) -> (manager: Self)
        ensures
            manager.latch() == Latch::idle(),
            manager.remap() == table@,
    {
        KeyboardManager { state: ModifierLatchState::new(), table }
    }

    /// The latch as it stands.
    pub fn state(&self) -> (state: ModifierLatchState)
        ensures
            state@ == self.latch(),
            state@.wf(),
    {
        proof {
            use_type_invariant(&self.state);
        }
        self.state
    }

    /// Plans the reaction to `event` and leaves the latch as it is.
    pub fn plan(&self, event: KeyEvent) -> (reaction: Reaction)
        ensures
            reaction@ == plan_for(self.latch(), self.remap(), event),
    {
        plan(&self.state, &self.table, event)
    }

    /// Plans the reaction to one call of the hook and leaves the latch as it
    /// is. A call that carries no event for the engine is forwarded.
    pub fn keyboard_hook_proc(&self, code: i32, message: usize, vk_code: u32, flags: u32) -> (reaction:
        Reaction)
        ensures
            reaction@ == hook_plan(self.latch(), self.remap(), code, message, vk_code, flags),
    {
        match decode_hook_event(code, message, vk_code, flags) {
            Ok(event) => plan(&self.state, &self.table, event),
            Err(_) => Reaction { forward: true, inject: Vec::new(), update: StateUpdate::Unchanged },
        }
    }

    /// Records `update`, the change that a planned reaction asked for, once
    /// its events were injected; `injected` tells whether that succeeded.
    pub fn commit(&mut self, update: StateUpdate, injected: bool)
        ensures
            final(self).latch() == old(self).latch().commit(update, injected),
            final(self).latch().wf(),
            final(self).remap() == old(self).remap(),
    {
        self.state.commit(update, injected);
    }

    /// Plans the reaction to `event` and records its change at once, as if
    /// every injection succeeds.
    pub fn handle_event(&mut self, event: KeyEvent) -> (reaction: Reaction)
        ensures
            reaction@ == plan_for(old(self).latch(), old(self).remap(), event),
            final(self).latch() == step(old(self).latch(), old(self).remap(), event),
            final(self).latch().wf(),
            final(self).remap() == old(self).remap(),
    {
        let reaction = plan(&self.state, &self.table, event);
        self.state.apply(reaction.update);
        reaction
    }

    /// Reacts to each of `events` in order, every injection taken to
    /// succeed, and returns what the rest of the system sees of them.
    pub fn feed(&mut self, events: &Vec<KeyEvent>) -> (seen: Vec<KeyEvent>)
        ensures
            final(self).latch() == run_state(old(self).latch(), old(self).remap(), events@),
            seen@ == run_output(old(self).latch(), old(self).remap(), events@),
            final(self).latch().wf(),
            final(self).remap() == old(self).remap(),
    {
        let mut seen: Vec<KeyEvent> = Vec::new();
        let ghost start = self.latch();
        let ghost table = self.remap();
        proof {
            use_type_invariant(&self.state);
        }
        let mut i: usize = 0;
        while i < events.len()
            invariant
                i <= events.len(),
                self.remap() == table,
                self.latch() == run_state(start, table, events@.take(i as int)),
                seen@ == run_output(start, table, events@.take(i as int)),
                self.latch().wf(),
            decreases events.len() - i,
        {
            let event = events[i];
            let mut reaction = self.handle_event(event);
            if reaction.forward {
                seen.push(event);
            } else {
                seen.append(&mut reaction.inject);
            }
            assert(events@.take(i + 1).drop_last() =~= events@.take(i as int));
            i = i + 1;
        }
        assert(events@.take(i as int) =~= events@);
        seen
    }
}

} // verus!
