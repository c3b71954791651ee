//! The engine as a mathematical machine: one step, and a run over a
//! sequence of events.
//!
//! A step takes the latch and one event to the next latch and to what the
//! rest of the system gets to see: the event itself where it passes, and
//! otherwise the events injected in its place.

use vstd::prelude::*;
use crate::classify::plan_for;
use crate::event::KeyEvent;
use crate::keycode::KeyCode;
use crate::latch::Latch;
use crate::table::Action;

verus! {

/// The latch after `event`, every injection having succeeded.
pub open spec fn step(latch: Latch, table: Map<KeyCode, Action>, event: KeyEvent) -> Latch {
    latch.apply(plan_for(latch, table, event).update)
}

/// What the rest of the system sees of `event`: the event itself where it
/// passes, and otherwise the events injected in its place.
pub open spec fn delivered(latch: Latch, table: Map<KeyCode, Action>, event: KeyEvent) -> Seq<
    KeyEvent,
> {
    let plan = plan_for(latch, table, event);
    if plan.forward {
        seq![event]
    } else {
        plan.inject
    }
}

/// The latch after `events`, taken in order from `latch`.
pub open spec fn run_state(latch: Latch, table: Map<KeyCode, Action>, events: Seq<KeyEvent>) -> Latch
    decreases events.len(),
{
    if events.len() == 0 {
        latch
    } else {
        step(run_state(latch, table, events.drop_last()), table, events.last())
    }
}

/// What the rest of the system sees of `events`, taken in order from `latch`.
pub open spec fn run_output(
    latch: Latch,
    table: Map<KeyCode, Action>,
    events: Seq<KeyEvent>,
) -> Seq<KeyEvent>
    decreases events.len(),
{
    if events.len() == 0 {
        Seq::empty()
    } else {
        run_output(latch, table, events.drop_last()) + delivered(
            run_state(latch, table, events.drop_last()),
            table,
            events.last(),
        )
    }
}

} // verus!
