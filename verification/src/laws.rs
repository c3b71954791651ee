//! What holds of the engine on every input.
//!
//! Each law is stated over the mathematical machine of [`crate::trace`], in
//! the terms in which the executable functions state their results.

use vstd::prelude::*;
use crate::classify::{classify_spec, plan_for, releases, Plan};
use crate::event::{hardware, synthetic, Direction, KeyEvent, Origin};
use crate::hook::FLAG_INJECTED;
use crate::keyboard::hook_plan;
use crate::keycode::{is_layer_key, is_pass_key, KeyCode, KEY_CAPS_LOCK, KEY_CTRL, KEY_SHIFT};
use crate::latch::{Latch, StateUpdate};
use crate::table::{standard_remap, Action};
use crate::trace::{delivered, run_output, run_state, step};

verus! {

/// Every event that the engine injects is marked synthetic.
pub proof fn lemma_injections_are_synthetic(
    latch: Latch,
    table: Map<KeyCode, Action>,
    event: KeyEvent,
)
    ensures
        forall|i: int|
            0 <= i < plan_for(latch, table, event).inject.len() ==> (#[trigger] plan_for(
                latch,
                table,
                event,
            ).inject[i]).origin == Origin::Synthetic,
{
}

/// What the rest of the system sees of an event is either the event itself
/// and nothing else, or injected events only: a swallowed event never gets
/// through.
pub proof fn lemma_delivery_is_event_or_synthetic(
    latch: Latch,
    table: Map<KeyCode, Action>,
    event: KeyEvent,
)
    ensures
        ({
            let seen = delivered(latch, table, event);
            if plan_for(latch, table, event).forward {
                seen == seq![event]
            } else {
                forall|i: int| 0 <= i < seen.len() ==> (#[trigger] seen[i]).origin == Origin::Synthetic
            }
        }),
{
}

/// A synthetic event passes through, whatever the latch, the table and the
/// key: it goes on as it came, nothing is injected, and the latch stays as
/// it is.
pub proof fn lemma_synthetic_passes_through(
    latch: Latch,
    table: Map<KeyCode, Action>,
    event: KeyEvent,
)
    requires
        event.origin == Origin::Synthetic,
    ensures
        classify_spec(latch, table, event) == (Action::PassThrough, StateUpdate::Unchanged),
        plan_for(latch, table, event) == (Plan {
            forward: true,
            inject: Seq::empty(),
            update: StateUpdate::Unchanged,
        }),
        step(latch, table, event) == latch,
        delivered(latch, table, event) == seq![event],
{
}

/// No feedback: an event that the engine injected, handed back to it in
/// whatever state it is by then, passes through.
pub proof fn lemma_own_injections_pass_through(
    latch: Latch,
    table: Map<KeyCode, Action>,
    event: KeyEvent,
    i: int,
    later: Latch,
)
    requires
        0 <= i < plan_for(latch, table, event).inject.len(),
    ensures
        ({
            let echo = plan_for(latch, table, event).inject[i];
            &&& classify_spec(later, table, echo) == (Action::PassThrough, StateUpdate::Unchanged)
            &&& step(later, table, echo) == later
            &&& delivered(later, table, echo) == seq![echo]
        }),
{
    lemma_injections_are_synthetic(latch, table, event);
    lemma_synthetic_passes_through(later, table, plan_for(latch, table, event).inject[i]);
}

/// A run of synthetic events, however long, leaves the latch as it is and
/// reaches the rest of the system unchanged.
pub proof fn lemma_synthetic_run_is_inert(
    latch: Latch,
    table: Map<KeyCode, Action>,
    events: Seq<KeyEvent>,
)
    requires
        forall|i: int| 0 <= i < events.len() ==> (#[trigger] events[i]).origin == Origin::Synthetic,
    ensures
        run_state(latch, table, events) == latch,
        run_output(latch, table, events) == events,
    decreases events.len(),
{
    if events.len() > 0 {
        lemma_synthetic_run_is_inert(latch, table, events.drop_last());
        lemma_synthetic_passes_through(latch, table, events.last());
    }
}

/// A call of the hook with the injected bit set is forwarded, whatever else
/// it carries: nothing is injected in turn and the latch is not touched.
pub proof fn lemma_injected_hook_calls_are_forwarded(
    latch: Latch,
    table: Map<KeyCode, Action>,
    code: i32,
    message: usize,
    vk_code: u32,
    flags: u32,
)
    requires
        flags & FLAG_INJECTED != 0,
    ensures
        hook_plan(latch, table, code, message, vk_code, flags) == (Plan {
            forward: true,
            inject: Seq::empty(),
            update: StateUpdate::Unchanged,
        }),
{
}

/// With the standard table no injected key is itself the layer key or a key
/// of the table. So an event that the engine injected passes through in
/// every state even where it comes back looking like hardware, as it does on
/// a platform that cannot mark what was injected.
pub proof fn lemma_standard_injections_are_inert(
    latch: Latch,
    event: KeyEvent,
    i: int,
    later: Latch,
)
    requires
        0 <= i < plan_for(latch, standard_remap(), event).inject.len(),
    ensures
        ({
            let echo = plan_for(latch, standard_remap(), event).inject[i];
            let unmarked = hardware(echo.code, echo.direction);
            &&& step(later, standard_remap(), unmarked) == later
            &&& delivered(later, standard_remap(), unmarked) == seq![unmarked]
        }),
{
}

/// In every run, whatever came before, a synthetic event is classified as
/// pass-through and changes nothing.
pub proof fn lemma_synthetic_events_pass_in_every_run(
    latch: Latch,
    table: Map<KeyCode, Action>,
    events: Seq<KeyEvent>,
    i: int,
)
    requires
        0 <= i < events.len(),
        events[i].origin == Origin::Synthetic,
    ensures
        ({
            let before = run_state(latch, table, events.take(i));
            &&& classify_spec(before, table, events[i]) == (
                Action::PassThrough,
                StateUpdate::Unchanged,
            )
            &&& run_state(latch, table, events.take(i + 1)) == before
        }),
{
    assert(events.take(i + 1).drop_last() =~= events.take(i));
}

/// One step keeps the rule of the latch: a virtual modifier is held only
/// while the layer key is.
pub proof fn lemma_step_keeps_invariant(latch: Latch, table: Map<KeyCode, Action>, event: KeyEvent)
    requires
        latch.wf(),
    ensures
        step(latch, table, event).wf(),
{
}

/// Recording a change keeps the rule of the latch, whether or not the
/// injection succeeded.
pub proof fn lemma_commit_keeps_invariant(latch: Latch, update: StateUpdate, injected: bool)
    requires
        latch.wf(),
    ensures
        latch.commit(update, injected).wf(),
{
}

/// A failed injection never makes the latch claim more than the system saw:
/// no modifier becomes held by it, a modifier whose release failed stays
/// held, and only the end of the layer lets go regardless.
pub proof fn lemma_failed_injection_holds_nothing_new(latch: Latch, update: StateUpdate)
    ensures
        ({
            let after = latch.commit(update, false);
            &&& after.virtual_ctrl_held ==> latch.virtual_ctrl_held
            &&& after.virtual_shift_held ==> latch.virtual_shift_held
            &&& update is SetVirtual ==> after == latch
            &&& update == StateUpdate::LayerUp ==> after == Latch::idle()
        }),
{
}

/// Whatever changes are recorded, in whatever order and with whatever
/// outcome of their injections, the rule of the latch holds afterwards.
pub proof fn lemma_commits_keep_invariant(latch: Latch, changes: Seq<(StateUpdate, bool)>)
    requires
        latch.wf(),
    ensures
        latch.commit_all(changes).wf(),
    decreases changes.len(),
{
    if changes.len() > 0 {
        lemma_commits_keep_invariant(latch, changes.drop_last());
        lemma_commit_keeps_invariant(
            latch.commit_all(changes.drop_last()),
            changes.last().0,
            changes.last().1,
        );
    }
}

/// A run keeps the rule of the latch.
pub proof fn lemma_run_keeps_invariant(
    latch: Latch,
    table: Map<KeyCode, Action>,
    events: Seq<KeyEvent>,
)
    requires
        latch.wf(),
    ensures
        run_state(latch, table, events).wf(),
    decreases events.len(),
{
    if events.len() > 0 {
        lemma_run_keeps_invariant(latch, table, events.drop_last());
        lemma_step_keeps_invariant(
            run_state(latch, table, events.drop_last()),
            table,
            events.last(),
        );
    }
}

/// No state that the engine can reach from its start holds a virtual
/// modifier without the layer key.
pub proof fn lemma_reachable_states_keep_invariant(
    table: Map<KeyCode, Action>,
    events: Seq<KeyEvent>,
)
    ensures
        ({
            let reached = run_state(Latch::idle(), table, events);
            (reached.virtual_ctrl_held || reached.virtual_shift_held) ==> reached.layer_held
        }),
{
    lemma_run_keeps_invariant(Latch::idle(), table, events);
}

/// Release safety: when the layer key comes up, the event is swallowed,
/// each modifier that is held is released by an injected key-up, and nothing
/// is held afterwards. This holds whether or not the key that pressed the
/// modifier ever came up, and the latch is cleared even where the releases
/// could not be injected.
pub proof fn lemma_layer_release_clears_modifiers(latch: Latch, table: Map<KeyCode, Action>)
    ensures
        ({
            let plan = plan_for(latch, table, hardware(KEY_CAPS_LOCK, Direction::Up));
            &&& !plan.forward
            &&& plan.update == StateUpdate::LayerUp
            &&& plan.inject == releases(latch)
            &&& latch.virtual_ctrl_held ==> plan.inject.contains(
                synthetic(KEY_CTRL, Direction::Up),
            )
            &&& latch.virtual_shift_held ==> plan.inject.contains(
                synthetic(KEY_SHIFT, Direction::Up),
            )
            &&& step(latch, table, hardware(KEY_CAPS_LOCK, Direction::Up)) == Latch::idle()
            &&& latch.commit(plan.update, false) == Latch::idle()
        }),
{
    let up = hardware(KEY_CAPS_LOCK, Direction::Up);
    let plan = plan_for(latch, table, up);
    if latch.virtual_ctrl_held {
        assert(plan.inject[0] == synthetic(KEY_CTRL, Direction::Up));
    }
    if latch.virtual_shift_held {
        let last = plan.inject.len() - 1;
        assert(plan.inject[last] == synthetic(KEY_SHIFT, Direction::Up));
    }
}

/// A run that ends with the release of the layer key ends with nothing held.
pub proof fn lemma_run_ending_in_release_is_idle(
    latch: Latch,
    table: Map<KeyCode, Action>,
    events: Seq<KeyEvent>,
)
    ensures
        run_state(latch, table, events.push(hardware(KEY_CAPS_LOCK, Direction::Up)))
            == Latch::idle(),
{
    let all = events.push(hardware(KEY_CAPS_LOCK, Direction::Up));
    assert(all.drop_last() =~= events);
    lemma_layer_release_clears_modifiers(run_state(latch, table, events), table);
}

/// A key that always passes (Alt, with or without a side) goes on as it
/// came in every state: nothing is injected and the latch stays as it is.
pub proof fn lemma_pass_keys_pass_through(
    latch: Latch,
    table: Map<KeyCode, Action>,
    event: KeyEvent,
)
    requires
        is_pass_key(event.code),
    ensures
        plan_for(latch, table, event) == (Plan {
            forward: true,
            inject: Seq::empty(),
            update: StateUpdate::Unchanged,
        }),
        step(latch, table, event) == latch,
        delivered(latch, table, event) == seq![event],
{
}

/// Outside the layer every key but the layer key goes on as it came.
pub proof fn lemma_outside_layer_passes_through(
    latch: Latch,
    table: Map<KeyCode, Action>,
    event: KeyEvent,
)
    requires
        !latch.layer_held,
        !is_layer_key(event.code),
    ensures
        step(latch, table, event) == latch,
        delivered(latch, table, event) == seq![event],
{
}

/// A key without an entry in the table goes on as it came, inside the layer
/// as outside it.
pub proof fn lemma_unmapped_keys_pass_through(
    latch: Latch,
    table: Map<KeyCode, Action>,
    event: KeyEvent,
)
    requires
        !is_layer_key(event.code),
        !table.contains_key(event.code),
    ensures
        step(latch, table, event) == latch,
        delivered(latch, table, event) == seq![event],
{
}

/// A media key is a pulse: inside the layer its press is swallowed and gives
/// one press of the target, its release is swallowed and gives nothing, and
/// neither touches the latch.
pub proof fn lemma_media_keys_pulse(
    latch: Latch,
    table: Map<KeyCode, Action>,
    code: KeyCode,
    target: KeyCode,
)
    requires
        latch.layer_held,
        !is_layer_key(code),
        !is_pass_key(code),
        table.contains_key(code),
        table[code] == (Action::EmitMediaKey { target, fire_on_down_only: true }),
    ensures
        delivered(latch, table, hardware(code, Direction::Down)) == seq![
            synthetic(target, Direction::Down),
        ],
        delivered(latch, table, hardware(code, Direction::Up)) == Seq::<KeyEvent>::empty(),
        step(latch, table, hardware(code, Direction::Down)) == latch,
        step(latch, table, hardware(code, Direction::Up)) == latch,
{
}

/// A substituted key follows its source: inside the layer the press of the
/// source is swallowed and gives a press of the target, and the release a
/// release.
pub proof fn lemma_substituted_keys_follow(
    latch: Latch,
    table: Map<KeyCode, Action>,
    code: KeyCode,
    target: KeyCode,
    direction: Direction,
)
    requires
        latch.layer_held,
        !is_layer_key(code),
        !is_pass_key(code),
        table.contains_key(code),
        table[code] == (Action::EmitKey { target }),
    ensures
        delivered(latch, table, hardware(code, direction)) == seq![synthetic(target, direction)],
        step(latch, table, hardware(code, direction)) == latch,
{
}

/// The four events of a tap inside the layer: the layer key down, `code`
/// down and up, the layer key up.
pub open spec fn layered_tap(code: KeyCode) -> Seq<KeyEvent> {
    seq![
        hardware(KEY_CAPS_LOCK, Direction::Down),
        hardware(code, Direction::Down),
        hardware(code, Direction::Up),
        hardware(KEY_CAPS_LOCK, Direction::Up),
    ]
}

/// A substituted key tapped inside the layer, from the start: the rest of
/// the system sees the target go down and up and nothing else, and nothing is
/// held afterwards.
pub proof fn lemma_layered_tap_of_substituted_key(
    table: Map<KeyCode, Action>,
    code: KeyCode,
    target: KeyCode,
)
    requires
        !is_layer_key(code),
        !is_pass_key(code),
        table.contains_key(code),
        table[code] == (Action::EmitKey { target }),
    ensures
        run_output(Latch::idle(), table, layered_tap(code)) == seq![
            synthetic(target, Direction::Down),
            synthetic(target, Direction::Up),
        ],
        run_state(Latch::idle(), table, layered_tap(code)) == Latch::idle(),
{
    lemma_layered_tap_unfolds(table, code);
}

/// A key without an entry tapped inside the layer, from the start: the rest
/// of the system sees the key itself go down and up, and nothing is held
/// afterwards.
pub proof fn lemma_layered_tap_of_unmapped_key(table: Map<KeyCode, Action>, code: KeyCode)
    requires
        !is_layer_key(code),
        !table.contains_key(code),
    ensures
        run_output(Latch::idle(), table, layered_tap(code)) == seq![
            hardware(code, Direction::Down),
            hardware(code, Direction::Up),
        ],
        run_state(Latch::idle(), table, layered_tap(code)) == Latch::idle(),
{
    lemma_layered_tap_unfolds(table, code);
}

/// A tap inside the layer, step by step.
proof fn lemma_layered_tap_unfolds(table: Map<KeyCode, Action>, code: KeyCode)
    ensures
        ({
            let start = Latch::idle();
            let held = step(start, table, hardware(KEY_CAPS_LOCK, Direction::Down));
            let pressed = step(held, table, hardware(code, Direction::Down));
            let let_go = step(pressed, table, hardware(code, Direction::Up));
            &&& run_state(start, table, layered_tap(code)) == step(
                let_go,
                table,
                hardware(KEY_CAPS_LOCK, Direction::Up),
            )
            &&& run_output(start, table, layered_tap(code)) == delivered(
                start,
                table,
                hardware(KEY_CAPS_LOCK, Direction::Down),
            ) + delivered(held, table, hardware(code, Direction::Down)) + delivered(
                pressed,
                table,
                hardware(code, Direction::Up),
            ) + delivered(let_go, table, hardware(KEY_CAPS_LOCK, Direction::Up))
        }),
{
    let start = Latch::idle();
    let tap = layered_tap(code);
    let three = tap.drop_last();
    let two = three.drop_last();
    let one = two.drop_last();
    let none = one.drop_last();
    assert(none.len() == 0);
    assert(run_state(start, table, none) == start);
    assert(run_output(start, table, none) =~= Seq::<KeyEvent>::empty());
    assert(run_state(start, table, one) == step(start, table, one.last()));
    assert(run_output(start, table, one) =~= delivered(start, table, one.last()));
    assert(run_state(start, table, two) == step(run_state(start, table, one), table, two.last()));
    assert(run_output(start, table, two) == run_output(start, table, one) + delivered(
        run_state(start, table, one),
        table,
        two.last(),
    ));
    assert(run_state(start, table, three) == step(
        run_state(start, table, two),
        table,
        three.last(),
    ));
    assert(run_output(start, table, three) == run_output(start, table, two) + delivered(
        run_state(start, table, two),
        table,
        three.last(),
    ));
    assert(run_state(start, table, tap) == step(run_state(start, table, three), table, tap.last()));
    assert(run_output(start, table, tap) == run_output(start, table, three) + delivered(
        run_state(start, table, three),
        table,
        tap.last(),
    ));
}

} // verus!
