//! What holds of the state machine whatever keys arrive.

use vstd::prelude::*;
use crate::app::{emits, ViewModel};
use crate::input::{spec_event_operation, InputEvent, KeyEventKind, Operation};

verus! {

/// Whether `op` moves the selection.
pub open spec fn is_move(op: Operation) -> bool {
    op == Operation::SelectPrevious || op == Operation::SelectNext
}

/// The distance between two indices.
pub open spec fn distance(a: nat, b: nat) -> nat {
    if a <= b {
        (b - a) as nat
    } else {
        (a - b) as nat
    }
}

/// One move changes the index by one step at most, and only in its own
/// direction: up never lands below, down never lands above.
pub proof fn lemma_move_is_one_step(vm: ViewModel, i: nat)
    requires
        vm.wf(),
        vm.selected == Some(i),
    ensures
        vm.select_previous().selected == Some(if i > 0 { (i - 1) as nat } else { i }),
        vm.select_next().selected == Some(if i + 1 < vm.items.len() { i + 1 } else { i }),
        vm.select_previous().wf(),
        vm.select_next().wf(),
{
}

/// Whatever sequence of moves is made, the selection stays on one of the
/// items: it never leaves the list at either end and so never wraps round.
/// The items stay as they are, a selection is neither made nor lost, and the
/// index is no further from where it began than the number of moves.
pub proof fn lemma_selection_stays_in_range(vm: ViewModel, moves: Seq<Operation>)
    requires
        vm.wf(),
        forall|k: int| 0 <= k < moves.len() ==> is_move(#[trigger] moves[k]),
    ensures
        vm.apply_all(moves).wf(),
        vm.apply_all(moves).items == vm.items,
        vm.apply_all(moves).running == vm.running,
        vm.selected is None ==> vm.apply_all(moves).selected is None,
        vm.selected matches Some(i) ==> (vm.apply_all(moves).selected matches Some(j) && j
            < vm.items.len() && distance(i, j) <= moves.len()),
    decreases moves.len(),
{
    if moves.len() > 0 {
        let before = vm.apply_all(moves.drop_last());
        lemma_selection_stays_in_range(vm, moves.drop_last());
        assert(is_move(moves[moves.len() - 1]));
        if let Some(j) = before.selected {
            lemma_move_is_one_step(before, j);
        }
    }
}

/// No event takes the selection off the list.
pub proof fn lemma_dispatch_keeps_selection_in_range(vm: ViewModel, event: InputEvent)
    requires
        vm.wf(),
    ensures
        vm.dispatch(event).wf(),
        vm.dispatch(event).items == vm.items,
{
}

/// However long the main loop runs and whatever it is fed, the selection
/// stays on the list and the items stay as they are.
pub proof fn lemma_run_keeps_selection_in_range(vm: ViewModel, events: Seq<InputEvent>)
    requires
        vm.wf(),
    ensures
        vm.run(events).wf(),
        vm.run(events).items == vm.items,
        vm.dispatched(events) <= events.len(),
        vm.triggered(events) <= vm.dispatched(events),
    decreases events.len(),
{
    if vm.running && events.len() > 0 {
        lemma_dispatch_keeps_selection_in_range(vm, events[0]);
        lemma_run_keeps_selection_in_range(vm.dispatch(events[0]), events.skip(1));
    }
}

/// Moving up from the first item changes nothing, and neither does moving
/// down from the last.
pub proof fn lemma_moves_stop_at_the_ends(vm: ViewModel)
    ensures
        vm.selected == Some(0nat) ==> vm.select_previous() == vm,
        vm.items.len() > 0 && vm.selected == Some((vm.items.len() - 1) as nat)
            ==> vm.select_next() == vm,
        vm.selected is None ==> vm.select_previous() == vm && vm.select_next() == vm,
{
}

/// Quitting twice is quitting once: the loop is stopped and nothing else has
/// changed.
pub proof fn lemma_quit_is_idempotent(vm: ViewModel)
    ensures
        !vm.quit().running,
        vm.quit().quit() == vm.quit(),
        vm.quit().items == vm.items,
        vm.quit().selected == vm.selected,
{
}

/// No operation starts a stopped loop again.
pub proof fn lemma_stopped_stays_stopped(vm: ViewModel, ops: Seq<Operation>)
    requires
        !vm.running,
    ensures
        !vm.apply_all(ops).running,
    decreases ops.len(),
{
    if ops.len() > 0 {
        lemma_stopped_stays_stopped(vm, ops.drop_last());
    }
}

/// No event starts a stopped loop again.
pub proof fn lemma_event_never_restarts(vm: ViewModel, event: InputEvent)
    requires
        !vm.running,
    ensures
        !vm.dispatch(event).running,
{
}

/// Once the loop is stopped it dispatches nothing more: whatever events
/// follow, the state stays as quitting left it.
pub proof fn lemma_nothing_is_dispatched_after_quit(vm: ViewModel, events: Seq<InputEvent>)
    ensures
        vm.quit().run(events) == vm.quit(),
        vm.quit().dispatched(events) == 0,
        vm.quit().triggered(events) == 0,
{
}

/// A run of the loop that meets a press of `q` ends there: the events behind
/// it play no part.
pub proof fn lemma_run_ends_at_quit(
    vm: ViewModel,
    before: Seq<InputEvent>,
    quit: InputEvent,
    after: Seq<InputEvent>,
)
    requires
        spec_event_operation(quit) == Some(Operation::Quit),
    ensures
        vm.run(before + seq![quit] + after) == vm.run(before + seq![quit]),
        !vm.run(before + seq![quit] + after).running,
        vm.dispatched(before + seq![quit] + after) == vm.dispatched(before + seq![quit]),
    decreases before.len(),
{
    let short = before + seq![quit];
    let long = before + seq![quit] + after;
    if !vm.running {
    } else if before.len() == 0 {
        assert(short[0] == quit && long[0] == quit);
        lemma_nothing_is_dispatched_after_quit(vm, long.skip(1));
        lemma_nothing_is_dispatched_after_quit(vm, short.skip(1));
    } else {
        assert(short[0] == before[0] && long[0] == before[0]);
        assert(short.skip(1) =~= before.skip(1) + seq![quit]);
        assert(long.skip(1) =~= before.skip(1) + seq![quit] + after);
        lemma_run_ends_at_quit(vm.dispatch(before[0]), before.skip(1), quit, after);
    }
}

/// Only a key press is dispatched. A key that is held or released, a resize
/// and every other event leave the state as it is and write nothing,
/// whatever key they name.
pub proof fn lemma_only_presses_are_dispatched(vm: ViewModel, event: InputEvent)
    requires
        !(event matches InputEvent::Key(key) && key.kind == KeyEventKind::Press),
    ensures
        spec_event_operation(event) is None,
        vm.dispatch(event) == vm,
        !emits(spec_event_operation(event)),
{
}

/// The action leaves the state as it is.
pub proof fn lemma_action_keeps_state(vm: ViewModel)
    ensures
        vm.apply(Operation::TriggerAction) == vm,
{
}

} // verus!
