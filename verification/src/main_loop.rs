//! The main loop on a script: paint, take the next event, dispatch it, until
//! the application stops or the script ends.

use vstd::prelude::*;
use crate::app::{action_message, App, ViewModel};
use crate::input::{spec_event_operation, InputEvent, Operation};
use crate::layout::Rect;
use crate::scene::{laid_out_in, shows, Scene};

verus! {

/// How a run of the main loop on a script went.
#[derive(Clone, Debug, PartialEq, Eq)]
pub struct Replay {
    /// The application as the loop left it.
    pub app: App,
    /// The number of events that were dispatched.
    pub dispatched: usize,
    /// The lines that the action wrote, in order.
    pub messages: Vec<String>,
    /// The frames that were painted, in order: one before each event that
    /// was dispatched, and one more where the script ran out first.
    pub frames: Vec<Scene>,
}

/// While the loop is running, one more event at the end of the script is one
/// more event dispatched.
pub proof fn lemma_run_one_more(vm: ViewModel, events: Seq<InputEvent>, event: InputEvent)
    requires
        vm.run(events).running,
    ensures
        vm.run(events.push(event)) == vm.run(events).dispatch(event),
        vm.dispatched(events) == events.len(),
        vm.dispatched(events.push(event)) == events.len() + 1,
        vm.triggered(events.push(event)) == vm.triggered(events) + (if spec_event_operation(event)
            == Some(Operation::TriggerAction) {
            1nat
        } else {
            0nat
        }),
    decreases events.len(),
{
    let longer = events.push(event);
    assert(vm.running);
    if events.len() == 0 {
        let after = vm.dispatch(event);
        let none = Seq::<InputEvent>::empty();
        assert(longer[0] == event);
        assert(longer.skip(1) =~= none);
        assert(after.run(none) == after);
        assert(after.dispatched(none) == 0);
        assert(after.triggered(none) == 0);
    } else {
        assert(longer[0] == events[0]);
        assert(longer.skip(1) =~= events.skip(1).push(event));
        lemma_run_one_more(vm.dispatch(events[0]), events.skip(1), event);
    }
}

impl App {
    /// Runs the main loop on the events of a script, painting in `area`.
    ///
    /// Each turn of the loop paints the frame of the state and then dispatches
    /// the next event. The loop ends when the application has stopped, or,
    /// after one last frame, when no event is left.
    pub fn run(self, area: Rect, events: &Vec<InputEvent>) -> (replay: Replay)
        ensures
            replay.app@ == self@.run(events@),
            replay.dispatched == self@.dispatched(events@),
            !replay.app@.running || replay.dispatched == events@.len(),
            replay.messages@.len() == self@.triggered(events@),
            forall|i: int|
                0 <= i < replay.messages@.len() ==> (#[trigger] replay.messages@[i])@
                    == action_message(),
            replay.frames@.len() == replay.dispatched + (if replay.app@.running {
                1nat
            } else {
                0nat
            }),
            forall|i: int|
                0 <= i < replay.frames@.len() ==> shows(
                    (#[trigger] replay.frames@[i])@,
                    self@.run(events@.take(i)),
                ) && laid_out_in(replay.frames@[i]@, area),
            self@.wf() ==> replay.app@.wf(),
    {
        let ghost start = self@;
        let mut app = self;
        let mut messages: Vec<String> = Vec::new();
        let mut frames: Vec<Scene> = Vec::new();
        let mut next: usize = 0;
        assert(events@.skip(0) =~= events@);
        assert(events@.take(0) =~= Seq::<InputEvent>::empty());
        while app.is_running()
            invariant_except_break
                frames@.len() == next,
            invariant
                next <= events@.len(),
                app@ == start.run(events@.take(next as int)),
                start.run(events@) == app@.run(events@.skip(next as int)),
                start.dispatched(events@) == next + app@.dispatched(events@.skip(next as int)),
                start.triggered(events@) == messages@.len() + app@.triggered(
                    events@.skip(next as int),
                ),
                forall|i: int|
                    0 <= i < messages@.len() ==> (#[trigger] messages@[i])@ == action_message(),
                forall|i: int|
                    0 <= i < frames@.len() ==> shows(
                        (#[trigger] frames@[i])@,
                        start.run(events@.take(i)),
                    ) && laid_out_in(frames@[i]@, area),
                start.wf() ==> app@.wf(),
            ensures
                !app@.running || next == events@.len(),
                frames@.len() == next + (if app@.running {
                    1nat
                } else {
                    0nat
                }),
            decreases events@.len() - next,
        {
            frames.push(app.draw(area));
            if next >= events.len() {
                break ;
            }
            let ghost rest = events@.skip(next as int);
            proof {
                assert(rest[0] == events@[next as int]);
                assert(rest.skip(1) =~= events@.skip(next + 1));
                assert(events@.take(next as int).push(events@[next as int]) =~= events@.take(
                    next + 1,
                ));
                lemma_run_one_more(start, events@.take(next as int), events@[next as int]);
            }
            let emitted = app.handle_event(events[next]);
            if let Some(message) = emitted {
                messages.push(message);
            }
            next = next + 1;
        }
        Replay { app, dispatched: next, messages, frames }
    }
}

} // verus!
