//! The application state and the transitions that key events cause.

use vstd::prelude::*;
use crate::input::{InputEvent, KeyEvent, KeyEventKind, Operation};
use crate::input::{key_operation, spec_event_operation, spec_key_operation};

verus! {

/// The mathematical model of the application: the labels of the commands,
/// the index of the selected one, and whether the main loop goes on.
pub struct ViewModel {
    pub items: Seq<Seq<char>>,
    pub selected: Option<nat>,
    pub running: bool,
}

impl ViewModel {
    /// A selection, if there is one, points at one of the items.
    pub open spec fn wf(self) -> bool {
        self.selected matches Some(i) ==> i < self.items.len()
    }

    /// Moves the selection one item up; at the first item, or with nothing
    /// selected, nothing changes.
    pub open spec fn select_previous(self) -> ViewModel {
        match self.selected {
            Some(i) if i > 0 => ViewModel { selected: Some((i - 1) as nat), ..self },
            _ => self,
        }
    }

    /// Moves the selection one item down; at the last item, or with nothing
    /// selected, nothing changes.
    pub open spec fn select_next(self) -> ViewModel {
        match self.selected {
            Some(i) if i + 1 < self.items.len() => ViewModel { selected: Some(i + 1), ..self },
            _ => self,
        }
    }

    /// Stops the main loop.
    pub open spec fn quit(self) -> ViewModel {
        ViewModel { running: false, ..self }
    }

    /// The state after one operation. Triggering the action leaves the state
    /// as it is.
    pub open spec fn apply(self, op: Operation) -> ViewModel {
        match op {
            Operation::Quit => self.quit(),
            Operation::TriggerAction => self,
            Operation::SelectPrevious => self.select_previous(),
            Operation::SelectNext => self.select_next(),
        }
    }

    /// The state after what `op` holds, if it holds anything.
    pub open spec fn apply_if(self, op: Option<Operation>) -> ViewModel {
        match op {
            Some(op) => self.apply(op),
            None => self,
        }
    }

    /// The state after the operations of `ops`, carried out in order.
    pub open spec fn apply_all(self, ops: Seq<Operation>) -> ViewModel
        decreases ops.len(),
    {
        if ops.len() == 0 {
            self
        } else {
            self.apply_all(ops.drop_last()).apply(ops.last())
        }
    }

    /// The state after one event has been dispatched.
    pub open spec fn dispatch(self, event: InputEvent) -> ViewModel {
        self.apply_if(spec_event_operation(event))
    }

    /// The number of events that the main loop takes from `events`: it stops
    /// before the first event that finds the loop stopped.
    pub open spec fn dispatched(self, events: Seq<InputEvent>) -> nat
        decreases events.len(),
    {
        if !self.running || events.len() == 0 {
            0
        } else {
            1 + self.dispatch(events[0]).dispatched(events.skip(1))
        }
    }

    /// The state in which the main loop ends when it is fed `events`.
    pub open spec fn run(self, events: Seq<InputEvent>) -> ViewModel
        decreases events.len(),
    {
        if !self.running || events.len() == 0 {
            self
        } else {
            self.dispatch(events[0]).run(events.skip(1))
        }
    }

    /// How often the main loop triggers the action when it is fed `events`.
    pub open spec fn triggered(self, events: Seq<InputEvent>) -> nat
        decreases events.len(),
    {
        if !self.running || events.len() == 0 {
            0
        } else {
            let now: nat = if spec_event_operation(events[0]) == Some(Operation::TriggerAction) {
                1
            } else {
                0
            };
            now + self.dispatch(events[0]).triggered(events.skip(1))
        }
    }
}

/// Whether an operation makes the application write its message.
pub open spec fn emits(op: Option<Operation>) -> bool {
    op == Some(Operation::TriggerAction)
}

/// What the application hands back for an operation: its message where the
/// operation is the action, nothing otherwise.
pub open spec fn emitted_for(op: Option<Operation>, emitted: Option<String>) -> bool {
    &&& emitted is Some <==> emits(op)
    &&& emitted matches Some(message) ==> message@ == action_message()
}

/// The labels of the commands that the tool offers.
pub open spec fn command_labels() -> Seq<Seq<char>> {
    seq!["Fix apt/dpkg"@, "Item 2"@, "Item 3"@]
}

/// The line that the action writes.
pub open spec fn action_message() -> Seq<char> {
    "Hello World"@
}

/// An index as a natural number.
pub open spec fn index_of(selected: Option<usize>) -> Option<nat> {
    match selected {
        Some(i) => Some(i as nat),
        None => None,
    }
}

/// The labels of `items` as sequences of characters.
pub open spec fn labels_of(items: Seq<String>) -> Seq<Seq<char>> {
    items.map_values(|s: String| s@)
}

/// The application: the commands, the selection and the running flag.
#[derive(Clone, Debug, PartialEq, Eq)]
pub struct App {
    items: Vec<String>,
    selected: Option<usize>,
    running: bool,
}

impl View for App {
    type V = ViewModel;

    closed spec fn view(&self) -> ViewModel {
        ViewModel {
            items: labels_of(self.items@),
            selected: index_of(self.selected),
            running: self.running,
        }
    }
}

impl App {
    /// The application as it starts: the three commands, the first of them
    /// selected, and the loop running.
    pub fn new() -> (app: App)
        ensures
            app@.items == command_labels(),
            app@.selected == Some(0nat),
            app@.running,
            app@.wf(),
    {
        let mut items: Vec<String> = Vec::new();
        items.push("Fix apt/dpkg".to_owned());
        items.push("Item 2".to_owned());
        items.push("Item 3".to_owned());
        assert(labels_of(items@) =~= command_labels());
        App { items, selected: Some(0), running: true }
    }

    /// The application with the commands `items`: the first of them selected,
    /// or none where there is none, and the loop running.
    pub fn with_items(items: Vec<String>) -> (app: App)
        ensures
            app@.items == labels_of(items@),
            app@.selected == (if items@.len() > 0 { Some(0nat) } else { None }),
            app@.running,
            app@.wf(),
    {
        let selected: Option<usize> = if items.len() > 0 { Some(0) } else { None };
        App { items, selected, running: true }
    }

    /// The index of the selected command.
    pub fn selected(&self) -> (selected: Option<usize>)
        ensures
            index_of(selected) == self@.selected,
    {
        self.selected
    }

    /// Whether the main loop goes on.
    pub fn is_running(&self) -> (running: bool)
        ensures
            running == self@.running,
    {
        self.running
    }

    /// The labels of the commands.
    pub fn items(&self) -> (items: &Vec<String>)
        ensures
            labels_of(items@) == self@.items,
    {
        &self.items
    }

    /// Moves the selection one command up and stops at the first.
    pub fn select_previous(&mut self)
        ensures
            final(self)@ == old(self)@.select_previous(),
            old(self)@.selected == Some(0nat) ==> final(self)@ == old(self)@,
            old(self)@.wf() ==> final(self)@.wf(),
    {
        if let Some(i) = self.selected {
            if i > 0 {
                self.selected = Some(i - 1);
            }
        }
    }

    /// Moves the selection one command down and stops at the last.
    pub fn select_next(&mut self)
        ensures
            final(self)@ == old(self)@.select_next(),
            old(self)@.selected == Some((old(self)@.items.len() - 1) as nat)
                ==> final(self)@ == old(self)@,
            old(self)@.wf() ==> final(self)@.wf(),
    {
        let count: usize = self.items.len();
        assert(self@.items.len() == count);
        if let Some(i) = self.selected {
            if i < usize::MAX && i + 1 < count {
                self.selected = Some(i + 1);
            }
        }
    }

    /// Stops the main loop.
    pub fn quit(&mut self)
        ensures
            final(self)@ == old(self)@.quit(),
            !final(self)@.running,
    {
        self.running = false;
    }

    /// The action behind `e`: it hands back the line to write beside the
    /// screen and leaves the state alone.
    pub fn echo(&self) -> (message: String)
        ensures
            message@ == action_message(),
    {
        "Hello World".to_owned()
    }

    /// Carries out one operation. The result is the line to write beside the
    /// screen, where the operation is the action.
    pub fn apply(&mut self, op: Operation) -> (emitted: Option<String>)
        ensures
            final(self)@ == old(self)@.apply(op),
            emitted_for(Some(op), emitted),
            old(self)@.wf() ==> final(self)@.wf(),
    {
        match op {
            Operation::Quit => {
                self.quit();
                None
            },
            Operation::TriggerAction => Some(self.echo()),
            Operation::SelectPrevious => {
                self.select_previous();
                None
            },
            Operation::SelectNext => {
                self.select_next();
                None
            },
        }
    }

    /// Handles a key: carries out the operation bound to it, if any. The kind
    /// of the key event is not looked at.
    pub fn on_key_event(&mut self, key: KeyEvent) -> (emitted: Option<String>)
        ensures
            final(self)@ == old(self)@.apply_if(spec_key_operation(key.code)),
            emitted_for(spec_key_operation(key.code), emitted),
            old(self)@.wf() ==> final(self)@.wf(),
    {
        match key_operation(key) {
            Some(op) => self.apply(op),
            None => None,
        }
    }

    /// Dispatches one event: a key press goes to the key bindings, every
    /// other event leaves the state as it is.
    pub fn handle_event(&mut self, event: InputEvent) -> (emitted: Option<String>)
        ensures
            final(self)@ == old(self)@.dispatch(event),
            emitted_for(spec_event_operation(event), emitted),
            spec_event_operation(event) is None ==> final(self)@ == old(self)@,
            old(self)@.wf() ==> final(self)@.wf(),
            !old(self)@.running ==> !final(self)@.running,
    {
        match event {
            InputEvent::Key(key) => match key.kind {
                KeyEventKind::Press => self.on_key_event(key),
                _ => None,
            },
            _ => None,
        }
    }
}

} // verus!
