//! Input events as the application sees them.
//!
//! The terminal driver produces events of its own types; the program converts
//! them to the plain values below before handing them to the application.

use vstd::prelude::*;

verus! {

/// The key of a key event.
#[derive(Clone, Copy, Debug, PartialEq, Eq, Structural)]
pub enum KeyCode {
    Backspace,
    Enter,
    Left,
    Right,
    Up,
    Down,
    Home,
    End,
    PageUp,
    PageDown,
    Tab,
    BackTab,
    Delete,
    Insert,
    /// A function key, by its number.
    F(u8),
    /// A character key.
    Char(char),
    Null,
    Esc,
    /// Any key that has no variant of its own.
    Other,
}

/// Whether a key went down, is held, or came up.
#[derive(Clone, Copy, Debug, PartialEq, Eq, Structural)]
pub enum KeyEventKind {
    Press,
    Repeat,
    Release,
}

/// The modifier keys held during a key event.
#[derive(Clone, Copy, Debug, PartialEq, Eq, Structural)]
pub struct KeyModifiers {
    pub shift: bool,
    pub control: bool,
    pub alt: bool,
    pub super_key: bool,
    pub hyper: bool,
    pub meta: bool,
}

/// A key event: the key, the modifiers held, and the kind of event.
#[derive(Clone, Copy, Debug, PartialEq, Eq, Structural)]
pub struct KeyEvent {
    pub code: KeyCode,
    pub modifiers: KeyModifiers,
    pub kind: KeyEventKind,
}

/// One event read from the terminal.
#[derive(Clone, Copy, Debug, PartialEq, Eq, Structural)]
pub enum InputEvent {
    /// A key event of any kind.
    Key(KeyEvent),
    /// The terminal was resized to the given number of columns and rows.
    Resize(u16, u16),
    /// Anything else: mouse, focus, paste.
    Other,
}

/// What a key asks the application to do.
#[derive(Clone, Copy, Debug, PartialEq, Eq, Structural)]
pub enum Operation {
    Quit,
    TriggerAction,
    SelectPrevious,
    SelectNext,
}

impl KeyModifiers {
    /// No modifier held, as a value of the model.
    pub open spec fn spec_none() -> KeyModifiers {
        KeyModifiers {
            shift: false,
            control: false,
            alt: false,
            super_key: false,
            hyper: false,
            meta: false,
        }
    }

    /// No modifier held.
    pub fn none() -> (m: KeyModifiers)
        ensures
            m == KeyModifiers::spec_none(),
    {
        KeyModifiers {
            shift: false,
            control: false,
            alt: false,
            super_key: false,
            hyper: false,
            meta: false,
        }
    }
}

impl KeyEvent {
    /// A press of `code` with no modifier held.
    pub fn press(code: KeyCode) -> (key: KeyEvent)
        ensures
            key == (KeyEvent {
                code,
                modifiers: KeyModifiers::spec_none(),
                kind: KeyEventKind::Press,
            }),
    {
        KeyEvent { code, modifiers: KeyModifiers::none(), kind: KeyEventKind::Press }
    }
}

/// The key bindings: `q` quits, `e` triggers the action, the arrows move the
/// selection. Modifiers and the kind of the event play no part.
pub open spec fn spec_key_operation(code: KeyCode) -> Option<Operation> {
    match code {
        KeyCode::Char(c) => if c == 'q' {
            Some(Operation::Quit)
        } else if c == 'e' {
            Some(Operation::TriggerAction)
        } else {
            None
        },
        KeyCode::Up => Some(Operation::SelectPrevious),
        KeyCode::Down => Some(Operation::SelectNext),
        _ => None,
    }
}

/// The operation that an event stands for: that of its key if it is a key
/// press, none for any other event.
pub open spec fn spec_event_operation(event: InputEvent) -> Option<Operation> {
    match event {
        InputEvent::Key(key) => if key.kind == KeyEventKind::Press {
            spec_key_operation(key.code)
        } else {
            None
        },
        _ => None,
    }
}

/// Looks `key` up in the key bindings.
pub fn key_operation(key: KeyEvent) -> (op: Option<Operation>)
    ensures
        op == spec_key_operation(key.code),
{
    match key.code {
        KeyCode::Char('q') => Some(Operation::Quit),
        KeyCode::Char('e') => Some(Operation::TriggerAction),
        KeyCode::Up => Some(Operation::SelectPrevious),
        KeyCode::Down => Some(Operation::SelectNext),
        _ => None,
    }
}

/// The operation that `event` stands for, if any.
pub fn event_operation(event: InputEvent) -> (op: Option<Operation>)
    ensures
        op == spec_event_operation(event),
{
    match event {
        InputEvent::Key(key) => match key.kind {
            KeyEventKind::Press => key_operation(key),
            _ => None,
        },
        _ => None,
    }
}

} // verus!
