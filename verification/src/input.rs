//! Input events and what they do to the state.
//!
//! An event is first decoded into a command, and the command is then applied
//! to the state. Only key presses carry a command; every other event, and
//! every key without a binding, leaves the state alone.

use crate::state::{App, AppView};
use vstd::prelude::*;

verus! {

/// The key of a key event, as far as the bindings tell keys apart.
#[derive(Clone, Copy, Debug, PartialEq, Eq, Structural)]
pub enum KeyCode {
    /// A key that produces a character.
    Char(char),
    /// The enter key.
    Enter,
    /// Any other key.
    Other,
}

/// What happened to the key.
#[derive(Clone, Copy, Debug, PartialEq, Eq, Structural)]
pub enum KeyEventKind {
    /// The key went down.
    Press,
    /// The key is held down and repeats.
    Repeat,
    /// The key came up.
    Release,
}

/// One event of the keyboard.
#[derive(Clone, Copy, Debug, PartialEq, Eq, Structural)]
pub struct KeyEvent {
    pub code: KeyCode,
    pub kind: KeyEventKind,
}

/// One event of the terminal.
#[derive(Clone, Copy, Debug, PartialEq, Eq, Structural)]
pub enum Event {
    /// A key event.
    Key(KeyEvent),
    /// Anything else: focus, mouse, paste, resize.
    Other,
}

/// What the user asks for with one event.
#[derive(Clone, Copy, Debug, PartialEq, Eq, Structural)]
pub enum Command {
    /// Leave the dashboard.
    Quit,
    /// Move the cursor to the next branch.
    CursorNext,
    /// Move the cursor to the previous branch.
    CursorPrevious,
    /// Confirm the branch under the cursor.
    ConfirmSelection,
    /// Nothing.
    Ignore,
}

/// The command bound to a key: `q` quits, `j` and `k` move the cursor down
/// and up, enter confirms, and no other key does anything.
pub open spec fn key_command(code: KeyCode) -> Command {
    match code {
        KeyCode::Char(c) => if c == 'q' {
            Command::Quit
        } else if c == 'j' {
            Command::CursorNext
        } else if c == 'k' {
            Command::CursorPrevious
        } else {
            Command::Ignore
        },
        KeyCode::Enter => Command::ConfirmSelection,
        KeyCode::Other => Command::Ignore,
    }
}

/// The command an event carries: that of its key if the event is a key
/// press, none otherwise.
pub open spec fn event_command(event: Event) -> Command {
    match event {
        Event::Key(key_event) => if key_event.kind == KeyEventKind::Press {
            key_command(key_event.code)
        } else {
            Command::Ignore
        },
        Event::Other => Command::Ignore,
    }
}

impl AppView {
    /// The state after `command` was carried out.
    pub open spec fn apply(self, command: Command) -> AppView {
        match command {
            Command::Quit => self.exit(),
            Command::CursorNext => self.move_cursor_next(),
            Command::CursorPrevious => self.move_cursor_previous(),
            Command::ConfirmSelection => self.confirm_selection(),
            Command::Ignore => self,
        }
    }

    /// The state after the key of `key_event` was handled.
    pub open spec fn handle_key_event(self, key_event: KeyEvent) -> AppView {
        self.apply(key_command(key_event.code))
    }

    /// The state after `event` was handled.
    pub open spec fn handle_events(self, event: Event) -> AppView {
        self.apply(event_command(event))
    }
}

/// Decodes a key into the command bound to it.
pub fn decode_key(code: KeyCode) -> (command: Command)
    ensures
        command == key_command(code),
{
    match code {
        KeyCode::Char(c) => {
            if c == 'q' {
                Command::Quit
            } else if c == 'j' {
                Command::CursorNext
            } else if c == 'k' {
                Command::CursorPrevious
            } else {
                Command::Ignore
            }
        },
        KeyCode::Enter => Command::ConfirmSelection,
        KeyCode::Other => Command::Ignore,
    }
}

impl App {
    /// Carries out one command.
    pub fn apply(&mut self, command: Command)
        ensures
            final(self)@ == old(self)@.apply(command),
            final(self)@.wf(),
            command == Command::Ignore ==> final(self)@ == old(self)@,
            command == Command::Quit ==> final(self)@.exit_requested,
            old(self)@.exit_requested ==> final(self)@.exit_requested,
            command != Command::ConfirmSelection ==> final(self)@.selected_index == old(
                self,
            )@.selected_index,
    {
        proof {
            use_type_invariant(&*self);
        }
        match command {
            Command::Quit => self.exit(),
            Command::CursorNext => self.move_cursor_next(),
            Command::CursorPrevious => self.move_cursor_previous(),
            Command::ConfirmSelection => self.confirm_selection(),
            Command::Ignore => {},
        }
    }

    /// Handles the key of a key event, whatever happened to the key: decodes
    /// it and carries out its command.
    pub fn handle_key_event(&mut self, key_event: KeyEvent)
        ensures
            final(self)@ == old(self)@.handle_key_event(key_event),
            final(self)@.wf(),
            old(self)@.exit_requested ==> final(self)@.exit_requested,
    {
        self.apply(decode_key(key_event.code))
    }

    /// Handles one event of the terminal. A key press is handled by its key;
    /// a key that repeats or comes up, and any event that is not a key
    /// event, is dropped without a trace.
    pub fn handle_events(&mut self, event: Event)
        ensures
            final(self)@ == old(self)@.handle_events(event),
            final(self)@.wf(),
            event_command(event) == Command::Ignore ==> final(self)@ == old(self)@,
            old(self)@.exit_requested ==> final(self)@.exit_requested,
    {
        proof {
            use_type_invariant(&*self);
        }
        match event {
            Event::Key(key_event) => {
                match key_event.kind {
                    KeyEventKind::Press => self.handle_key_event(key_event),
                    _ => {},
                }
            },
            Event::Other => {},
        }
    }
}

} // verus!
