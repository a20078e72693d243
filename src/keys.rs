//! Key bindings: which message a key press sends in each mode.

use vstd::prelude::*;
use crate::app::{AddingField, Message, Mode};

verus! {

/// A key, as far as the bindings tell keys apart.
#[derive(Clone, Copy, Debug, PartialEq, Eq, Structural)]
pub enum Key {
    Char(char),
    Enter,
    Esc,
    Tab,
    BackTab,
    Up,
    Down,
    Home,
    End,
    /// Any other key.
    Other,
}

/// A key press with the state of the Control modifier.
#[derive(Clone, Copy, Debug, PartialEq, Eq, Structural)]
pub struct KeyPress {
    pub key: Key,
    pub ctrl: bool,
}

/// What a key press leads to.
#[derive(Clone, Copy, Debug, PartialEq, Eq, Structural)]
pub enum KeyOutcome {
    /// The message goes to the state machine.
    Send(Message),
    /// The key goes to the form's active text field.
    Forward,
    /// The key is not bound.
    Ignore,
}

/// The bindings while browsing.
pub open spec fn normal_binding(k: Key) -> Option<Message> {
    match k {
        Key::Char('q') | Key::Esc => Some(Message::Quit),
        Key::Char('j') | Key::Down => Some(Message::MoveDown),
        Key::Char('k') | Key::Up => Some(Message::MoveUp),
        Key::Char('g') | Key::Home => Some(Message::MoveToTop),
        Key::Char('G') | Key::End => Some(Message::MoveToBottom),
        Key::Char('a') => Some(Message::StartAdding),
        Key::Char('d') => Some(Message::StartDelete),
        Key::Char('y') => Some(Message::CopyToClipboard),
        Key::Char('x') | Key::Enter => Some(Message::ExecuteCommand),
        _ => None,
    }
}

/// The bindings in the add form; unbound keys go to the active field.
pub open spec fn adding_binding(k: KeyPress, field: AddingField) -> KeyOutcome {
    match k.key {
        Key::Esc => KeyOutcome::Send(Message::CancelAdding),
        Key::Char('s') if k.ctrl => KeyOutcome::Send(Message::ConfirmAdd),
        Key::Tab => KeyOutcome::Send(Message::NextField),
        Key::BackTab => KeyOutcome::Send(Message::PrevField),
        Key::Enter => if field == AddingField::Tags {
            KeyOutcome::Send(Message::ConfirmAdd)
        } else {
            KeyOutcome::Send(Message::NextField)
        },
        _ => KeyOutcome::Forward,
    }
}

/// The bindings while asking to confirm a deletion.
pub open spec fn confirm_binding(k: Key) -> Option<Message> {
    match k {
        Key::Char('y') | Key::Char('Y') => Some(Message::ConfirmDelete),
        Key::Char('n') | Key::Char('N') | Key::Esc => Some(Message::CancelDelete),
        _ => None,
    }
}

/// The outcome of a key press in a mode.
pub open spec fn key_outcome(mode: Mode, k: KeyPress) -> KeyOutcome {
    match mode {
        Mode::Normal => match normal_binding(k.key) {
            Some(m) => KeyOutcome::Send(m),
            None => KeyOutcome::Ignore,
        },
        Mode::Adding(f) => adding_binding(k, f),
        Mode::ConfirmDelete => match confirm_binding(k.key) {
            Some(m) => KeyOutcome::Send(m),
            None => KeyOutcome::Ignore,
        },
    }
}

/// The message a key sends while browsing, if it is bound.
pub fn handle_normal_mode(key: KeyPress) -> (r: Option<Message>)
    ensures
        r == normal_binding(key.key),
{
    match key.key {
        Key::Char('q') | Key::Esc => Some(Message::Quit),
        Key::Char('j') | Key::Down => Some(Message::MoveDown),
        Key::Char('k') | Key::Up => Some(Message::MoveUp),
        Key::Char('g') | Key::Home => Some(Message::MoveToTop),
        Key::Char('G') | Key::End => Some(Message::MoveToBottom),
        Key::Char('a') => Some(Message::StartAdding),
        Key::Char('d') => Some(Message::StartDelete),
        Key::Char('y') => Some(Message::CopyToClipboard),
        Key::Char('x') | Key::Enter => Some(Message::ExecuteCommand),
        _ => None,
    }
}

/// What a key does in the add form with the given active field.
pub fn handle_adding_mode(key: KeyPress, field: AddingField) -> (r: KeyOutcome)
    ensures
        r == adding_binding(key, field),
{
    match key.key {
        Key::Esc => KeyOutcome::Send(Message::CancelAdding),
        Key::Char('s') if key.ctrl => KeyOutcome::Send(Message::ConfirmAdd),
        Key::Tab => KeyOutcome::Send(Message::NextField),
        Key::BackTab => KeyOutcome::Send(Message::PrevField),
        Key::Enter => {
            if field == AddingField::Tags {
                KeyOutcome::Send(Message::ConfirmAdd)
            } else {
                KeyOutcome::Send(Message::NextField)
            }
        },
        _ => KeyOutcome::Forward,
    }
}

/// The message a key sends while confirming a deletion, if it is bound.
pub fn handle_confirm_delete_mode(key: KeyPress) -> (r: Option<Message>)
    ensures
        r == confirm_binding(key.key),
{
    match key.key {
        Key::Char('y') | Key::Char('Y') => Some(Message::ConfirmDelete),
        Key::Char('n') | Key::Char('N') | Key::Esc => Some(Message::CancelDelete),
        _ => None,
    }
}

/// What a key press leads to in the given mode.
pub fn handle_key_event(mode: Mode, key: KeyPress) -> (r: KeyOutcome)
    ensures
        r == key_outcome(mode, key),
{
    match mode {
        Mode::Normal => match handle_normal_mode(key) {
            Some(m) => KeyOutcome::Send(m),
            None => KeyOutcome::Ignore,
        },
        Mode::Adding(field) => handle_adding_mode(key, field),
        Mode::ConfirmDelete => match handle_confirm_delete_mode(key) {
            Some(m) => KeyOutcome::Send(m),
            None => KeyOutcome::Ignore,
        },
    }
}

} // verus!
