//! Key bindings: which key press asks for which action.
use crate::session::Action;
use vstd::prelude::*;

verus! {

/// A pressed key, as far as the bindings tell keys apart.
#[derive(Debug, Clone, Copy, PartialEq, Eq, Structural)]
pub enum Key {
    Char(char),
    Esc,
    Up,
    Down,
    Other,
}

/// `q` or Escape quits; `j` or Down moves on; `k` or Up moves back; the space
/// bar deletes the selected entry. Any other key asks for nothing.
pub open spec fn key_action(key: Key) -> Option<Action> {
    match key {
        Key::Char('q') | Key::Esc => Some(Action::Quit),
        Key::Char('j') | Key::Down => Some(Action::MoveNext),
        Key::Char('k') | Key::Up => Some(Action::MovePrevious),
        Key::Char(' ') => Some(Action::DeleteSelected),
        _ => None,
    }
}

/// The action that a key press asks for, if any.
pub fn action_for_key(key: Key) -> (r: Option<Action>)
    ensures
        r == key_action(key),
{
    match key {
        Key::Char('q') | Key::Esc => Some(Action::Quit),
        Key::Char('j') | Key::Down => Some(Action::MoveNext),
        Key::Char('k') | Key::Up => Some(Action::MovePrevious),
        Key::Char(' ') => Some(Action::DeleteSelected),
        _ => None,
    }
}

} // verus!
