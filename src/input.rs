use vstd::prelude::*;
use crate::model::View;
use crate::update::Message;

verus! {

/// A key as the terminal reports it.
#[derive(Debug, Clone, Copy, PartialEq, Eq, Structural)]
pub enum Key {
    Char(char),
    Esc,
    Up,
    Down,
    Home,
    End,
    /// A function key, by number.
    F(u8),
    /// Any key that no binding uses.
    Other,
}

/// The fixed keymap.
pub open spec fn binding(key: Key) -> Option<Message> {
    match key {
        Key::Char('q') | Key::Esc => Some(Message::Quit),
        Key::Char('1') => Some(Message::SwitchView(View::Status)),
        Key::Char('2') => Some(Message::SwitchView(View::Log)),
        Key::Char('3') => Some(Message::SwitchView(View::Branches)),
        Key::Char('4') => Some(Message::SwitchView(View::Files)),
        Key::Up | Key::Char('k') => Some(Message::SelectUp),
        Key::Down | Key::Char('j') => Some(Message::SelectDown),
        Key::Home | Key::Char('g') => Some(Message::SelectFirst),
        Key::End | Key::Char('G') => Some(Message::SelectLast),
        Key::F(5) | Key::Char('r') => Some(Message::Refresh),
        _ => None,
    }
}

/// The message for a key event. Only presses count: a release or a repeat
/// gives none, and so does a key that is not bound.
pub fn message_for_key(key: Key, pressed: bool) -> (r: Option<Message>)
    ensures
        r == (if pressed { binding(key) } else { None }),
{
    if !pressed {
        return None;
    }
    match key {
        Key::Char('q') | Key::Esc => Some(Message::Quit),
        Key::Char('1') => Some(Message::SwitchView(View::Status)),
        Key::Char('2') => Some(Message::SwitchView(View::Log)),
        Key::Char('3') => Some(Message::SwitchView(View::Branches)),
        Key::Char('4') => Some(Message::SwitchView(View::Files)),
        Key::Up | Key::Char('k') => Some(Message::SelectUp),
        Key::Down | Key::Char('j') => Some(Message::SelectDown),
        Key::Home | Key::Char('g') => Some(Message::SelectFirst),
        Key::End | Key::Char('G') => Some(Message::SelectLast),
        Key::F(5) | Key::Char('r') => Some(Message::Refresh),
        _ => None,
    }
}

} // verus!
